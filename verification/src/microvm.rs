//! The decisions of the MicroVM backend: the context id of a new VM, the
//! wait for its guest agent, how each reply of the agent is read, and the
//! commands that work on a container's files inside the VM.

use vstd::prelude::*;
use vstd::string::StrSliceExecFns;
use vstd::utf8::encode_utf8;
use crate::digest::{hex_encode, hex_lower};
use crate::protocol::VmToHost;
use crate::text::{
    lossy_text, owned, push_owned, push_str, push_string, split_lines, str_chars, string_of,
    text_lines, utf8_lossy, views,
};
use crate::types::{
    ContainerInfo, ContainerSpec, ContainerStatus, ContainerStats, ExecResult, LogEntry, LogStream,
};

verus! {

/// How many times the host tries to reach the guest agent of a booting VM.
pub const MAX_BOOT_ATTEMPTS: u32 = 30;

/// How long the host waits between two tries, in milliseconds.
pub const BOOT_RETRY_MS: u64 = 200;

/// The context id of a VM started `secs` seconds after the epoch: ids 0 to
/// 2 are reserved, so the ids run from 3 up.
pub open spec fn cid_for(secs: nat) -> nat {
    3 + secs % 4294967291
}

/// The context id of a VM started `secs` seconds after the epoch.
pub fn cid_from_secs(secs: u64) -> (r: u32)
    ensures
        r == cid_for(secs as nat),
        r >= 3,
{
    3 + (secs % 4294967291) as u32
}

/// What one try to reach the guest agent found.
#[derive(Debug, Clone, Copy, PartialEq, Eq, Structural)]
pub enum Probe {
    /// The VM process is gone.
    VmExited,
    /// No vsock connection could be made.
    ConnectFailed,
    /// The ping could not be sent.
    SendFailed,
    /// No reply came in time.
    NoReply,
    /// The agent replied (whatever it said).
    Replied,
}

/// Why a VM could not be brought up.
#[derive(Debug, Clone, Copy, PartialEq, Eq, Structural)]
pub enum BootError {
    /// The VM process exited while booting.
    VmExited,
    /// The agent never answered; the VM is to be stopped.
    AgentTimeout,
}

/// What to do after a try.
#[derive(Debug, Clone, Copy, PartialEq, Eq, Structural)]
pub enum BootStep {
    /// Wait, then try again.
    Retry,
    /// The agent is reachable.
    Ready,
    /// Give up.
    Fail(BootError),
}

/// The decision after try `attempt` (counted from 1) found `probe`.
pub open spec fn boot_decision(attempt: int, probe: Probe) -> BootStep {
    match probe {
        Probe::VmExited => BootStep::Fail(BootError::VmExited),
        Probe::Replied => BootStep::Ready,
        _ => if attempt < MAX_BOOT_ATTEMPTS {
            BootStep::Retry
        } else {
            BootStep::Fail(BootError::AgentTimeout)
        },
    }
}

/// The decision after try `attempt` found `probe`.
pub fn boot_step(attempt: u32, probe: Probe) -> (r: BootStep)
    requires
        1 <= attempt <= MAX_BOOT_ATTEMPTS,
    ensures
        r == boot_decision(attempt as int, probe),
{
    match probe {
        Probe::VmExited => BootStep::Fail(BootError::VmExited),
        Probe::Replied => BootStep::Ready,
        _ => if attempt < MAX_BOOT_ATTEMPTS {
            BootStep::Retry
        } else {
            BootStep::Fail(BootError::AgentTimeout)
        },
    }
}

/// The text of a boot failure.
pub open spec fn boot_error_text(e: BootError) -> Seq<char> {
    match e {
        BootError::VmExited => "VM process exited unexpectedly during startup"@,
        BootError::AgentTimeout => "Timed out waiting for guest agent to be ready"@,
    }
}

impl BootError {
    /// The text of the failure.
    pub fn message(&self) -> (r: String)
        ensures
            r@ == boot_error_text(*self),
    {
        match self {
            BootError::VmExited => owned("VM process exited unexpectedly during startup"),
            BootError::AgentTimeout => owned("Timed out waiting for guest agent to be ready"),
        }
    }
}

/// The number of tries the wait for the agent takes from try `attempt` on,
/// given what each try finds: it ends at the first try whose decision is
/// not to retry.
pub open spec fn tries_after(probes: Seq<Probe>, attempt: int) -> int
    decreases probes.len(),
{
    if probes.len() == 0 {
        0
    } else if boot_decision(attempt, probes[0]) != BootStep::Retry {
        1
    } else {
        1 + tries_after(probes.drop_first(), attempt + 1)
    }
}

proof fn lemma_tries_after_bounded(probes: Seq<Probe>, attempt: int)
    requires
        1 <= attempt <= MAX_BOOT_ATTEMPTS,
    ensures
        tries_after(probes, attempt) <= MAX_BOOT_ATTEMPTS - attempt + 1,
    decreases probes.len(),
{
    if probes.len() > 0 && boot_decision(attempt, probes[0]) == BootStep::Retry {
        lemma_tries_after_bounded(probes.drop_first(), attempt + 1);
    }
}

/// The wait for the guest agent never takes more than 30 tries: the last
/// try ends it whatever it finds, and a try that finds a reply or the VM
/// gone ends it at once.
pub proof fn law_boot_wait_ends(probes: Seq<Probe>, attempt: int)
    requires
        1 <= attempt <= MAX_BOOT_ATTEMPTS,
    ensures
        forall|p: Probe| boot_decision(MAX_BOOT_ATTEMPTS as int, p) != BootStep::Retry,
        tries_after(probes, 1) <= MAX_BOOT_ATTEMPTS,
        boot_decision(attempt, Probe::Replied) == BootStep::Ready,
        boot_decision(attempt, Probe::VmExited) == BootStep::Fail(BootError::VmExited),
{
    lemma_tries_after_bounded(probes, 1);
}

/// How a reply of the guest agent fails a request.
#[derive(Debug)]
pub enum ReplyError {
    /// The agent reported an error.
    Agent { code: String, message: String },
    /// The agent replied with something the request does not call for.
    Unexpected(VmToHost),
}

/// The failure a reply stands for, when it is not the one asked for.
pub open spec fn reply_error(reply: VmToHost) -> ReplyError {
    match reply {
        VmToHost::Error { code, message, .. } => ReplyError::Agent { code, message },
        _ => ReplyError::Unexpected(reply),
    }
}

/// The text of an error reported by the agent.
pub open spec fn agent_error_text(code: Seq<char>, message: Seq<char>) -> Seq<char> {
    "Guest agent error ("@ + code + "): "@ + message
}

impl ReplyError {
    /// The text of an error the agent reported; `None` for an unexpected
    /// reply, whose text is the reply itself as `Debug` shows it.
    pub fn agent_text(&self) -> (r: Option<String>)
        ensures
            match self {
                ReplyError::Agent { code, message } => r matches Some(t) && t@ == agent_error_text(
                    code@,
                    message@,
                ),
                ReplyError::Unexpected(_) => r is None,
            },
    {
        match self {
            ReplyError::Agent { code, message } => {
                let mut t = owned("Guest agent error (");
                push_str(&mut t, code.as_str());
                push_str(&mut t, "): ");
                push_str(&mut t, message.as_str());
                Some(t)
            },
            ReplyError::Unexpected(_) => None,
        }
    }
}

fn reject(reply: VmToHost) -> (r: ReplyError)
    ensures
        r == reply_error(reply),
{
    match reply {
        VmToHost::Error { code, message, .. } => ReplyError::Agent { code, message },
        other => ReplyError::Unexpected(other),
    }
}

/// The process id a `container.created` reply gives.
pub fn created_pid(reply: VmToHost) -> (r: Result<u32, ReplyError>)
    ensures
        match reply {
            VmToHost::ContainerCreated { pid, .. } => r == Ok::<u32, ReplyError>(pid),
            _ => r == Err::<u32, ReplyError>(reply_error(reply)),
        },
{
    match reply {
        VmToHost::ContainerCreated { pid, .. } => Ok(pid),
        other => Err(reject(other)),
    }
}

/// Whether the reply is `container.started`.
pub fn started_reply(reply: VmToHost) -> (r: Result<(), ReplyError>)
    ensures
        match reply {
            VmToHost::ContainerStarted { .. } => r == Ok::<(), ReplyError>(()),
            _ => r == Err::<(), ReplyError>(reply_error(reply)),
        },
{
    match reply {
        VmToHost::ContainerStarted { .. } => Ok(()),
        other => Err(reject(other)),
    }
}

/// The exit code a `container.exited` reply gives.
pub fn exited_code(reply: VmToHost) -> (r: Result<i32, ReplyError>)
    ensures
        match reply {
            VmToHost::ContainerExited { exit_code, .. } => r == Ok::<i32, ReplyError>(exit_code),
            _ => r == Err::<i32, ReplyError>(reply_error(reply)),
        },
{
    match reply {
        VmToHost::ContainerExited { exit_code, .. } => Ok(exit_code),
        other => Err(reject(other)),
    }
}

/// The usage a `container.stats` reply gives; the VM does not report block
/// I/O, which reads as 0.
pub fn stats_reply(reply: VmToHost) -> (r: Result<ContainerStats, ReplyError>)
    ensures
        match reply {
            VmToHost::ContainerStatsResponse {
                cpu_usage_ns,
                memory_usage_bytes,
                memory_limit_bytes,
                network_rx_bytes,
                network_tx_bytes,
                pids,
                ..
            } => r == Ok::<ContainerStats, ReplyError>(
                ContainerStats {
                    cpu_usage_ns,
                    memory_usage_bytes,
                    memory_limit_bytes,
                    network_rx_bytes,
                    network_tx_bytes,
                    block_read_bytes: 0,
                    block_write_bytes: 0,
                    pids,
                },
            ),
            _ => r == Err::<ContainerStats, ReplyError>(reply_error(reply)),
        },
{
    match reply {
        VmToHost::ContainerStatsResponse {
            cpu_usage_ns,
            memory_usage_bytes,
            memory_limit_bytes,
            network_rx_bytes,
            network_tx_bytes,
            pids,
            ..
        } => Ok(
            ContainerStats {
                cpu_usage_ns,
                memory_usage_bytes,
                memory_limit_bytes,
                network_rx_bytes,
                network_tx_bytes,
                block_read_bytes: 0,
                block_write_bytes: 0,
                pids,
            },
        ),
        other => Err(reject(other)),
    }
}

/// The outcome of a command run in a container, from the `container.log`
/// reply that carries its output: exit code 0, the text as the bytes of
/// the stream it was written to, the other stream empty.
pub fn exec_reply(reply: VmToHost) -> (r: Result<ExecResult, ReplyError>)
    ensures
        match reply {
            VmToHost::ContainerLog { stream, data, .. } => r matches Ok(e) && e.exit_code == 0 && (
            match stream {
                LogStream::Stdout => e.stdout@ == encode_utf8(data@) && e.stderr@.len() == 0,
                LogStream::Stderr => e.stderr@ == encode_utf8(data@) && e.stdout@.len() == 0,
            }),
            _ => r matches Err(x) && x == reply_error(reply),
        },
{
    match reply {
        VmToHost::ContainerLog { stream, data, .. } => {
            let bytes = data.as_str().as_bytes_vec();
            match stream {
                LogStream::Stdout => Ok(ExecResult { exit_code: 0, stdout: bytes, stderr: Vec::new() }),
                LogStream::Stderr => Ok(ExecResult { exit_code: 0, stdout: Vec::new(), stderr: bytes }),
            }
        },
        other => Err(reject(other)),
    }
}

/// How the host reads the reply to `container.delete`: an error other than
/// an unknown container fails the deletion; anything else lets it go on.
pub fn delete_reply(reply: VmToHost) -> (r: Result<(), ReplyError>)
    ensures
        match reply {
            VmToHost::Error { code, message, .. } => if code@ == "CONTAINER_NOT_FOUND"@ {
                r is Ok
            } else {
                r == Err::<(), ReplyError>(ReplyError::Agent { code, message })
            },
            _ => r is Ok,
        },
{
    match reply {
        VmToHost::Error { code, message, .. } => {
            let cs = str_chars(code.as_str());
            if crate::text::chars_eq_str(&cs, "CONTAINER_NOT_FOUND") {
                Ok(())
            } else {
                Err(ReplyError::Agent { code, message })
            }
        },
        _ => Ok(()),
    }
}

/// The record of a container the agent created with process `pid`, at the
/// time `created_at`.
pub fn created_container(id: &str, spec: &ContainerSpec, pid: u32, created_at: String) -> (r: ContainerInfo)
    ensures
        r.id@ == id@,
        r.name is None,
        r.image@ == spec.image@,
        r.status == ContainerStatus::Created,
        r.pid == Some(pid),
        r.exit_code is None,
        r.created_at == created_at,
        r.labels@ == spec.labels@,
{
    ContainerInfo {
        id: owned(id),
        name: None,
        image: spec.image.clone(),
        status: ContainerStatus::Created,
        pid: Some(pid),
        exit_code: None,
        created_at,
        labels: spec.labels.clone(),
    }
}

/// What deleting a container in status `status` takes on a VM: `Ok(true)`
/// when it must be killed first, `Ok(false)` when it can go at once; a
/// running container is refused unless forced.
pub fn vm_delete_check(status: ContainerStatus, force: bool) -> (r: Result<bool, String>)
    ensures
        crate::native::delete_plan(status, force) matches Some(k) ==> r == Ok::<bool, String>(k),
        crate::native::delete_plan(status, force) is None ==> (r matches Err(m) && m@
            == "Container is running. Use force=true to delete"@),
{
    if status == ContainerStatus::Running {
        if force {
            Ok(true)
        } else {
            Err(owned("Container is running. Use force=true to delete"))
        }
    } else {
        Ok(false)
    }
}

/// The command that prints a file.
pub fn read_command(path: &str) -> (r: Vec<String>)
    ensures
        views(r@) == seq!["/bin/cat"@, path@],
{
    let mut r: Vec<String> = Vec::new();
    push_owned(&mut r, "/bin/cat");
    push_owned(&mut r, path);
    assert(views(r@) =~= seq!["/bin/cat"@, path@]);
    r
}

/// The command that removes a file or directory tree.
pub fn delete_command(path: &str) -> (r: Vec<String>)
    ensures
        views(r@) == seq!["/bin/rm"@, "-rf"@, path@],
{
    let mut r: Vec<String> = Vec::new();
    push_owned(&mut r, "/bin/rm");
    push_owned(&mut r, "-rf");
    push_owned(&mut r, path);
    assert(views(r@) =~= seq!["/bin/rm"@, "-rf"@, path@]);
    r
}

/// The command that makes a directory and its parents.
pub fn mkdir_command(path: &str) -> (r: Vec<String>)
    ensures
        views(r@) == seq!["/bin/mkdir"@, "-p"@, path@],
{
    let mut r: Vec<String> = Vec::new();
    push_owned(&mut r, "/bin/mkdir");
    push_owned(&mut r, "-p");
    push_owned(&mut r, path);
    assert(views(r@) =~= seq!["/bin/mkdir"@, "-p"@, path@]);
    r
}

/// The shell line that writes `content` to `path`: the bytes travel in hex
/// and `xxd` turns them back.
pub open spec fn write_line(content: Seq<u8>, path: Seq<char>) -> Seq<char> {
    "echo '"@ + hex_lower(content) + "' | xxd -r -p > "@ + path
}

/// The command that writes `content` to `path`.
pub fn write_command(content: &[u8], path: &str) -> (r: Vec<String>)
    ensures
        views(r@) == seq!["/bin/sh"@, "-c"@, write_line(content@, path@)],
{
    let mut line = owned("echo '");
    let hex = hex_encode(content);
    push_str(&mut line, hex.as_str());
    push_str(&mut line, "' | xxd -r -p > ");
    push_str(&mut line, path);
    let mut r: Vec<String> = Vec::new();
    push_owned(&mut r, "/bin/sh");
    push_owned(&mut r, "-c");
    push_string(&mut r, line);
    assert(views(r@) =~= seq!["/bin/sh"@, "-c"@, write_line(content@, path@)]);
    r
}

/// The outcome of a file command: a failure (a nonzero exit code) gives
/// `<what>: ` and what the command wrote to its error stream.
pub fn command_outcome(result: &ExecResult, what: &str) -> (r: Result<(), String>)
    ensures
        result.exit_code == 0 ==> r is Ok,
        result.exit_code != 0 ==> (r matches Err(m) && m@ == what@ + ": "@ + utf8_lossy(
            result.stderr@,
        )),
{
    if result.exit_code != 0 {
        let mut m = owned(what);
        push_str(&mut m, ": ");
        let t = lossy_text(result.stderr.as_slice());
        push_str(&mut m, t.as_str());
        Err(m)
    } else {
        Ok(())
    }
}

/// The lines of a log, the last `tail` of them when a tail is asked for.
pub open spec fn tail_of(lines: Seq<Seq<char>>, tail: Option<usize>) -> Seq<Seq<char>> {
    match tail {
        Some(t) => if lines.len() > t {
            lines.skip(lines.len() - t)
        } else {
            lines
        },
        None => lines,
    }
}

/// An entry for the log line `line`, read from the standard output at
/// `stamp`.
pub open spec fn log_line_entry(e: LogEntry, line: Seq<char>, stamp: Seq<char>) -> bool {
    e.message@ == line && e.timestamp@ == stamp && e.stream == LogStream::Stdout
}

/// The entries of a container log: one per line of `content`, read from
/// the standard output at `stamp`, the last `tail` of them when asked.
pub fn log_entries(content: &str, stamp: &String, tail: Option<usize>) -> (r: Vec<LogEntry>)
    ensures
        r@.len() == tail_of(text_lines(content@), tail).len(),
        forall|i: int| 0 <= i < r@.len() ==> log_line_entry(#[trigger] r@[i], tail_of(
            text_lines(content@),
            tail,
        )[i], stamp@),
{
    let cs = str_chars(content);
    let lines = split_lines(&cs);
    let ghost all = lines.deep_view();
    let start: usize = match tail {
        Some(t) => if lines.len() > t {
            lines.len() - t
        } else {
            0
        },
        None => 0,
    };
    let ghost want = tail_of(all, tail);
    assert(want =~= all.skip(start as int));
    let mut out: Vec<LogEntry> = Vec::new();
    let mut i: usize = start;
    while i < lines.len()
        invariant
            start <= i <= lines.len(),
            all == lines.deep_view(),
            want == all.skip(start as int),
            out@.len() == i - start,
            forall|k: int| 0 <= k < out@.len() ==> log_line_entry(#[trigger] out@[k], want[k], stamp@),
        decreases lines.len() - i,
    {
        proof {
            assert(lines@[i as int].deep_view() =~= lines@[i as int]@);
            assert(want[i - start] == all[i as int]);
        }
        let ghost before = out@;
        let entry = LogEntry {
            timestamp: stamp.clone(),
            stream: LogStream::Stdout,
            message: string_of(&lines[i]),
        };
        assert(entry.timestamp@ == stamp@);
        assert(entry.message@ == want[i - start]);
        out.push(entry);
        assert(out@[i - start] == entry);
        assert forall|k: int| 0 <= k < out@.len() implies log_line_entry(#[trigger] out@[k], want[k], stamp@) by {
            if k < i - start {
                assert(out@[k] == before[k]);
            }
        }
        i += 1;
    }
    assert(all == text_lines(content@));
    out
}


/// While tries are left, a try that neither reaches the agent nor finds
/// the VM gone (the connection failed, the ping could not be sent, or no
/// reply came) is followed by another try; the wait is given up for want
/// of an answer only at the last try.
pub proof fn law_boot_keeps_waiting(attempt: int, probe: Probe)
    ensures
        1 <= attempt < MAX_BOOT_ATTEMPTS && (probe == Probe::ConnectFailed || probe
            == Probe::SendFailed || probe == Probe::NoReply) ==> boot_decision(attempt, probe)
            == BootStep::Retry,
        boot_decision(attempt, probe) == BootStep::Fail(BootError::AgentTimeout) ==> attempt
            >= MAX_BOOT_ATTEMPTS,
        attempt >= MAX_BOOT_ATTEMPTS && probe != Probe::Replied && probe != Probe::VmExited
            ==> boot_decision(attempt, probe) == BootStep::Fail(BootError::AgentTimeout),
{
}

} // verus!
