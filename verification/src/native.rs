//! The decisions of the native Linux backend: container directories, the
//! lifecycle rules for starting, stopping and deleting a container, the
//! command that enters a running container, and the reading of process
//! statistics.

use vstd::prelude::*;
use std::collections::HashMap;
use crate::config::BackendConfig;
use crate::error::QckerError;
use crate::paths::{join, join_path};
use crate::text::{owned, push_str, push_string, push_owned, views, u64_to_decimal, decimal};
use crate::text::{str_chars, split_ws, split_lines, starts_with, parse_unsigned_chars};
use crate::text::{ws_pieces, text_lines, is_prefix, parse_unsigned};
use crate::types::{ContainerInfo, ContainerStatus, status_name};

verus! {

/// The text of an environment entry: `key=value`.
pub open spec fn env_entry(k: Seq<char>, v: Seq<char>) -> Seq<char> {
    k + "="@ + v
}

/// Whether `s` is the text of some entry of `env`.
pub open spec fn is_env_text(env: Map<String, String>, s: Seq<char>) -> bool {
    exists|k: String| env.contains_key(k) && s == env_entry(k@, env[k]@)
}

/// The entries of `env`, each once, in the order the map yields them
/// (`HashMap::iter`, cloned). That order depends on the map's hashing, so
/// only that every entry appears exactly once is stated.
#[verifier::external_body]
fn map_entries(env: &HashMap<String, String>) -> (r: Vec<(String, String)>)
    ensures
        r@.len() == env@.dom().len(),
        forall|i: int| 0 <= i < r@.len() ==> env@.contains_key(#[trigger] r@[i].0) && env@[r@[i].0]
            == r@[i].1,
        forall|i: int, j: int| 0 <= i < j < r@.len() ==> #[trigger] r@[i].0 != #[trigger] r@[j].0,
        forall|k: String| env@.contains_key(k) ==> exists|i: int| 0 <= i < r@.len() && #[trigger] r@[i].0 == k,
{
    env.iter().map(|(k, v)| (k.clone(), v.clone())).collect()
}

/// The environment as `key=value` texts, one per entry of `env`, in the
/// order the map yields its entries.
pub fn env_to_vec(env: &HashMap<String, String>) -> (r: Vec<String>)
    ensures
        r@.len() == env@.dom().len(),
        forall|i: int| 0 <= i < r@.len() ==> is_env_text(env@, #[trigger] r@[i]@),
        forall|k: String| #[trigger] env@.contains_key(k) ==> exists|i: int| 0 <= i < r@.len()
            && r@[i]@ == env_entry(k@, env@[k]@),
{
    let entries = map_entries(env);
    let mut out: Vec<String> = Vec::new();
    let mut i: usize = 0;
    while i < entries.len()
        invariant
            i <= entries@.len(),
            out@.len() == i,
            forall|j: int| 0 <= j < i ==> #[trigger] out@[j]@ == env_entry(
                entries@[j].0@,
                entries@[j].1@,
            ),
        decreases entries.len() - i,
    {
        let mut s = entries[i].0.clone();
        push_str(&mut s, "=");
        push_str(&mut s, entries[i].1.as_str());
        out.push(s);
        i += 1;
    }
    assert forall|j: int| 0 <= j < out@.len() implies is_env_text(env@, #[trigger] out@[j]@) by {
        let k = entries@[j].0;
        assert(env@.contains_key(k));
        assert(out@[j]@ == env_entry(k@, env@[k]@));
    }
    assert forall|k: String| #[trigger] env@.contains_key(k) implies exists|i: int|
        0 <= i < out@.len() && out@[i]@ == env_entry(k@, env@[k]@) by {
        let i = choose|i: int| 0 <= i < entries@.len() && #[trigger] entries@[i].0 == k;
        assert(out@[i]@ == env_entry(k@, env@[k]@));
    }
    out
}

/// The native backend: runs containers directly on the Linux host.
pub struct NativeBackend {
    pub config: Option<BackendConfig>,
    pub containers_dir: String,
}

impl NativeBackend {
    /// A backend that is not initialized yet: no settings and no
    /// containers directory.
    pub fn new() -> (r: Self)
        ensures
            r.config is None,
            r.containers_dir@ == Seq::<char>::empty(),
    {
        NativeBackend { config: None, containers_dir: String::new() }
    }

    /// The directory of container `id`: `id` under the containers directory.
    pub fn container_dir(&self, id: &str) -> (r: String)
        ensures
            r@ == join_path(self.containers_dir@, id@),
    {
        join(self.containers_dir.as_str(), id)
    }

    /// Takes `config` into use: the containers directory becomes the one
    /// under its data directory.
    pub fn configure(&mut self, config: BackendConfig)
        ensures
            final(self).containers_dir@ == join_path(config.data_dir@, "containers"@),
            final(self).config == Some(config),
    {
        self.containers_dir = config.containers_dir();
        self.config = Some(config);
    }

    /// The name the backend goes by.
    pub fn backend_name(&self) -> (r: &'static str)
        ensures
            r@ == "native"@,
    {
        "native"
    }

    /// Whether the backend has been initialized and not shut down.
    pub fn is_running(&self) -> (r: bool)
        ensures
            r == self.config is Some,
    {
        self.config.is_some()
    }

    /// Forgets the settings: the backend no longer counts as running.
    pub fn shut_down(&mut self)
        ensures
            final(self).config is None,
            final(self).containers_dir == old(self).containers_dir,
    {
        self.config = None;
    }
}

/// Whether a container in status `s` may be started.
pub open spec fn can_start(s: ContainerStatus) -> bool {
    s == ContainerStatus::Created || s == ContainerStatus::Stopped
}

/// The text of the error for starting a container in status `s`.
pub open spec fn invalid_state_text(s: ContainerStatus) -> Seq<char> {
    "Invalid state: "@ + status_name(s)
}

/// Checks that a container in status `status` may be started: only a
/// created or stopped one may.
pub fn start_check(status: ContainerStatus) -> (r: Result<(), QckerError>)
    ensures
        can_start(status) ==> r is Ok,
        !can_start(status) ==> (r matches Err(QckerError::Process(m)) && m@ == invalid_state_text(
            status,
        )),
{
    match status {
        ContainerStatus::Created => Ok(()),
        ContainerStatus::Stopped => Ok(()),
        _ => {
            let mut m = owned("Invalid state: ");
            let n = status.name();
            push_str(&mut m, n.as_str());
            Err(QckerError::Process(m))
        },
    }
}

/// The record of a container after it was started with process `pid`.
pub open spec fn started(c: ContainerInfo, pid: Option<u32>) -> ContainerInfo {
    ContainerInfo { pid, status: ContainerStatus::Running, ..c }
}

/// The record of a container after it was signalled to stop.
pub open spec fn stopped(c: ContainerInfo) -> ContainerInfo {
    ContainerInfo { status: ContainerStatus::Stopped, ..c }
}

/// The record of a container after its process exited with `code`.
pub open spec fn exited(c: ContainerInfo, code: i32) -> ContainerInfo {
    ContainerInfo { status: ContainerStatus::Stopped, exit_code: Some(code), ..c }
}

impl ContainerInfo {
    /// Records that the container was started with process `pid`.
    pub fn record_start(&mut self, pid: Option<u32>)
        ensures
            *final(self) == started(*old(self), pid),
    {
        self.pid = pid;
        self.status = ContainerStatus::Running;
    }

    /// Records that the container was signalled to stop.
    pub fn record_kill(&mut self)
        ensures
            *final(self) == stopped(*old(self)),
    {
        self.status = ContainerStatus::Stopped;
    }

    /// Records that the container's process exited with `code`.
    pub fn record_exit(&mut self, code: i32)
        ensures
            *final(self) == exited(*old(self), code),
    {
        self.status = ContainerStatus::Stopped;
        self.exit_code = Some(code);
    }
}

/// What deleting a container in status `status` takes: a running one is
/// refused unless forced, and then it is killed first.
pub open spec fn delete_plan(status: ContainerStatus, force: bool) -> Option<bool> {
    if status == ContainerStatus::Running {
        if force { Some(true) } else { None }
    } else {
        Some(false)
    }
}

/// Decides on deleting a container in status `status`: `Ok(true)` when it
/// must be killed first, `Ok(false)` when it can be removed at once, and
/// an error for a running container without `force`.
pub fn delete_check(status: ContainerStatus, force: bool) -> (r: Result<bool, QckerError>)
    ensures
        delete_plan(status, force) matches Some(k) ==> r == Ok::<bool, QckerError>(k),
        delete_plan(status, force) is None ==> (r matches Err(QckerError::Process(m)) && m@
            == "Container running, use force=true"@),
{
    if status == ContainerStatus::Running {
        if force {
            Ok(true)
        } else {
            Err(QckerError::Process(owned("Container running, use force=true")))
        }
    } else {
        Ok(false)
    }
}

/// The `nsenter` arguments that run `command` in the namespaces of process
/// `pid`.
pub open spec fn nsenter_args(pid: u32, command: Seq<Seq<char>>, tty: bool) -> Seq<Seq<char>> {
    seq![
        "--target"@,
        decimal(pid as nat),
        "--mount"@,
        "--uts"@,
        "--ipc"@,
        "--net"@,
        "--pid"@,
        "--"@,
    ] + (if tty { seq!["-t"@] } else { Seq::empty() }) + command
}

/// The `nsenter` arguments that run `command` inside container `c`:
/// refused unless it is running, and refused when it has no process.
pub fn exec_args(c: &ContainerInfo, command: &Vec<String>, tty: bool) -> (r: Result<
    Vec<String>,
    QckerError,
>)
    ensures
        c.status != ContainerStatus::Running ==> (r matches Err(QckerError::Process(m)) && m@
            == "Not running"@),
        c.status == ContainerStatus::Running && c.pid is None ==> (r matches Err(
            QckerError::Process(m),
        ) && m@ == "No PID"@),
        c.status == ContainerStatus::Running && c.pid is Some ==> (r matches Ok(v) && views(v@)
            == nsenter_args(c.pid->0, views(command@), tty)),
{
    if c.status != ContainerStatus::Running {
        return Err(QckerError::Process(owned("Not running")));
    }
    let pid = match c.pid {
        Some(p) => p,
        None => {
            return Err(QckerError::Process(owned("No PID")));
        },
    };
    let mut out: Vec<String> = Vec::new();
    push_owned(&mut out, "--target");
    push_string(&mut out, u64_to_decimal(pid as u64));
    push_owned(&mut out, "--mount");
    push_owned(&mut out, "--uts");
    push_owned(&mut out, "--ipc");
    push_owned(&mut out, "--net");
    push_owned(&mut out, "--pid");
    push_owned(&mut out, "--");
    if tty {
        push_owned(&mut out, "-t");
    }
    let ghost head = views(out@);
    let mut i: usize = 0;
    while i < command.len()
        invariant
            i <= command.len(),
            views(out@) == head + views(command@).take(i as int),
        decreases command.len() - i,
    {
        push_string(&mut out, command[i].clone());
        i += 1;
        assert(views(out@) =~= head + views(command@).take(i as int));
    }
    assert(views(command@).take(command.len() as int) =~= views(command@));
    Ok(out)
}

/// Starting is refused for a running container, which only a kill makes
/// startable again; a running container is never deleted unless forced,
/// and only a running one is killed before deletion.
pub proof fn law_lifecycle(c: ContainerInfo, pid: Option<u32>, code: i32, force: bool)
    ensures
        can_start(c.status) ==> started(c, pid).status == ContainerStatus::Running,
        !can_start(started(c, pid).status),
        can_start(stopped(started(c, pid)).status),
        can_start(exited(started(c, pid), code).status),
        delete_plan(started(c, pid).status, false) is None,
        delete_plan(started(c, pid).status, true) == Some(true),
        c.status != ContainerStatus::Running ==> delete_plan(c.status, force) == Some(false),
        stopped(c).pid == c.pid && stopped(c).id == c.id,
{
}

/// The value `str::parse::<u64>().unwrap_or(0)` gives.
pub open spec fn parse_or_zero(s: Seq<char>) -> nat {
    match parse_unsigned(s, u64::MAX as nat) {
        Some(v) => v,
        None => 0,
    }
}

/// The user and system CPU times (fields 14 and 15, counted from 1) of a
/// `/proc/<pid>/stat` text, unparsable ones read as 0; absent when it has
/// fewer than 24 fields.
pub open spec fn stat_times(stat: Seq<char>) -> Option<(nat, nat)> {
    let f = ws_pieces(stat);
    if f.len() < 24 {
        None
    } else {
        Some((parse_or_zero(f[22]), parse_or_zero(f[23])))
    }
}

/// `s.parse::<u64>().unwrap_or(0)`.
pub fn parse_u64_or_zero(s: &Vec<char>) -> (r: u64)
    ensures
        r as nat == parse_or_zero(s@),
{
    match parse_unsigned_chars(s, u64::MAX) {
        Some(v) => v,
        None => 0,
    }
}

/// The user and system CPU times of a `/proc/<pid>/stat` text.
pub fn proc_stat_times(stat: &str) -> (r: Option<(u64, u64)>)
    ensures
        r matches Some((u, s)) ==> stat_times(stat@) == Some((u as nat, s as nat)),
        r is None ==> stat_times(stat@) is None,
{
    let fields = split_ws(&str_chars(stat));
    if fields.len() < 24 {
        return None;
    }
    proof {
        assert(fields@[22].deep_view() =~= fields@[22]@);
        assert(fields@[23].deep_view() =~= fields@[23]@);
    }
    let u = parse_u64_or_zero(&fields[22]);
    let st = parse_u64_or_zero(&fields[23]);
    Some((u, st))
}

/// CPU time in nanoseconds from the tick counts of a process and the
/// number of ticks per second.
pub open spec fn cpu_ns(utime: nat, stime: nat, clk_tck: nat) -> nat {
    ((utime + stime) * 1000000000) / clk_tck
}

/// The CPU time of a process from its `/proc/<pid>/stat` text: refused
/// when the text has fewer than 24 fields.
pub fn container_cpu_usage(stat: &str, clk_tck: u64) -> (r: Result<u64, QckerError>)
    requires
        clk_tck > 0,
        stat_times(stat@) matches Some((u, s)) ==> (u + s) * 1000000000 <= u64::MAX,
    ensures
        stat_times(stat@) matches Some((u, s)) ==> r == Ok::<u64, QckerError>(
            cpu_ns(u, s, clk_tck as nat) as u64,
        ),
        stat_times(stat@) is None ==> (r matches Err(QckerError::Process(m)) && m@
            == "Invalid stat format"@),
{
    match proc_stat_times(stat) {
        None => Err(QckerError::Process(owned("Invalid stat format"))),
        Some((u, s)) => {
            let total = (u + s) * 1000000000;
            Ok(total / clk_tck)
        },
    }
}

/// The `VmRSS` value in KiB of the first `VmRSS:` line of a
/// `/proc/<pid>/status` text: its second field read as a number (0 when
/// unparsable or missing), or 0 when there is no such line.
pub open spec fn vmrss_of_lines(lines: Seq<Seq<char>>) -> nat
    decreases lines.len(),
{
    if lines.len() == 0 {
        0
    } else if is_prefix("VmRSS:"@, lines[0]) {
        let parts = ws_pieces(lines[0]);
        if parts.len() >= 2 {
            parse_or_zero(parts[1])
        } else {
            0
        }
    } else {
        vmrss_of_lines(lines.drop_first())
    }
}

/// The resident set size in KiB reported by a `/proc/<pid>/status` text.
pub fn vmrss_kib(status: &str) -> (r: u64)
    ensures
        r as nat == vmrss_of_lines(text_lines(status@)),
{
    let lines = split_lines(&str_chars(status));
    assert(lines.deep_view().skip(0) =~= lines.deep_view());
    let mut i: usize = 0;
    while i < lines.len()
        invariant
            i <= lines.len(),
            vmrss_of_lines(lines.deep_view().skip(i as int)) == vmrss_of_lines(lines.deep_view()),
            lines.deep_view() == text_lines(status@),
        decreases lines.len() - i,
    {
        let ghost rest = lines.deep_view().skip(i as int);
        proof {
            assert(lines@[i as int].deep_view() =~= lines@[i as int]@);
            assert(rest[0] == lines@[i as int]@);
            assert(rest.drop_first() =~= lines.deep_view().skip(i + 1));
        }
        if starts_with(&lines[i], "VmRSS:") {
            let parts = split_ws(&lines[i]);
            if parts.len() >= 2 {
                proof { assert(parts@[1].deep_view() =~= parts@[1]@); }
                return parse_u64_or_zero(&parts[1]);
            }
            return 0;
        }
        i += 1;
    }
    assert(lines.deep_view().skip(i as int) =~= Seq::<Seq<char>>::empty());
    0
}


/// Running a command in a container enters all five of its namespaces:
/// after `--target` and the container's process id come `--mount`,
/// `--uts`, `--ipc`, `--net` and `--pid`, then `--`, then `-t` when a
/// terminal is asked for, then the command exactly as given.
pub proof fn law_exec_enters_all_namespaces(pid: u32, command: Seq<Seq<char>>, tty: bool)
    ensures
        ({
            let a = nsenter_args(pid, command, tty);
            let k: int = if tty { 9 } else { 8 };
            &&& a.len() == k + command.len()
            &&& a[0] == "--target"@
            &&& a[1] == decimal(pid as nat)
            &&& a[2] == "--mount"@
            &&& a[3] == "--uts"@
            &&& a[4] == "--ipc"@
            &&& a[5] == "--net"@
            &&& a[6] == "--pid"@
            &&& a[7] == "--"@
            &&& tty ==> a[8] == "-t"@
            &&& a.skip(k) == command
        }),
{
    let a = nsenter_args(pid, command, tty);
    let k: int = if tty { 9 } else { 8 };
    assert(a.skip(k) =~= command);
}

} // verus!
