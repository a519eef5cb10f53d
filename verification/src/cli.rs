//! The decisions and the text of the command-line commands: which
//! containers a listing shows, which signal `kill` sends, what `stats`,
//! `system` and `network` are asked to do, and the columns of the tables
//! they print.

use vstd::prelude::*;
use crate::microvm::tail_of;
use crate::text::{
    split_lines, string_of, text_lines, chars_eq_str, decimal, i64_to_decimal, owned, push_char, push_owned, push_str, push_string,
    signed_decimal, str_chars, u64_to_decimal, views,
};

verus! {

broadcast use vstd::string::group_string_axioms;

/// `s` followed by spaces up to `width` characters, as `{:<width}` prints
/// it; a longer text is left whole.
pub open spec fn pad_right(s: Seq<char>, width: nat) -> Seq<char> {
    if s.len() >= width {
        s
    } else {
        s + Seq::new((width - s.len()) as nat, |i: int| ' ')
    }
}

/// A padded cell is as wide as asked, or as long as its text when that is
/// longer, and starts with the text.
pub proof fn law_padding(s: Seq<char>, width: nat)
    ensures
        pad_right(s, width).len() == (if s.len() >= width { s.len() } else { width }),
        pad_right(s, width).take(s.len() as int) == s,
{
    assert(pad_right(s, width).take(s.len() as int) =~= s);
}

/// `format!("{:<width$}", s)`.
pub fn padded(s: &str, width: usize) -> (r: String)
    ensures
        r@ == pad_right(s@, width as nat),
{
    let cs = str_chars(s);
    let mut r = owned(s);
    let mut n: usize = cs.len();
    while n < width
        invariant
            cs@.len() <= n,
            n <= width || n == cs@.len(),
            cs@ == s@,
            r@ == s@ + Seq::new((n - cs@.len()) as nat, |i: int| ' '),
        decreases width - n,
    {
        push_char(&mut r, ' ');
        n += 1;
        assert(r@ =~= s@ + Seq::new((n - cs@.len()) as nat, |i: int| ' '));
    }
    proof {
        if s@.len() >= width {
            assert(r@ =~= s@);
        }
    }
    r
}

/// Cells joined by single spaces, each padded to its width.
pub open spec fn table_row(cells: Seq<(Seq<char>, nat)>) -> Seq<char>
    decreases cells.len(),
{
    if cells.len() == 0 {
        Seq::empty()
    } else if cells.len() == 1 {
        pad_right(cells[0].0, cells[0].1)
    } else {
        table_row(cells.drop_last()) + seq![' '] + pad_right(cells.last().0, cells.last().1)
    }
}

/// The text of an optional process id: the number, or `-`.
pub open spec fn pid_text(pid: Option<i32>) -> Seq<char> {
    match pid {
        Some(p) => signed_decimal(p as int),
        None => "-"@,
    }
}

fn pid_string(pid: Option<i32>) -> (r: String)
    ensures
        r@ == pid_text(pid),
{
    match pid {
        Some(p) => i64_to_decimal(p as i64),
        None => owned("-"),
    }
}

/// The header of the container list.
pub open spec fn container_list_header() -> Seq<char> {
    table_row(seq![("CONTAINER ID"@, 15nat), ("STATUS"@, 15nat), ("PID"@, 10nat)])
}

/// A row of the container list.
pub open spec fn container_list_row(id: Seq<char>, state: Seq<char>, pid: Option<i32>) -> Seq<char> {
    table_row(seq![(id, 15nat), (state, 15nat), (pid_text(pid), 10nat)])
}

fn three_cells(a: &str, wa: usize, b: &str, wb: usize, c: &str, wc: usize) -> (r: String)
    ensures
        r@ == table_row(seq![(a@, wa as nat), (b@, wb as nat), (c@, wc as nat)]),
{
    let mut r = padded(a, wa);
    push_char(&mut r, ' ');
    let pb = padded(b, wb);
    push_str(&mut r, pb.as_str());
    push_char(&mut r, ' ');
    let pc = padded(c, wc);
    push_str(&mut r, pc.as_str());
    proof {
        let cells = seq![(a@, wa as nat), (b@, wb as nat), (c@, wc as nat)];
        assert(cells.drop_last().drop_last() =~= seq![(a@, wa as nat)]);
        assert(cells.drop_last() =~= seq![(a@, wa as nat), (b@, wb as nat)]);
        reveal_with_fuel(table_row, 3);
        assert(r@ =~= table_row(cells));
    }
    r
}

/// The lines of the container list as a table: the header, then one row
/// per container.
pub fn container_list_lines(containers: &Vec<(String, String, Option<i32>)>) -> (r: Vec<String>)
    ensures
        r@.len() == containers@.len() + 1,
        r@[0]@ == container_list_header(),
        forall|i: int| 0 <= i < containers@.len() ==> #[trigger] r@[i + 1]@ == container_list_row(
            containers@[i].0@,
            containers@[i].1@,
            containers@[i].2,
        ),
{
    let mut r: Vec<String> = Vec::new();
    r.push(three_cells("CONTAINER ID", 15, "STATUS", 15, "PID", 10));
    let mut i: usize = 0;
    while i < containers.len()
        invariant
            i <= containers.len(),
            r@.len() == i + 1,
            r@[0]@ == container_list_header(),
            forall|k: int| 0 <= k < i ==> #[trigger] r@[k + 1]@ == container_list_row(
                containers@[k].0@,
                containers@[k].1@,
                containers@[k].2,
            ),
        decreases containers.len() - i,
    {
        let (id, state, pid) = &containers[i];
        let p = pid_string(*pid);
        r.push(three_cells(id.as_str(), 15, state.as_str(), 15, p.as_str(), 10));
        i += 1;
    }
    r
}

/// The plain-text description of a container's state.
pub open spec fn state_lines(id: Seq<char>, state: Seq<char>, pid: Option<i32>) -> Seq<Seq<char>> {
    seq!["Container: "@ + id, "Status:    "@ + state] + match pid {
        Some(p) => seq!["PID:       "@ + signed_decimal(p as int)],
        None => Seq::empty(),
    }
}

/// The plain-text description of a container's state.
pub fn container_state_lines(id: &str, state: &str, pid: Option<i32>) -> (r: Vec<String>)
    ensures
        views(r@) == state_lines(id@, state@, pid),
{
    let mut r: Vec<String> = Vec::new();
    let mut a = owned("Container: ");
    push_str(&mut a, id);
    push_string(&mut r, a);
    let mut b = owned("Status:    ");
    push_str(&mut b, state);
    push_string(&mut r, b);
    match pid {
        Some(p) => {
            let mut c = owned("PID:       ");
            let t = i64_to_decimal(p as i64);
            push_str(&mut c, t.as_str());
            push_string(&mut r, c);
        },
        None => {},
    }
    assert(views(r@) =~= state_lines(id@, state@, pid));
    r
}

/// The options of `qcker ps`.
#[derive(Debug, Clone, Copy)]
pub struct PsArgs {
    pub all: bool,
}

/// Whether `qcker ps` lists a container in state `state`: all of them
/// with `--all`, else the running ones.
pub fn ps_lists(args: &PsArgs, state: &str) -> (r: bool)
    ensures
        r == (args.all || state@ == "running"@),
{
    let cs = str_chars(state);
    args.all || chars_eq_str(&cs, "running")
}

/// The options of `qcker kill`.
#[derive(Debug, Clone)]
pub struct KillArgs {
    pub container_id: String,
    pub signal: String,
}

/// The signals `qcker kill` can send.
#[derive(Debug, Clone, Copy, PartialEq, Eq, Structural)]
pub enum KillSignal {
    Kill,
    Term,
    Int,
    Hup,
    Stop,
    Cont,
}

/// The signal a name stands for.
pub open spec fn signal_named(name: Seq<char>) -> Option<KillSignal> {
    if name == "SIGKILL"@ {
        Some(KillSignal::Kill)
    } else if name == "SIGTERM"@ {
        Some(KillSignal::Term)
    } else if name == "SIGINT"@ {
        Some(KillSignal::Int)
    } else if name == "SIGHUP"@ {
        Some(KillSignal::Hup)
    } else if name == "SIGSTOP"@ {
        Some(KillSignal::Stop)
    } else if name == "SIGCONT"@ {
        Some(KillSignal::Cont)
    } else {
        None
    }
}

/// The signal `qcker kill` sends: the one named, or an error naming the
/// unknown name.
pub fn kill_signal(args: &KillArgs) -> (r: Result<KillSignal, String>)
    ensures
        signal_named(args.signal@) matches Some(s) ==> r == Ok::<KillSignal, String>(s),
        signal_named(args.signal@) is None ==> (r matches Err(m) && m@ == "Unknown signal: "@
            + args.signal@),
{
    let cs = str_chars(args.signal.as_str());
    if chars_eq_str(&cs, "SIGKILL") {
        Ok(KillSignal::Kill)
    } else if chars_eq_str(&cs, "SIGTERM") {
        Ok(KillSignal::Term)
    } else if chars_eq_str(&cs, "SIGINT") {
        Ok(KillSignal::Int)
    } else if chars_eq_str(&cs, "SIGHUP") {
        Ok(KillSignal::Hup)
    } else if chars_eq_str(&cs, "SIGSTOP") {
        Ok(KillSignal::Stop)
    } else if chars_eq_str(&cs, "SIGCONT") {
        Ok(KillSignal::Cont)
    } else {
        let mut m = owned("Unknown signal: ");
        push_str(&mut m, args.signal.as_str());
        Err(m)
    }
}

/// What `qcker kill` reports once the signal was sent.
pub fn killed_message(args: &KillArgs) -> (r: String)
    ensures
        r@ == "Container "@ + args.container_id@ + " killed with "@ + args.signal@,
{
    let mut m = owned("Container ");
    push_str(&mut m, args.container_id.as_str());
    push_str(&mut m, " killed with ");
    push_str(&mut m, args.signal.as_str());
    m
}

/// The options of `qcker stats`.
#[derive(Debug, Clone)]
pub struct StatsArgs {
    pub container_id: Option<String>,
    pub all: bool,
}

/// Which containers `qcker stats` reports on.
#[derive(Debug, Clone)]
pub enum StatsTarget {
    One(String),
    All,
}

/// The containers `qcker stats` reports on: the one named, else all with
/// `--all`; with neither it refuses.
pub fn stats_target(args: &StatsArgs) -> (r: Result<StatsTarget, String>)
    ensures
        args.container_id matches Some(id) ==> (r matches Ok(StatsTarget::One(t)) && t@ == id@),
        args.container_id is None && args.all ==> (r matches Ok(StatsTarget::All)),
        args.container_id is None && !args.all ==> (r matches Err(m) && m@
            == "Specify container ID or use --all"@),
{
    match &args.container_id {
        Some(id) => Ok(StatsTarget::One(id.clone())),
        None => if args.all {
            Ok(StatsTarget::All)
        } else {
            Err(owned("Specify container ID or use --all"))
        },
    }
}

/// The header of the `qcker stats` table.
pub open spec fn stats_header() -> Seq<char> {
    table_row(
        seq![
            ("CONTAINER"@, 15nat),
            ("STATUS"@, 12nat),
            ("PID"@, 8nat),
            ("CPU (ns)"@, 15nat),
            ("MEMORY (B)"@, 15nat),
        ],
    )
}

/// A row of the `qcker stats` table.
pub open spec fn stats_row(id: Seq<char>, status: Seq<char>, pid: Option<i64>, cpu: u64, mem: u64) -> Seq<
    char,
> {
    table_row(
        seq![
            (id, 15nat),
            (status, 12nat),
            (
                match pid {
                    Some(p) => signed_decimal(p as int),
                    None => "-"@,
                },
                8nat,
            ),
            (decimal(cpu as nat), 15nat),
            (decimal(mem as nat), 15nat),
        ],
    )
}

fn five_cells(cells: &Vec<(String, usize)>) -> (r: String)
    requires
        cells@.len() == 5,
    ensures
        r@ == table_row(cells@.map_values(|c: (String, usize)| (c.0@, c.1 as nat))),
{
    let ghost cv = cells@.map_values(|c: (String, usize)| (c.0@, c.1 as nat));
    let mut r = padded(cells[0].0.as_str(), cells[0].1);
    let mut i: usize = 1;
    assert(cv.take(1) =~= seq![cv[0]]);
    while i < 5
        invariant
            1 <= i <= 5,
            cells@.len() == 5,
            cv == cells@.map_values(|c: (String, usize)| (c.0@, c.1 as nat)),
            r@ == table_row(cv.take(i as int)),
        decreases 5 - i,
    {
        push_char(&mut r, ' ');
        let p = padded(cells[i].0.as_str(), cells[i].1);
        push_str(&mut r, p.as_str());
        assert(cv.take(i + 1).drop_last() =~= cv.take(i as int));
        i += 1;
    }
    assert(cv.take(5) =~= cv);
    r
}

/// The header of the `qcker stats` table.
pub fn stats_header_line() -> (r: String)
    ensures
        r@ == stats_header(),
{
    let mut cells: Vec<(String, usize)> = Vec::new();
    cells.push((owned("CONTAINER"), 15));
    cells.push((owned("STATUS"), 12));
    cells.push((owned("PID"), 8));
    cells.push((owned("CPU (ns)"), 15));
    cells.push((owned("MEMORY (B)"), 15));
    let r = five_cells(&cells);
    assert(cells@.map_values(|c: (String, usize)| (c.0@, c.1 as nat)) =~= seq![
        ("CONTAINER"@, 15nat),
        ("STATUS"@, 12nat),
        ("PID"@, 8nat),
        ("CPU (ns)"@, 15nat),
        ("MEMORY (B)"@, 15nat),
    ]);
    r
}

/// A row of the `qcker stats` table.
pub fn stats_row_line(id: &str, status: &str, pid: Option<i64>, cpu: u64, mem: u64) -> (r: String)
    ensures
        r@ == stats_row(id@, status@, pid, cpu, mem),
{
    let p = match pid {
        Some(p) => i64_to_decimal(p),
        None => owned("-"),
    };
    let mut cells: Vec<(String, usize)> = Vec::new();
    cells.push((owned(id), 15));
    cells.push((owned(status), 12));
    cells.push((p, 8));
    cells.push((u64_to_decimal(cpu), 15));
    cells.push((u64_to_decimal(mem), 15));
    let r = five_cells(&cells);
    assert(cells@.map_values(|c: (String, usize)| (c.0@, c.1 as nat)) =~= seq![
        (id@, 15nat),
        (status@, 12nat),
        (
            match pid {
                Some(p) => signed_decimal(p as int),
                None => "-"@,
            },
            8nat,
        ),
        (decimal(cpu as nat), 15nat),
        (decimal(mem as nat), 15nat),
    ]);
    r
}

/// The options of `qcker system`.
#[derive(Debug, Clone, Copy)]
pub struct SystemArgs {
    pub command: SystemCommand,
}

/// The subcommands of `qcker system`.
#[derive(Debug, Clone, Copy)]
pub enum SystemCommand {
    Info,
    Prune { all: bool },
}

/// Whether `qcker system prune` removes a container in state `state`: a
/// stopped one, or any with `--all`.
pub fn prunes(state: &str, all: bool) -> (r: bool)
    ensures
        r == (state@ == "Stopped"@ || all),
{
    let cs = str_chars(state);
    chars_eq_str(&cs, "Stopped") || all
}

/// The lines of `qcker system info`.
pub open spec fn info_text(
    version: Seq<char>,
    data_dir: Seq<char>,
    os: Seq<char>,
    arch: Seq<char>,
    containers: nat,
    images: nat,
    volumes: nat,
) -> Seq<Seq<char>> {
    seq![
        "Qcker System Information"@,
        "========================"@,
        "Version:    "@ + version,
        "Data Dir:   "@ + data_dir,
        "OS:         "@ + os,
        "Arch:       "@ + arch,
        "Containers: "@ + decimal(containers),
        "Images:     "@ + decimal(images),
        "Volumes:    "@ + decimal(volumes),
    ]
}

fn labelled(label: &str, value: &str) -> (r: String)
    ensures
        r@ == label@ + value@,
{
    let mut s = owned(label);
    push_str(&mut s, value);
    s
}

/// The lines of `qcker system info`.
pub fn info_lines(
    version: &str,
    data_dir: &str,
    os: &str,
    arch: &str,
    containers: u64,
    images: u64,
    volumes: u64,
) -> (r: Vec<String>)
    ensures
        views(r@) == info_text(
            version@,
            data_dir@,
            os@,
            arch@,
            containers as nat,
            images as nat,
            volumes as nat,
        ),
{
    let mut r: Vec<String> = Vec::new();
    push_owned(&mut r, "Qcker System Information");
    push_owned(&mut r, "========================");
    push_string(&mut r, labelled("Version:    ", version));
    push_string(&mut r, labelled("Data Dir:   ", data_dir));
    push_string(&mut r, labelled("OS:         ", os));
    push_string(&mut r, labelled("Arch:       ", arch));
    let c = u64_to_decimal(containers);
    push_string(&mut r, labelled("Containers: ", c.as_str()));
    let i = u64_to_decimal(images);
    push_string(&mut r, labelled("Images:     ", i.as_str()));
    let v = u64_to_decimal(volumes);
    push_string(&mut r, labelled("Volumes:    ", v.as_str()));
    assert(views(r@) =~= info_text(
        version@,
        data_dir@,
        os@,
        arch@,
        containers as nat,
        images as nat,
        volumes as nat,
    ));
    r
}

/// The options of `qcker exec`.
#[derive(Debug, Clone)]
pub struct ExecArgs {
    pub container_id: String,
    pub command: Vec<String>,
    pub terminal: bool,
    pub interactive: bool,
}

/// `qcker exec` needs a command.
pub fn exec_check(args: &ExecArgs) -> (r: Result<(), String>)
    ensures
        args.command@.len() > 0 ==> r is Ok,
        args.command@.len() == 0 ==> (r matches Err(m) && m@ == "No command specified"@),
{
    if args.command.len() == 0 {
        Err(owned("No command specified"))
    } else {
        Ok(())
    }
}

/// The options of `qcker delete`.
#[derive(Debug, Clone)]
pub struct DeleteArgs {
    pub container_id: String,
    pub force: bool,
}

/// Whether `qcker delete` kills the container first: when forced and it
/// is running.
pub fn delete_kills_first(args: &DeleteArgs, running: bool) -> (r: bool)
    ensures
        r == (args.force && running),
{
    args.force && running
}

/// The options of `qcker network`.
#[derive(Debug, Clone)]
pub struct NetworkArgs {
    pub command: NetworkCommand,
}

/// The subcommands of `qcker network`.
#[derive(Debug, Clone)]
pub enum NetworkCommand {
    Create(CreateNetworkArgs),
    Rm(RmNetworkArgs),
    Ls,
    Inspect(InspectNetworkArgs),
}

/// The options of `qcker network create`.
#[derive(Debug, Clone)]
pub struct CreateNetworkArgs {
    pub name: String,
    pub driver: String,
    pub subnet: Option<String>,
}

/// The options of `qcker network rm`.
#[derive(Debug, Clone)]
pub struct RmNetworkArgs {
    pub name: String,
}

/// The options of `qcker network inspect`.
#[derive(Debug, Clone)]
pub struct InspectNetworkArgs {
    pub name: String,
}

/// The kind of network `qcker network create` makes.
#[derive(Debug, Clone)]
pub enum NetworkDriver {
    /// A bridge over the given subnet.
    Bridge(String),
    /// The host's own network.
    Host,
    /// No network at all.
    Isolated,
}

/// The network `qcker network create` makes: a bridge (over
/// `172.20.0.0/16` unless a subnet is given), the host network, or none;
/// another driver name is refused.
pub fn network_driver(args: &CreateNetworkArgs) -> (r: Result<NetworkDriver, String>)
    ensures
        args.driver@ == "bridge"@ ==> (r matches Ok(NetworkDriver::Bridge(s)) && s@ == match args.subnet {
            Some(t) => t@,
            None => "172.20.0.0/16"@,
        }),
        args.driver@ == "host"@ ==> (r matches Ok(NetworkDriver::Host)),
        args.driver@ == "none"@ ==> (r matches Ok(NetworkDriver::Isolated)),
        args.driver@ != "bridge"@ && args.driver@ != "host"@ && args.driver@ != "none"@ ==> (r matches Err(
            m,
        ) && m@ == "Unknown driver: "@ + args.driver@),
{
    let cs = str_chars(args.driver.as_str());
    proof {
        reveal_strlit("bridge");
        reveal_strlit("host");
        reveal_strlit("none");
        assert("host"@.len() == 4);
        assert("bridge"@.len() == 6);
        assert("host"@ != "bridge"@);
        assert("none"@.len() == 4);
        assert("none"@ != "bridge"@);
        assert("none"@[0] != "host"@[0]);
    }
    if chars_eq_str(&cs, "bridge") {
        let subnet = match &args.subnet {
            Some(t) => t.clone(),
            None => owned("172.20.0.0/16"),
        };
        Ok(NetworkDriver::Bridge(subnet))
    } else if chars_eq_str(&cs, "host") {
        Ok(NetworkDriver::Host)
    } else if chars_eq_str(&cs, "none") {
        Ok(NetworkDriver::Isolated)
    } else {
        let mut m = owned("Unknown driver: ");
        push_str(&mut m, args.driver.as_str());
        Err(m)
    }
}

/// The options of `qcker logs`.
#[derive(Debug, Clone)]
pub struct LogsArgs {
    pub container_id: String,
    pub follow: bool,
    pub tail: Option<usize>,
    pub since: Option<String>,
    pub timestamps: bool,
}

/// The lines `qcker logs` shows of a log: all of them, or the last `tail`.
pub fn shown_log_lines(content: &str, tail: Option<usize>) -> (r: Vec<String>)
    ensures
        views(r@) == tail_of(text_lines(content@), tail),
{
    let cs = str_chars(content);
    let lines = split_lines(&cs);
    let start: usize = match tail {
        Some(t) => if lines.len() > t {
            lines.len() - t
        } else {
            0
        },
        None => 0,
    };
    let ghost all = lines.deep_view();
    let mut r: Vec<String> = Vec::new();
    let mut i: usize = start;
    while i < lines.len()
        invariant
            start <= i <= lines.len(),
            all == lines.deep_view(),
            views(r@) == all.subrange(start as int, i as int),
        decreases lines.len() - i,
    {
        proof { assert(lines@[i as int].deep_view() =~= lines@[i as int]@); }
        push_string(&mut r, string_of(&lines[i]));
        i += 1;
        assert(views(r@) =~= all.subrange(start as int, i as int));
    }
    assert(all.subrange(start as int, lines.len() as int) =~= tail_of(all, tail));
    r
}

/// A log line after the time it is shown at, in brackets.
pub fn stamped_line(stamp: &str, line: &str) -> (r: String)
    ensures
        r@ == "["@ + stamp@ + "] "@ + line@,
{
    let mut s = owned("[");
    push_str(&mut s, stamp);
    push_str(&mut s, "] ");
    push_str(&mut s, line);
    s
}

} // verus!
