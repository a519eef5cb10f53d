//! Benchmark bookkeeping: the results of a suite, their average, shortest
//! and longest durations, and the number that succeeded.
//!
//! Durations are held as `std::time::Duration` holds them (whole seconds and
//! the nanoseconds beyond), so that the arithmetic on them can be checked;
//! the float-valued figures (memory, CPU, rates) stay with the caller.

use vstd::prelude::*;
use crate::text::{str_chars, chars_eq_str};

verus! {

broadcast use vstd::string::group_string_axioms;

/// A span of time: `secs` whole seconds and `nanos` nanoseconds.
#[derive(Clone, Copy, Debug, PartialEq, Eq, Structural)]
pub struct Elapsed {
    pub secs: u64,
    pub nanos: u32,
}

impl Elapsed {
    /// What `Duration` keeps of every value: fewer nanoseconds than a second.
    pub open spec fn valid(self) -> bool {
        self.nanos < 1_000_000_000
    }

    /// The whole milliseconds of the span, as `Duration::as_millis` counts them.
    pub open spec fn millis(self) -> nat {
        (self.secs * 1000 + self.nanos / 1_000_000) as nat
    }

    /// `Duration`'s order: by seconds, then by nanoseconds.
    pub open spec fn le(self, other: Elapsed) -> bool {
        self.secs < other.secs || (self.secs == other.secs && self.nanos <= other.nanos)
    }

    /// The span of `ms` milliseconds, as `Duration::from_millis` makes it.
    pub open spec fn of_millis(ms: nat) -> Elapsed {
        Elapsed { secs: (ms / 1000) as u64, nanos: ((ms % 1000) * 1_000_000) as u32 }
    }

    /// A span of `secs` seconds and `nanos` nanoseconds, the nanoseconds
    /// beyond a second carried into the seconds, as `Duration::new` does.
    pub fn new(secs: u64, nanos: u32) -> (r: Elapsed)
        requires
            secs + nanos / 1_000_000_000 <= u64::MAX,
        ensures
            r.valid(),
            r.secs == secs + nanos / 1_000_000_000,
            r.nanos == nanos % 1_000_000_000,
    {
        let carry: u64 = (nanos / 1_000_000_000) as u64;
        Elapsed { secs: secs + carry, nanos: nanos % 1_000_000_000 }
    }

    /// The span of `ms` milliseconds.
    pub fn from_millis(ms: u64) -> (r: Elapsed)
        ensures
            r == Elapsed::of_millis(ms as nat),
            r.valid(),
            r.millis() == ms,
    {
        let r = Elapsed { secs: ms / 1000, nanos: ((ms % 1000) * 1_000_000) as u32 };
        assert(r.nanos / 1_000_000 == ms % 1000) by (nonlinear_arith)
            requires
                r.nanos == (ms % 1000) * 1_000_000,
        ;
        r
    }

    /// The whole milliseconds of the span.
    pub fn as_millis(&self) -> (r: u128)
        ensures
            r == self.millis(),
    {
        (self.secs as u128) * 1000 + ((self.nanos / 1_000_000) as u128)
    }

    /// Whether `self` comes no later than `other` in `Duration`'s order.
    pub fn no_longer_than(&self, other: &Elapsed) -> (r: bool)
        ensures
            r == self.le(*other),
    {
        self.secs < other.secs || (self.secs == other.secs && self.nanos <= other.nanos)
    }
}

/// One measured run: its name, how long it took and its status
/// (`"success"`, `"failed"` or another word).
pub struct BenchmarkResult {
    pub name: String,
    pub duration: Elapsed,
    pub status: String,
}

/// A named series of measured runs, in the order they were added.
pub struct BenchmarkSuite {
    pub name: String,
    pub results: Vec<BenchmarkResult>,
}

/// The durations of the runs, in order.
pub open spec fn durations(rs: Seq<BenchmarkResult>) -> Seq<Elapsed> {
    rs.map_values(|r: BenchmarkResult| r.duration)
}

/// The number of runs whose status reads `success`.
pub open spec fn successes(rs: Seq<BenchmarkResult>) -> nat
    decreases rs.len(),
{
    if rs.len() == 0 {
        0
    } else {
        successes(rs.drop_last()) + (if rs.last().status@ == "success"@ { 1nat } else { 0nat })
    }
}

/// The milliseconds of a run as the average counts them: cut to 64 bits.
pub open spec fn counted_millis(d: Elapsed) -> nat {
    d.millis() % 0x1_0000_0000_0000_0000
}

/// The sum of the counted milliseconds of the runs.
pub open spec fn millis_sum(ds: Seq<Elapsed>) -> nat
    decreases ds.len(),
{
    if ds.len() == 0 {
        0
    } else {
        millis_sum(ds.drop_last()) + counted_millis(ds.last())
    }
}

/// The average duration of the runs, in whole milliseconds; zero when there
/// are none.
pub open spec fn average_millis(ds: Seq<Elapsed>) -> nat {
    if ds.len() == 0 {
        0
    } else {
        millis_sum(ds) / ds.len()
    }
}

/// `d` is one of `ds` and none comes before it.
pub open spec fn is_shortest(d: Elapsed, ds: Seq<Elapsed>) -> bool {
    &&& exists|i: int| 0 <= i < ds.len() && ds[i] == d
    &&& forall|j: int| 0 <= j < ds.len() ==> d.le(#[trigger] ds[j])
}

/// `d` is one of `ds` and none comes after it.
pub open spec fn is_longest(d: Elapsed, ds: Seq<Elapsed>) -> bool {
    &&& exists|i: int| 0 <= i < ds.len() && ds[i] == d
    &&& forall|j: int| 0 <= j < ds.len() ==> (#[trigger] ds[j]).le(d)
}

/// A prefix of the runs never counts more milliseconds than all of them.
pub proof fn lemma_millis_sum_prefix(ds: Seq<Elapsed>, k: int)
    requires
        0 <= k <= ds.len(),
    ensures
        millis_sum(ds.take(k)) <= millis_sum(ds),
    decreases ds.len() - k,
{
    if k < ds.len() {
        lemma_millis_sum_prefix(ds, k + 1);
        assert(ds.take(k + 1).drop_last() =~= ds.take(k));
    } else {
        assert(ds.take(k) =~= ds);
    }
}

/// Between two valid spans, `Duration`'s order never reverses the order of
/// their whole milliseconds.
pub proof fn lemma_le_millis(a: Elapsed, b: Elapsed)
    requires
        a.valid(),
        b.valid(),
        a.le(b),
    ensures
        a.millis() <= b.millis(),
{
    if a.secs < b.secs {
        assert(a.nanos / 1_000_000 <= 999);
        assert(a.secs * 1000 + 1000 <= b.secs * 1000) by (nonlinear_arith)
            requires
                a.secs < b.secs,
        ;
    } else {
        assert(a.nanos / 1_000_000 <= b.nanos / 1_000_000) by (nonlinear_arith)
            requires
                a.nanos <= b.nanos,
        ;
    }
}

/// With every span between `lo` and `hi` in milliseconds and none cut by
/// the 64-bit count, the first `k` counted milliseconds sum to between `k`
/// times `lo`'s and `k` times `hi`'s.
pub proof fn lemma_millis_sum_bounds(ds: Seq<Elapsed>, lo: nat, hi: nat, k: int)
    requires
        0 <= k <= ds.len(),
        forall|j: int|
            0 <= j < ds.len() ==> lo <= (#[trigger] ds[j]).millis() <= hi && ds[j].millis()
                < 0x1_0000_0000_0000_0000,
    ensures
        k * lo <= millis_sum(ds.take(k)) <= k * hi,
    decreases k,
{
    if k > 0 {
        lemma_millis_sum_bounds(ds, lo, hi, k - 1);
        let t = ds.take(k);
        assert(t.drop_last() =~= ds.take(k - 1));
        assert(t.last() == ds[k - 1]);
        assert(counted_millis(ds[k - 1]) == ds[k - 1].millis());
        assert(k * lo == (k - 1) * lo + lo) by (nonlinear_arith);
        assert(k * hi == (k - 1) * hi + hi) by (nonlinear_arith);
    } else {
        assert(ds.take(0) =~= Seq::<Elapsed>::empty());
    }
}

/// The average of a suite's durations lies between its shortest and its
/// longest, counted in whole milliseconds, for valid spans whose
/// milliseconds fit in 64 bits.
pub proof fn law_average_between_extremes(ds: Seq<Elapsed>, lo: Elapsed, hi: Elapsed)
    requires
        is_shortest(lo, ds),
        is_longest(hi, ds),
        forall|j: int|
            0 <= j < ds.len() ==> (#[trigger] ds[j]).valid() && ds[j].millis()
                < 0x1_0000_0000_0000_0000,
    ensures
        lo.millis() <= average_millis(ds) <= hi.millis(),
{
    let n = ds.len() as int;
    assert forall|j: int| 0 <= j < ds.len() implies lo.millis() <= (#[trigger] ds[j]).millis()
        <= hi.millis() && ds[j].millis() < 0x1_0000_0000_0000_0000 by {
        let i = choose|i: int| 0 <= i < ds.len() && ds[i] == lo;
        let h = choose|i: int| 0 <= i < ds.len() && ds[i] == hi;
        assert(lo.valid() && hi.valid()) by {
            assert(ds[i] == lo);
            assert(ds[h] == hi);
        }
        lemma_le_millis(lo, ds[j]);
        lemma_le_millis(ds[j], hi);
    }
    lemma_millis_sum_bounds(ds, lo.millis(), hi.millis(), n);
    assert(ds.take(n) =~= ds);
    let s = millis_sum(ds) as int;
    let a = lo.millis() as int;
    let b = hi.millis() as int;
    assert(a <= s / n <= b) by (nonlinear_arith)
        requires
            n > 0,
            n * a <= s <= n * b,
            a >= 0,
    ;
}

impl BenchmarkSuite {
    /// An empty suite called `name`.
    pub fn new(name: &str) -> (r: BenchmarkSuite)
        ensures
            r.name@ == name@,
            r.results@.len() == 0,
    {
        BenchmarkSuite { name: name.to_string(), results: Vec::new() }
    }

    /// Adds a run at the end.
    pub fn add_result(&mut self, result: BenchmarkResult)
        ensures
            final(self).name == old(self).name,
            final(self).results@ == old(self).results@.push(result),
    {
        self.results.push(result);
    }

    /// The shortest duration among the runs; `None` when there are none.
    pub fn min_duration(&self) -> (r: Option<Elapsed>)
        ensures
            r is None <==> self.results@.len() == 0,
            r matches Some(d) ==> is_shortest(d, durations(self.results@)),
    {
        let ghost ds = durations(self.results@);
        let mut best: Option<Elapsed> = None;
        let mut i: usize = 0;
        while i < self.results.len()
            invariant
                i <= self.results@.len(),
                ds == durations(self.results@),
                best is None <==> i == 0,
                best matches Some(d) ==> {
                    &&& exists|k: int| 0 <= k < i && ds[k] == d
                    &&& forall|j: int| 0 <= j < i ==> d.le(#[trigger] ds[j])
                },
            decreases self.results@.len() - i,
        {
            let d = self.results[i].duration;
            assert(ds[i as int] == d);
            match best {
                None => {
                    best = Some(d);
                },
                Some(b) => {
                    if !b.no_longer_than(&d) {
                        best = Some(d);
                    }
                },
            }
            i += 1;
        }
        best
    }

    /// The longest duration among the runs; `None` when there are none.
    pub fn max_duration(&self) -> (r: Option<Elapsed>)
        ensures
            r is None <==> self.results@.len() == 0,
            r matches Some(d) ==> is_longest(d, durations(self.results@)),
    {
        let ghost ds = durations(self.results@);
        let mut best: Option<Elapsed> = None;
        let mut i: usize = 0;
        while i < self.results.len()
            invariant
                i <= self.results@.len(),
                ds == durations(self.results@),
                best is None <==> i == 0,
                best matches Some(d) ==> {
                    &&& exists|k: int| 0 <= k < i && ds[k] == d
                    &&& forall|j: int| 0 <= j < i ==> (#[trigger] ds[j]).le(d)
                },
            decreases self.results@.len() - i,
        {
            let d = self.results[i].duration;
            assert(ds[i as int] == d);
            match best {
                None => {
                    best = Some(d);
                },
                Some(b) => {
                    if !d.no_longer_than(&b) {
                        best = Some(d);
                    }
                },
            }
            i += 1;
        }
        best
    }

    /// The average duration of the runs, from their whole milliseconds each
    /// cut to 64 bits; zero when there are none.
    pub fn avg_duration(&self) -> (r: Elapsed)
        requires
            millis_sum(durations(self.results@)) <= u64::MAX,
        ensures
            r == Elapsed::of_millis(average_millis(durations(self.results@))),
    {
        let ghost ds = durations(self.results@);
        if self.results.len() == 0 {
            return Elapsed::from_millis(0);
        }
        let mut total: u64 = 0;
        let mut i: usize = 0;
        while i < self.results.len()
            invariant
                i <= self.results@.len(),
                ds == durations(self.results@),
                millis_sum(ds) <= u64::MAX,
                total == millis_sum(ds.take(i as int)),
            decreases self.results@.len() - i,
        {
            let m: u128 = self.results[i].duration.as_millis();
            let c: u64 = m as u64;
            assert(c == m % 0x1_0000_0000_0000_0000) by (bit_vector)
                requires
                    c == m as u64,
            ;
            proof {
                assert(ds.take(i + 1).drop_last() =~= ds.take(i as int));
                lemma_millis_sum_prefix(ds, i + 1);
            }
            total = total + c;
            i += 1;
        }
        assert(ds.take(i as int) =~= ds);
        Elapsed::from_millis(total / (self.results.len() as u64))
    }

    /// The number of runs whose status is `success`.
    pub fn success_count(&self) -> (r: usize)
        ensures
            r == successes(self.results@),
    {
        let mut n: usize = 0;
        let mut i: usize = 0;
        while i < self.results.len()
            invariant
                i <= self.results@.len(),
                n == successes(self.results@.take(i as int)),
                n <= i,
            decreases self.results@.len() - i,
        {
            assert(self.results@.take(i + 1).drop_last() =~= self.results@.take(i as int));
            let ok = chars_eq_str(&str_chars(self.results[i].status.as_str()), "success");
            if ok {
                n += 1;
            }
            i += 1;
        }
        assert(self.results@.take(i as int) =~= self.results@);
        n
    }
}

/// The mark a results table shows for a run's status.
pub open spec fn status_mark(status: Seq<char>) -> Seq<char> {
    if status == "success"@ {
        "OK"@
    } else if status == "failed"@ {
        "FAIL"@
    } else {
        "WARN"@
    }
}

/// The mark for a run's status: `OK` for `success`, `FAIL` for `failed`,
/// `WARN` for anything else.
pub fn status_label(status: &str) -> (r: &'static str)
    ensures
        r@ == status_mark(status@),
{
    let cs = str_chars(status);
    if chars_eq_str(&cs, "success") {
        "OK"
    } else if chars_eq_str(&cs, "failed") {
        "FAIL"
    } else {
        "WARN"
    }
}

/// The options of `qcker bench`.
pub struct BenchmarkArgs {
    pub command: BenchmarkCommand,
}

/// The subcommands of `qcker bench`.
pub enum BenchmarkCommand {
    Run { iterations: Option<usize>, format: Option<String>, output_dir: Option<String> },
    Compare { first: String, second: String },
    Stats,
}

/// How `qcker bench run` goes: how many runs, which output format, and
/// where charts would be written.
pub struct RunSettings {
    pub iterations: usize,
    pub format: String,
    pub output_dir: String,
}

/// The settings of `qcker bench run`: ten runs unless told otherwise, the
/// global output format unless one is given, and `/tmp/qcker-benchmark` as
/// the output directory unless one is given.
pub fn run_settings(
    iterations: Option<usize>,
    format: Option<String>,
    output_dir: Option<String>,
    global_format: &str,
) -> (r: RunSettings)
    ensures
        r.iterations == (match iterations {
            Some(n) => n,
            None => 10,
        }),
        r.format@ == (match format {
            Some(f) => f@,
            None => global_format@,
        }),
        r.output_dir@ == (match output_dir {
            Some(d) => d@,
            None => "/tmp/qcker-benchmark"@,
        }),
{
    let n = match iterations {
        Some(n) => n,
        None => 10,
    };
    let f = match format {
        Some(f) => f,
        None => global_format.to_string(),
    };
    let d = match output_dir {
        Some(d) => d,
        None => "/tmp/qcker-benchmark".to_string(),
    };
    RunSettings { iterations: n, format: f, output_dir: d }
}

} // verus!
