//! The host's counters as the kernel reports them in `/proc/stat` and
//! `/proc/meminfo`, read into numbers.

use vstd::prelude::*;
use crate::native::{parse_or_zero, parse_u64_or_zero};
use crate::text::{str_chars, split_lines, split_ws, starts_with, parse_unsigned_chars};
use crate::text::{ws_pieces, text_lines, is_prefix, parse_unsigned};

verus! {

broadcast use vstd::string::group_string_axioms;

/// The user, nice, system and idle counters of the first line of a
/// `/proc/stat` text that starts with `cpu `, unparsable ones read as 0;
/// absent when there is no such line or it has fewer than five fields.
pub open spec fn cpu_counters_of_lines(lines: Seq<Seq<char>>) -> Option<(nat, nat, nat, nat)>
    decreases lines.len(),
{
    if lines.len() == 0 {
        None
    } else if is_prefix("cpu "@, lines[0]) {
        let p = ws_pieces(lines[0]);
        if p.len() >= 5 {
            Some((parse_or_zero(p[1]), parse_or_zero(p[2]), parse_or_zero(p[3]), parse_or_zero(p[4])))
        } else {
            None
        }
    } else {
        cpu_counters_of_lines(lines.drop_first())
    }
}

/// The aggregate CPU counters of a `/proc/stat` text.
pub fn cpu_counters(stat: &str) -> (r: Option<(u64, u64, u64, u64)>)
    ensures
        r matches Some((u, n, s, i)) ==> cpu_counters_of_lines(text_lines(stat@)) == Some(
            (u as nat, n as nat, s as nat, i as nat),
        ),
        r is None ==> cpu_counters_of_lines(text_lines(stat@)) is None,
{
    let lines = split_lines(&str_chars(stat));
    assert(lines.deep_view().skip(0) =~= lines.deep_view());
    let mut k: usize = 0;
    while k < lines.len()
        invariant
            k <= lines.len(),
            cpu_counters_of_lines(lines.deep_view().skip(k as int)) == cpu_counters_of_lines(
                lines.deep_view(),
            ),
            lines.deep_view() == text_lines(stat@),
        decreases lines.len() - k,
    {
        let ghost rest = lines.deep_view().skip(k as int);
        proof {
            assert(lines@[k as int].deep_view() =~= lines@[k as int]@);
            assert(rest[0] == lines@[k as int]@);
            assert(rest.drop_first() =~= lines.deep_view().skip(k + 1));
        }
        if starts_with(&lines[k], "cpu ") {
            let parts = split_ws(&lines[k]);
            if parts.len() >= 5 {
                proof {
                    assert(parts@[1].deep_view() =~= parts@[1]@);
                    assert(parts@[2].deep_view() =~= parts@[2]@);
                    assert(parts@[3].deep_view() =~= parts@[3]@);
                    assert(parts@[4].deep_view() =~= parts@[4]@);
                }
                let user = parse_u64_or_zero(&parts[1]);
                let nice = parse_u64_or_zero(&parts[2]);
                let system = parse_u64_or_zero(&parts[3]);
                let idle = parse_u64_or_zero(&parts[4]);
                return Some((user, nice, system, idle));
            }
            return None;
        }
        k += 1;
    }
    assert(lines.deep_view().skip(k as int) =~= Seq::<Seq<char>>::empty());
    None
}

/// Which memory figure a `/proc/meminfo` line gives.
#[derive(Clone, Copy, Debug, PartialEq, Eq, Structural)]
pub enum MemField {
    Total,
    Available,
}

/// The second field of a line read as a number (0 when unparsable); absent
/// when the line has fewer than two fields.
pub open spec fn kib_field(line: Seq<char>) -> Option<nat> {
    let p = ws_pieces(line);
    if p.len() >= 2 {
        Some(parse_or_zero(p[1]))
    } else {
        None
    }
}

/// The first `MemTotal:` or `MemAvailable:` line of a `/proc/meminfo`
/// text: which of the two it is, and its value in KiB if it has one.
/// Reading stops at that line.
pub open spec fn memory_reading_of_lines(lines: Seq<Seq<char>>) -> Option<(MemField, Option<nat>)>
    decreases lines.len(),
{
    if lines.len() == 0 {
        None
    } else if is_prefix("MemTotal:"@, lines[0]) {
        Some((MemField::Total, kib_field(lines[0])))
    } else if is_prefix("MemAvailable:"@, lines[0]) {
        Some((MemField::Available, kib_field(lines[0])))
    } else {
        memory_reading_of_lines(lines.drop_first())
    }
}

/// An optional machine number as an optional natural number.
pub open spec fn widened(v: Option<u64>) -> Option<nat> {
    match v {
        Some(x) => Some(x as nat),
        None => None,
    }
}

/// The second field of a line read as a number.
fn kib_of(line: &Vec<char>) -> (r: Option<u64>)
    ensures
        r matches Some(v) ==> kib_field(line@) == Some(v as nat),
        r is None ==> kib_field(line@) is None,
{
    let parts = split_ws(line);
    if parts.len() >= 2 {
        proof {
            assert(parts@[1].deep_view() =~= parts@[1]@);
        }
        Some(parse_u64_or_zero(&parts[1]))
    } else {
        None
    }
}

/// The memory figure that a `/proc/meminfo` text gives first.
pub fn memory_reading(meminfo: &str) -> (r: Option<(MemField, Option<u64>)>)
    ensures
        r matches Some((f, v)) ==> memory_reading_of_lines(text_lines(meminfo@)) == Some(
            (f, widened(v)),
        ),
        r is None ==> memory_reading_of_lines(text_lines(meminfo@)) is None,
{
    let lines = split_lines(&str_chars(meminfo));
    assert(lines.deep_view().skip(0) =~= lines.deep_view());
    let mut k: usize = 0;
    while k < lines.len()
        invariant
            k <= lines.len(),
            memory_reading_of_lines(lines.deep_view().skip(k as int)) == memory_reading_of_lines(
                lines.deep_view(),
            ),
            lines.deep_view() == text_lines(meminfo@),
        decreases lines.len() - k,
    {
        let ghost rest = lines.deep_view().skip(k as int);
        proof {
            assert(lines@[k as int].deep_view() =~= lines@[k as int]@);
            assert(rest[0] == lines@[k as int]@);
            assert(rest.drop_first() =~= lines.deep_view().skip(k + 1));
        }
        if starts_with(&lines[k], "MemTotal:") {
            let v = kib_of(&lines[k]);
            return Some((MemField::Total, v));
        } else if starts_with(&lines[k], "MemAvailable:") {
            let v = kib_of(&lines[k]);
            return Some((MemField::Available, v));
        }
        k += 1;
    }
    assert(lines.deep_view().skip(k as int) =~= Seq::<Seq<char>>::empty());
    None
}

/// The `MemTotal:` and `MemAvailable:` values in KiB of the lines, starting
/// from `total` and `avail`: every such line with a second field sets its
/// value (0 when unparsable), so the last one of each kind decides.
pub open spec fn mem_totals_from(lines: Seq<Seq<char>>, total: nat, avail: nat) -> (nat, nat)
    decreases lines.len(),
{
    if lines.len() == 0 {
        (total, avail)
    } else {
        let l = lines[0];
        if is_prefix("MemTotal:"@, l) && kib_field(l) is Some {
            mem_totals_from(lines.drop_first(), kib_field(l)->0, avail)
        } else if !is_prefix("MemTotal:"@, l) && is_prefix("MemAvailable:"@, l) && kib_field(l) is Some {
            mem_totals_from(lines.drop_first(), total, kib_field(l)->0)
        } else {
            mem_totals_from(lines.drop_first(), total, avail)
        }
    }
}

/// The total and the available memory of a `/proc/meminfo` text, in KiB,
/// each 0 when no line gives it.
pub open spec fn mem_totals(meminfo: Seq<char>) -> (nat, nat) {
    mem_totals_from(text_lines(meminfo), 0, 0)
}

/// The total and the available memory a `/proc/meminfo` text reports.
pub fn memory_totals(meminfo: &str) -> (r: (u64, u64))
    ensures
        (r.0 as nat, r.1 as nat) == mem_totals(meminfo@),
{
    let lines = split_lines(&str_chars(meminfo));
    assert(lines.deep_view().skip(0) =~= lines.deep_view());
    let mut total: u64 = 0;
    let mut avail: u64 = 0;
    let mut k: usize = 0;
    while k < lines.len()
        invariant
            k <= lines.len(),
            mem_totals_from(lines.deep_view().skip(k as int), total as nat, avail as nat)
                == mem_totals(meminfo@),
            lines.deep_view() == text_lines(meminfo@),
        decreases lines.len() - k,
    {
        let ghost rest = lines.deep_view().skip(k as int);
        proof {
            assert(lines@[k as int].deep_view() =~= lines@[k as int]@);
            assert(rest[0] == lines@[k as int]@);
            assert(rest.drop_first() =~= lines.deep_view().skip(k + 1));
        }
        if starts_with(&lines[k], "MemTotal:") {
            match kib_of(&lines[k]) {
                Some(v) => {
                    total = v;
                },
                None => {},
            }
        } else if starts_with(&lines[k], "MemAvailable:") {
            match kib_of(&lines[k]) {
                Some(v) => {
                    avail = v;
                },
                None => {},
            }
        }
        k += 1;
    }
    assert(lines.deep_view().skip(k as int) =~= Seq::<Seq<char>>::empty());
    (total, avail)
}

/// The thread count in a `/proc/<pid>/stat` text: its twentieth field,
/// when there are more than 19 fields and it reads as a number that fits.
pub open spec fn stat_threads(stat: Seq<char>) -> Option<nat> {
    let f = ws_pieces(stat);
    if f.len() > 19 {
        parse_unsigned(f[19], usize::MAX as nat)
    } else {
        None
    }
}

/// The number of threads a `/proc/<pid>/stat` text reports.
pub fn thread_count(stat: &str) -> (r: Option<usize>)
    ensures
        r matches Some(v) ==> stat_threads(stat@) == Some(v as nat),
        r is None ==> stat_threads(stat@) is None,
{
    let fields = split_ws(&str_chars(stat));
    if fields.len() > 19 {
        proof {
            assert(fields@[19].deep_view() =~= fields@[19]@);
        }
        match parse_unsigned_chars(&fields[19], usize::MAX as u64) {
            Some(v) => Some(v as usize),
            None => None,
        }
    } else {
        None
    }
}

/// The resident set size in KiB that the lines give, starting from `cur`:
/// every `VmRSS:` line whose second field reads as a number sets it, so the
/// last such line decides.
pub open spec fn resident_from(lines: Seq<Seq<char>>, cur: Option<nat>) -> Option<nat>
    decreases lines.len(),
{
    if lines.len() == 0 {
        cur
    } else {
        let l = lines[0];
        let p = ws_pieces(l);
        if is_prefix("VmRSS:"@, l) && p.len() >= 2 && parse_unsigned(p[1], u64::MAX as nat) is Some {
            resident_from(lines.drop_first(), parse_unsigned(p[1], u64::MAX as nat))
        } else {
            resident_from(lines.drop_first(), cur)
        }
    }
}

/// The resident set size in KiB that a `/proc/<pid>/status` text reports,
/// if a `VmRSS:` line gives one.
pub fn resident_kib(status: &str) -> (r: Option<u64>)
    ensures
        widened(r) == resident_from(text_lines(status@), None),
{
    let lines = split_lines(&str_chars(status));
    assert(lines.deep_view().skip(0) =~= lines.deep_view());
    let mut cur: Option<u64> = None;
    let mut k: usize = 0;
    while k < lines.len()
        invariant
            k <= lines.len(),
            resident_from(lines.deep_view().skip(k as int), widened(cur)) == resident_from(
                text_lines(status@),
                None,
            ),
            lines.deep_view() == text_lines(status@),
        decreases lines.len() - k,
    {
        let ghost rest = lines.deep_view().skip(k as int);
        proof {
            assert(lines@[k as int].deep_view() =~= lines@[k as int]@);
            assert(rest[0] == lines@[k as int]@);
            assert(rest.drop_first() =~= lines.deep_view().skip(k + 1));
        }
        if starts_with(&lines[k], "VmRSS:") {
            let parts = split_ws(&lines[k]);
            if parts.len() >= 2 {
                proof {
                    assert(parts@[1].deep_view() =~= parts@[1]@);
                }
                match parse_unsigned_chars(&parts[1], u64::MAX) {
                    Some(v) => {
                        cur = Some(v);
                    },
                    None => {},
                }
            }
        }
        k += 1;
    }
    assert(lines.deep_view().skip(k as int) =~= Seq::<Seq<char>>::empty());
    cur
}

} // verus!
