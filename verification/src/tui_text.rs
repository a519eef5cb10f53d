//! Texts the dashboard draws: shortened cells, uptimes, and the tone a
//! container's status is shown in.

use vstd::prelude::*;
use crate::text::{decimal, owned, push_char, push_str, str_chars};

verus! {

broadcast use vstd::string::group_string_axioms;

/// A cell of at most `max` characters: the text itself when it fits, else
/// its first `max - 3` characters (none when `max < 3`) and `...`.
pub open spec fn shortened(s: Seq<char>, max: nat) -> Seq<char> {
    if s.len() <= max {
        s
    } else {
        s.take(if max >= 3 { max - 3 } else { 0 }) + "..."@
    }
}

/// The text shortened to `max_len` characters.
pub fn truncate(s: &str, max_len: usize) -> (r: String)
    ensures
        r@ == shortened(s@, max_len as nat),
{
    let cs = str_chars(s);
    if cs.len() <= max_len {
        return owned(s);
    }
    let keep: usize = if max_len >= 3 {
        max_len - 3
    } else {
        0
    };
    let mut r = String::new();
    let mut i: usize = 0;
    while i < keep
        invariant
            i <= keep < cs.len(),
            r@ == cs@.take(i as int),
        decreases keep - i,
    {
        push_char(&mut r, cs[i]);
        i += 1;
        assert(r@ =~= cs@.take(i as int));
    }
    push_str(&mut r, "...");
    r
}

/// How long a machine has been up, in days, hours and minutes: `XdYhZm`
/// from a day on, `YhZm` from an hour on, else `Zm`.
pub open spec fn uptime_text(secs: nat) -> Seq<char> {
    let d = secs / 86400;
    let h = (secs % 86400) / 3600;
    let m = (secs % 3600) / 60;
    if d > 0 {
        decimal(d) + "d"@ + decimal(h) + "h"@ + decimal(m) + "m"@
    } else if h > 0 {
        decimal(h) + "h"@ + decimal(m) + "m"@
    } else {
        decimal(m) + "m"@
    }
}

/// The tones a container's status is drawn in.
#[derive(Debug, Clone, Copy, PartialEq, Eq, Structural)]
pub enum StatusTone {
    Running,
    Stopped,
    Created,
    Paused,
    Other,
}

/// The tone of a status: `Stopped` and `Dead` share one.
pub open spec fn tone_of(status: Seq<char>) -> StatusTone {
    if status == "Running"@ {
        StatusTone::Running
    } else if status == "Stopped"@ || status == "Dead"@ {
        StatusTone::Stopped
    } else if status == "Created"@ {
        StatusTone::Created
    } else if status == "Paused"@ {
        StatusTone::Paused
    } else {
        StatusTone::Other
    }
}

/// The tone a status is drawn in.
pub fn status_tone(status: &str) -> (r: StatusTone)
    ensures
        r == tone_of(status@),
{
    let cs = str_chars(status);
    proof {
        reveal_strlit("Running");
        reveal_strlit("Stopped");
        reveal_strlit("Dead");
        reveal_strlit("Created");
        reveal_strlit("Paused");
        assert("Running"@.len() == 7);
        assert("Stopped"@.len() == 7);
        assert("Dead"@.len() == 4);
        assert("Created"@.len() == 7);
        assert("Paused"@.len() == 6);
        assert("Running"@[0] != "Stopped"@[0]);
        assert("Running"@[0] != "Created"@[0]);
        assert("Stopped"@[0] != "Created"@[0]);
    }
    if crate::text::chars_eq_str(&cs, "Running") {
        StatusTone::Running
    } else if crate::text::chars_eq_str(&cs, "Stopped") || crate::text::chars_eq_str(&cs, "Dead") {
        StatusTone::Stopped
    } else if crate::text::chars_eq_str(&cs, "Created") {
        StatusTone::Created
    } else if crate::text::chars_eq_str(&cs, "Paused") {
        StatusTone::Paused
    } else {
        StatusTone::Other
    }
}

/// A shortened cell is never longer than the limit, once the limit leaves
/// room for the three dots; a text that fits is left as it is.
pub proof fn law_shortened_fits(s: Seq<char>, max: nat)
    ensures
        max >= 3 ==> shortened(s, max).len() <= max,
        s.len() <= max ==> shortened(s, max) == s,
        s.len() > max ==> shortened(s, max).len() == (if max >= 3 { max } else { 3 }),
{
    reveal_strlit("...");
}

} // verus!
