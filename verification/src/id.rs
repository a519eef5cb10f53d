//! Identifiers of containers, images, networks and volumes: digests of
//! content or of random bytes, their short form, and the choice of an
//! identifier that is not yet taken.

use vstd::prelude::*;
use vstd::utf8::{encode_utf8, is_char_boundary};
use vstd::string::StringSliceAdditionalSpecFns;
use crate::digest::{sha256, sha256_digest, hex_lower, hex_encode, lemma_hex_lower_len};
use crate::digest::lemma_hex_lower_prefix;
use std::collections::HashSet;

verus! {

/// How many drawn identifiers may collide before one is used regardless.
pub const MAX_ID_ATTEMPTS: u32 = 32;

/// `a` followed by the UTF-8 bytes of `tag`.
fn tagged(a: &[u8], tag: &str) -> (r: Vec<u8>)
    ensures
        r@ == a@ + encode_utf8(tag@),
{
    let t = tag.as_bytes();
    let mut r: Vec<u8> = Vec::new();
    let mut i: usize = 0;
    while i < a.len()
        invariant
            i <= a.len(),
            r@ == a@.take(i as int),
        decreases a.len() - i,
    {
        r.push(a[i]);
        i += 1;
        assert(r@ =~= a@.take(i as int));
    }
    let mut j: usize = 0;
    while j < t.len()
        invariant
            j <= t.len(),
            t@ == encode_utf8(tag@),
            r@ == a@ + t@.take(j as int),
        decreases t.len() - j,
    {
        r.push(t[j]);
        j += 1;
        assert(r@ =~= a@ + t@.take(j as int));
    }
    assert(a@.take(a.len() as int) =~= a@);
    assert(t@.take(t.len() as int) =~= t@);
    r
}

/// The identifier of a container whose random salt is `entropy`.
pub open spec fn container_id_spec(entropy: Seq<u8>) -> Seq<char> {
    hex_lower(sha256(entropy + encode_utf8("qcker-container"@)))
}

/// The identifier of a network whose random salt is `entropy`.
pub open spec fn network_id_spec(entropy: Seq<u8>) -> Seq<char> {
    hex_lower(sha256(entropy + encode_utf8("qcker-network"@)).take(16))
}

/// The identifier of a volume whose random salt is `entropy`.
pub open spec fn volume_id_spec(entropy: Seq<u8>) -> Seq<char> {
    hex_lower(sha256(entropy + encode_utf8("qcker-volume"@)).take(16))
}

/// A container identifier from random bytes: the 64-digit hex SHA-256 of
/// the bytes followed by `qcker-container`.
pub fn container_id_from_entropy(entropy: &[u8]) -> (r: String)
    ensures
        r@ == container_id_spec(entropy@),
        r@.len() == 64,
{
    let data = tagged(entropy, "qcker-container");
    let d = sha256_digest(data.as_slice());
    proof { lemma_hex_lower_len(d@); }
    hex_encode(d.as_slice())
}

/// The first `n <= bytes.len()` bytes of `bytes`.
fn prefix_bytes(bytes: &Vec<u8>, n: usize) -> (r: Vec<u8>)
    requires
        n <= bytes@.len(),
    ensures
        r@ == bytes@.take(n as int),
{
    let mut r: Vec<u8> = Vec::new();
    let mut i: usize = 0;
    while i < n
        invariant
            i <= n <= bytes@.len(),
            r@ == bytes@.take(i as int),
        decreases n - i,
    {
        r.push(bytes[i]);
        i += 1;
        assert(r@ =~= bytes@.take(i as int));
    }
    r
}

/// A network identifier from random bytes: the hex of the first 16 bytes
/// of the SHA-256 of the bytes followed by `qcker-network`.
pub fn network_id_from_entropy(entropy: &[u8]) -> (r: String)
    ensures
        r@ == network_id_spec(entropy@),
        r@.len() == 32,
{
    let data = tagged(entropy, "qcker-network");
    let d = sha256_digest(data.as_slice());
    let p = prefix_bytes(&d, 16);
    proof { lemma_hex_lower_len(p@); }
    hex_encode(p.as_slice())
}

/// A volume identifier from random bytes: the hex of the first 16 bytes
/// of the SHA-256 of the bytes followed by `qcker-volume`.
pub fn volume_id_from_entropy(entropy: &[u8]) -> (r: String)
    ensures
        r@ == volume_id_spec(entropy@),
        r@.len() == 32,
{
    let data = tagged(entropy, "qcker-volume");
    let d = sha256_digest(data.as_slice());
    let p = prefix_bytes(&d, 16);
    proof { lemma_hex_lower_len(p@); }
    hex_encode(p.as_slice())
}

/// The identifier of an image: the 64-digit hex SHA-256 of its content.
pub fn generate_image_id(content: &[u8]) -> (r: String)
    ensures
        r@ == hex_lower(sha256(content@)),
        r@.len() == 64,
{
    let d = sha256_digest(content);
    proof { lemma_hex_lower_len(d@); }
    hex_encode(d.as_slice())
}

/// The first 12 bytes of an identifier, or all of it when it is shorter.
pub open spec fn short_id_bytes(id: Seq<u8>) -> Seq<u8> {
    if id.len() > 12 {
        id.take(12)
    } else {
        id
    }
}

/// The short form of an identifier: its first 12 bytes, or all of it when
/// it is not longer. A longer identifier must not have a character that
/// spans byte 12.
pub fn short_id(full_id: &str) -> (r: &str)
    requires
        full_id.spec_bytes().len() <= usize::MAX,
        full_id.spec_bytes().len() > 12 ==> is_char_boundary(full_id.spec_bytes(), 12),
    ensures
        r.spec_bytes() == short_id_bytes(full_id.spec_bytes()),
{
    if full_id.len() > 12 {
        let (head, _) = full_id.split_at(12);
        assert(head.spec_bytes() =~= full_id.spec_bytes().take(12));
        head
    } else {
        full_id
    }
}

/// The first 12 digits of a hex identifier are the hex of its first 6
/// bytes.
pub proof fn law_short_hex_id(bytes: Seq<u8>)
    requires
        bytes.len() >= 6,
    ensures
        hex_lower(bytes).take(12) == hex_lower(bytes.take(6)),
{
    lemma_hex_lower_prefix(bytes, 6);
}

/// The step of choosing a fresh identifier: a candidate that is not taken
/// is accepted; a taken one is refused while fewer than
/// [`MAX_ID_ATTEMPTS`] candidates have been refused, and accepted after.
pub open spec fn pick_step(refused: nat, taken: bool) -> bool {
    !taken || refused >= MAX_ID_ATTEMPTS
}

/// Chooses a container identifier not yet in use from freshly drawn
/// candidates.
pub struct IdPicker {
    refused: u32,
}

impl IdPicker {
    /// How many candidates have been refused so far.
    pub closed spec fn refused_count(&self) -> nat {
        self.refused as nat
    }

    /// A picker that has refused nothing yet.
    pub fn new() -> (r: Self)
        ensures
            r.refused_count() == 0,
    {
        IdPicker { refused: 0 }
    }

    /// Offers a freshly drawn `candidate`, with whether it is already in
    /// use: `Some(candidate)` when it is chosen, `None` when another one
    /// must be drawn.
    pub fn offer(&mut self, candidate: String, taken: bool) -> (r: Option<String>)
        requires
            old(self).refused_count() <= MAX_ID_ATTEMPTS,
        ensures
            pick_step(old(self).refused_count(), taken) ==> r == Some(candidate)
                && final(self).refused_count() == old(self).refused_count(),
            !pick_step(old(self).refused_count(), taken) ==> r is None
                && final(self).refused_count() == old(self).refused_count() + 1,
            final(self).refused_count() <= MAX_ID_ATTEMPTS,
    {
        if !taken || self.refused >= MAX_ID_ATTEMPTS {
            Some(candidate)
        } else {
            self.refused = self.refused + 1;
            None
        }
    }
}

/// Whatever the candidates, after [`MAX_ID_ATTEMPTS`] refusals the next
/// offer is accepted: no more than 33 identifiers are ever drawn, and any
/// candidate chosen earlier is one that was not taken.
pub proof fn law_pick_terminates(refused: nat, taken: bool)
    requires
        refused <= MAX_ID_ATTEMPTS,
    ensures
        refused == MAX_ID_ATTEMPTS ==> pick_step(refused, taken),
        refused < MAX_ID_ATTEMPTS && pick_step(refused, taken) ==> !taken,
{
}

/// Whether a set of strings holds one with the text `s`.
pub open spec fn holds_text(set: Set<String>, s: Seq<char>) -> bool {
    exists|t: String| set.contains(t) && t@ == s
}

/// `HashSet::contains` on a set of strings. The contract states what std
/// documents: whether the set holds a string equal to `s`, that is with the
/// same text.
#[verifier::external_body]
fn set_holds(set: &HashSet<String>, s: &String) -> (held: bool)
    ensures
        held == holds_text(set@, s@),
{
    set.contains(s)
}

/// Draws `drawn`, in order, are what choosing an identifier not in
/// `existing` reads before it stops: every draw but the last is taken, and
/// the last is free unless [`MAX_ID_ATTEMPTS`] taken ones came before it.
pub open spec fn stops_at_last(existing: Set<String>, drawn: Seq<String>) -> bool {
    &&& 1 <= drawn.len() <= MAX_ID_ATTEMPTS + 1
    &&& forall|i: int| 0 <= i < drawn.len() - 1 ==> holds_text(existing, #[trigger] drawn[i]@)
    &&& drawn.len() <= MAX_ID_ATTEMPTS ==> !holds_text(existing, drawn.last()@)
}

/// The position chosen among candidates `cs`, looking from position `k`
/// on: the first of the first [`MAX_ID_ATTEMPTS`] that is not in
/// `existing`, else the one right after them.
pub open spec fn chosen_from(existing: Set<String>, cs: Seq<String>, k: int) -> int
    decreases MAX_ID_ATTEMPTS - k,
{
    if k >= MAX_ID_ATTEMPTS {
        MAX_ID_ATTEMPTS as int
    } else if !holds_text(existing, cs[k]@) {
        k
    } else {
        chosen_from(existing, cs, k + 1)
    }
}

/// The position of the identifier chosen among candidates `cs`, drawn in
/// that order.
pub open spec fn chosen_index(existing: Set<String>, cs: Seq<String>) -> int {
    chosen_from(existing, cs, 0)
}

/// Which of the candidates `candidates`, drawn in that order, becomes the
/// new container's identifier: the first of the first [`MAX_ID_ATTEMPTS`]
/// that is not in `existing`, else the next one whatever it is.
pub fn pick_unique(existing: &HashSet<String>, candidates: &Vec<String>) -> (r: usize)
    requires
        candidates@.len() > MAX_ID_ATTEMPTS,
    ensures
        r as int == chosen_index(existing@, candidates@),
        r <= MAX_ID_ATTEMPTS,
{
    let mut i: usize = 0;
    while i < MAX_ID_ATTEMPTS as usize
        invariant
            i <= MAX_ID_ATTEMPTS,
            candidates@.len() > MAX_ID_ATTEMPTS,
            chosen_from(existing@, candidates@, i as int) == chosen_index(existing@, candidates@),
        decreases MAX_ID_ATTEMPTS - i,
    {
        if !set_holds(existing, &candidates[i]) {
            return i;
        }
        i += 1;
    }
    i
}

/// Where the choice among candidates lands, looking from `k` on: at or
/// after `k`, at most at [`MAX_ID_ATTEMPTS`], every candidate between is
/// taken, and the one chosen is free unless it is the last possible.
pub proof fn lemma_chosen_from(existing: Set<String>, cs: Seq<String>, k: int)
    requires
        0 <= k <= MAX_ID_ATTEMPTS,
        cs.len() > MAX_ID_ATTEMPTS,
    ensures
        k <= chosen_from(existing, cs, k) <= MAX_ID_ATTEMPTS,
        forall|i: int| k <= i < chosen_from(existing, cs, k) ==> holds_text(existing, #[trigger] cs[i]@),
        chosen_from(existing, cs, k) < MAX_ID_ATTEMPTS ==> !holds_text(
            existing,
            cs[chosen_from(existing, cs, k)]@,
        ),
    decreases MAX_ID_ATTEMPTS - k,
{
    if k < MAX_ID_ATTEMPTS && holds_text(existing, cs[k]@) {
        lemma_chosen_from(existing, cs, k + 1);
    }
}

/// Choosing among candidates drawn in advance and drawing until the choice
/// is made agree: the candidates up to the chosen one are exactly the draws
/// the choice reads before it stops.
pub proof fn law_pick_matches_draws(existing: Set<String>, cs: Seq<String>)
    requires
        cs.len() > MAX_ID_ATTEMPTS,
    ensures
        stops_at_last(existing, cs.take(chosen_index(existing, cs) + 1)),
{
    lemma_chosen_from(existing, cs, 0);
    let k = chosen_index(existing, cs);
    let d = cs.take(k + 1);
    assert forall|i: int| 0 <= i < d.len() - 1 implies holds_text(existing, #[trigger] d[i]@) by {
        assert(d[i] == cs[i]);
    }
    assert(d.last() == cs[k]);
}

/// A container identifier not in `existing`, drawn with `draw` (in the
/// program, [`container_id_from_entropy`] over fresh random bytes): the
/// first draw that is not taken, or, when [`MAX_ID_ATTEMPTS`] draws in a
/// row are taken, the next draw whatever it is. The draws themselves are
/// whatever `draw` gives.
pub fn generate_unique_container_id<F: Fn() -> String>(existing: &HashSet<String>, draw: F) -> (r: String)
    requires
        call_requires(draw, ()),
    ensures
        call_ensures(draw, (), r),
        exists|drawn: Seq<String>|
            {
                &&& stops_at_last(existing@, drawn)
                &&& drawn.last() == r
                &&& forall|i: int| 0 <= i < drawn.len() ==> call_ensures(draw, (), #[trigger] drawn[i])
            },
{
    let mut picker = IdPicker::new();
    let ghost mut refused: Seq<String> = Seq::empty();
    loop
        invariant
            picker.refused_count() <= MAX_ID_ATTEMPTS,
            refused.len() == picker.refused_count(),
            forall|i: int|
                0 <= i < refused.len() ==> call_ensures(draw, (), #[trigger] refused[i])
                    && holds_text(existing@, refused[i]@),
            call_requires(draw, ()),
        decreases MAX_ID_ATTEMPTS - picker.refused_count(),
    {
        let candidate = draw();
        let taken = set_holds(existing, &candidate);
        let ghost c = candidate;
        let ghost before = picker.refused_count();
        match picker.offer(candidate, taken) {
            Some(id) => {
                proof {
                    let drawn = refused.push(c);
                    assert(id == c);
                    assert(taken ==> before == MAX_ID_ATTEMPTS);
                    assert(drawn.last() == c);
                    assert forall|i: int| 0 <= i < drawn.len() - 1 implies holds_text(
                        existing@,
                        #[trigger] drawn[i]@,
                    ) by {
                        assert(drawn[i] == refused[i]);
                    }
                    assert forall|i: int| 0 <= i < drawn.len() implies call_ensures(
                        draw,
                        (),
                        #[trigger] drawn[i],
                    ) by {
                        if i < refused.len() {
                            assert(drawn[i] == refused[i]);
                        }
                    }
                    assert(stops_at_last(existing@, drawn));
                }
                return id;
            },
            None => {
                proof {
                    let old_refused = refused;
                    refused = refused.push(c);
                    assert forall|i: int| 0 <= i < refused.len() implies call_ensures(
                        draw,
                        (),
                        #[trigger] refused[i],
                    ) && holds_text(existing@, refused[i]@) by {
                        if i < old_refused.len() {
                            assert(refused[i] == old_refused[i]);
                        }
                    }
                }
            },
        }
    }
}

} // verus!
