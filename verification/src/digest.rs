//! SHA-256 digests (from the `sha2` crate) and their lowercase hex text.

use vstd::prelude::*;
use crate::text::push_char;

verus! {

/// The SHA-256 digest of `data`.
pub uninterp spec fn sha256(data: Seq<u8>) -> Seq<u8>;

/// `sha2::Sha256::digest`: the digest of `data`, which is named by
/// [`sha256`] and is 32 bytes long (the output size of SHA-256).
#[verifier::external_body]
pub fn sha256_digest(data: &[u8]) -> (r: Vec<u8>)
    ensures
        r@ == sha256(data@),
        r@.len() == 32,
{
    <sha2::Sha256 as sha2::Digest>::digest(data).to_vec()
}

/// The lowercase hex digit of `d < 16`.
pub open spec fn hex_digit(d: nat) -> char {
    if d < 10 {
        (48 + d) as char
    } else {
        (87 + d) as char
    }
}

/// The lowercase hex text of `bytes`, two digits per byte, high nibble
/// first (what `hex::encode` and `{:x}` of a digest print).
pub open spec fn hex_lower(bytes: Seq<u8>) -> Seq<char>
    decreases bytes.len(),
{
    if bytes.len() == 0 {
        Seq::empty()
    } else {
        hex_lower(bytes.drop_last()) + seq![
            hex_digit(bytes.last() as nat / 16),
            hex_digit(bytes.last() as nat % 16),
        ]
    }
}

/// The hex text of a byte string has two digits per byte.
pub proof fn lemma_hex_lower_len(bytes: Seq<u8>)
    ensures
        hex_lower(bytes).len() == 2 * bytes.len(),
    decreases bytes.len(),
{
    if bytes.len() > 0 {
        lemma_hex_lower_len(bytes.drop_last());
    }
}

/// The hex text of a prefix is a prefix of the hex text.
pub proof fn lemma_hex_lower_prefix(bytes: Seq<u8>, n: int)
    requires
        0 <= n <= bytes.len(),
    ensures
        hex_lower(bytes).take(2 * n) == hex_lower(bytes.take(n)),
    decreases bytes.len(),
{
    lemma_hex_lower_len(bytes);
    lemma_hex_lower_len(bytes.take(n));
    if n < bytes.len() {
        lemma_hex_lower_prefix(bytes.drop_last(), n);
        lemma_hex_lower_len(bytes.drop_last());
        assert(bytes.drop_last().take(n) =~= bytes.take(n));
        assert(hex_lower(bytes).take(2 * n) =~= hex_lower(bytes.drop_last()).take(2 * n));
    } else {
        assert(bytes.take(n) =~= bytes);
        assert(hex_lower(bytes).take(2 * n) =~= hex_lower(bytes));
    }
}

/// The hex digit of `d < 16`.
pub fn hex_digit_char(d: u8) -> (c: char)
    requires
        d < 16,
    ensures
        c == hex_digit(d as nat),
{
    if d < 10 {
        (48u8 + d) as char
    } else {
        (87u8 + d) as char
    }
}

/// Appends the lowercase hex text of `bytes` to `s`.
pub fn push_hex(s: &mut String, bytes: &[u8])
    ensures
        final(s)@ == old(s)@ + hex_lower(bytes@),
{
    let mut i: usize = 0;
    while i < bytes.len()
        invariant
            i <= bytes.len(),
            s@ == old(s)@ + hex_lower(bytes@.take(i as int)),
        decreases bytes.len() - i,
    {
        let b = bytes[i];
        push_char(s, hex_digit_char(b / 16));
        push_char(s, hex_digit_char(b % 16));
        assert(bytes@.take(i + 1).drop_last() =~= bytes@.take(i as int));
        i += 1;
        assert(s@ =~= old(s)@ + hex_lower(bytes@.take(i as int)));
    }
    assert(bytes@.take(bytes.len() as int) =~= bytes@);
}

/// The lowercase hex text of `bytes` (`hex::encode`).
pub fn hex_encode(bytes: &[u8]) -> (r: String)
    ensures
        r@ == hex_lower(bytes@),
{
    let mut r = String::new();
    push_hex(&mut r, bytes);
    assert(r@ =~= hex_lower(bytes@));
    r
}

/// The lowercase hex text of the SHA-256 digest of `data`.
pub fn sha256_hex(data: &[u8]) -> (r: String)
    ensures
        r@ == hex_lower(sha256(data@)),
        r@.len() == 64,
{
    let d = sha256_digest(data);
    proof { lemma_hex_lower_len(d@); }
    hex_encode(d.as_slice())
}

} // verus!
