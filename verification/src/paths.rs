//! Paths held as text, joined as `Path::join` joins them on Unix.

use vstd::prelude::*;
use crate::text::{push_char, push_str, owned};

verus! {

/// `base` joined with `rel` as `Path::join` does on Unix: an absolute `rel`
/// replaces `base`; otherwise a `/` separates them unless `base` is empty or
/// already ends with one.
pub open spec fn join_path(base: Seq<char>, rel: Seq<char>) -> Seq<char> {
    if rel.len() > 0 && rel[0] == '/' {
        rel
    } else if base.len() > 0 && base.last() != '/' {
        base + seq!['/'] + rel
    } else {
        base + rel
    }
}

/// `base` joined with `rel` (`Path::join`).
pub fn join(base: &str, rel: &str) -> (r: String)
    ensures
        r@ == join_path(base@, rel@),
{
    let rel_abs = !rel.is_empty() && rel.get_char(0) == '/';
    if rel_abs {
        return owned(rel);
    }
    let mut r = owned(base);
    let n = base.unicode_len();
    if n > 0 && base.get_char(n - 1) != '/' {
        push_char(&mut r, '/');
    }
    push_str(&mut r, rel);
    assert(r@ =~= join_path(base@, rel@));
    r
}

/// Whether something exists at `path` (`Path::exists`). The answer depends
/// on the file system at the moment of the call, so nothing is stated of it.
#[verifier::external_body]
pub fn path_exists(path: &str) -> bool {
    std::path::Path::new(path).exists()
}

} // verus!
