//! The safety rules for paths of archive entries: an entry may not be
//! absolute, may not climb with `..`, and may not land outside the
//! destination directory.

use vstd::prelude::*;
use crate::error::QckerError;
use crate::paths::{join, join_path};
use crate::text::{owned, push_str, push_char, push_chars, str_chars, chars_eq, lemma_push_deep_view};

verus! {

/// The pieces of `p` between `/` characters, given the piece read so far;
/// a path with `n` slashes has `n + 1` pieces, some of them empty.
pub open spec fn slash_pieces_from(s: Seq<char>, cur: Seq<char>) -> Seq<Seq<char>>
    decreases s.len(),
{
    if s.len() == 0 {
        seq![cur]
    } else if s[0] == '/' {
        seq![cur] + slash_pieces_from(s.drop_first(), Seq::empty())
    } else {
        slash_pieces_from(s.drop_first(), cur.push(s[0]))
    }
}

/// The pieces of `p` between `/` characters.
pub open spec fn slash_pieces(p: Seq<char>) -> Seq<Seq<char>> {
    slash_pieces_from(p, Seq::empty())
}

/// Whether a path is absolute (begins at the root).
pub open spec fn is_absolute(p: Seq<char>) -> bool {
    p.len() > 0 && p[0] == '/'
}

/// Whether some component of the path is `..`.
pub open spec fn has_parent_dir(p: Seq<char>) -> bool {
    exists|i: int| 0 <= i < slash_pieces(p).len() && #[trigger] slash_pieces(p)[i] == ".."@
}

/// Whether a piece names a component: it is neither empty nor `.`.
pub open spec fn is_named(piece: Seq<char>) -> bool {
    piece.len() > 0 && piece != "."@
}

/// The named pieces of `p`, in order.
pub open spec fn named_pieces(p: Seq<char>) -> Seq<Seq<char>> {
    slash_pieces(p).filter(|x: Seq<char>| is_named(x))
}

/// The components of a path as `Path::components` yields them on Unix,
/// the root written `/` and a leading current directory written `.`.
pub open spec fn path_comps(p: Seq<char>) -> Seq<Seq<char>> {
    if is_absolute(p) {
        seq!["/"@] + named_pieces(p)
    } else if slash_pieces(p)[0] == "."@ {
        seq!["."@] + named_pieces(p)
    } else {
        named_pieces(p)
    }
}

/// Whether `a` is a prefix of `b`.
pub open spec fn seq_prefix(a: Seq<Seq<char>>, b: Seq<Seq<char>>) -> bool {
    a.len() <= b.len() && b.take(a.len() as int) == a
}

/// `Path::starts_with`: the components of `base` begin those of `child`.
pub open spec fn path_starts_with(child: Seq<char>, base: Seq<char>) -> bool {
    seq_prefix(path_comps(base), path_comps(child))
}

/// The text of the error for an absolute entry.
pub open spec fn absolute_text(p: Seq<char>) -> Seq<char> {
    "Absolute path in archive: "@ + p
}

/// The text of the error for an entry with a `..` component.
pub open spec fn traversal_text(p: Seq<char>) -> Seq<char> {
    "Path traversal in archive: "@ + p
}

/// The text of the error for an entry that lands outside the destination.
pub open spec fn escape_text(p: Seq<char>) -> Seq<char> {
    "Path escapes destination: "@ + p
}

/// The pieces of `p` between `/` characters.
pub fn split_slash(p: &Vec<char>) -> (r: Vec<Vec<char>>)
    ensures
        r.deep_view() == slash_pieces(p@),
{
    let mut out: Vec<Vec<char>> = Vec::new();
    let mut cur: Vec<char> = Vec::new();
    let mut i: usize = 0;
    assert(p@.skip(0) =~= p@);
    while i < p.len()
        invariant
            i <= p.len(),
            out.deep_view() + slash_pieces_from(p@.skip(i as int), cur@) == slash_pieces(p@),
        decreases p.len() - i,
    {
        let c = p[i];
        let ghost rest = p@.skip(i as int);
        let ghost old_out = out.deep_view();
        let ghost old_cur = cur@;
        assert(rest.drop_first() =~= p@.skip(i + 1));
        assert(rest[0] == c);
        if c == '/' {
            let ghost out0 = out;
            let piece = cur;
            out.push(piece);
            proof { lemma_push_deep_view(out0, out, piece); }
            cur = Vec::new();
            assert(out.deep_view() + slash_pieces_from(p@.skip(i + 1), cur@)
                =~= old_out + (seq![old_cur] + slash_pieces_from(p@.skip(i + 1), Seq::empty())));
        } else {
            cur.push(c);
        }
        i += 1;
    }
    let ghost before = out.deep_view();
    let ghost last = cur@;
    let ghost out0 = out;
    let ghost c0 = cur;
    out.push(cur);
    proof { lemma_push_deep_view(out0, out, c0); }
    assert(before + seq![last] =~= before.push(last));
    out
}

/// The pieces of a path are never none.
proof fn lemma_pieces_nonempty(s: Seq<char>, cur: Seq<char>)
    ensures
        slash_pieces_from(s, cur).len() >= 1,
    decreases s.len(),
{
    if s.len() > 0 {
        if s[0] != '/' {
            lemma_pieces_nonempty(s.drop_first(), cur.push(s[0]));
        }
    }
}

/// Whether a piece names a component.
fn is_named_piece(piece: &Vec<char>) -> (b: bool)
    ensures
        b == is_named(piece@),
{
    if piece.len() == 0 {
        return false;
    }
    let is_dot = piece.len() == 1 && piece[0] == '.';
    proof {
        reveal_strlit(".");
        if piece@.len() == 1 && piece@[0] == '.' {
            assert(piece@ =~= "."@);
        }
    }
    !is_dot
}

/// The named pieces, in order.
fn named_of(pieces: &Vec<Vec<char>>) -> (r: Vec<Vec<char>>)
    ensures
        r.deep_view() == pieces.deep_view().filter(|x: Seq<char>| is_named(x)),
{
    let ghost f = |x: Seq<char>| is_named(x);
    let mut out: Vec<Vec<char>> = Vec::new();
    let mut i: usize = 0;
    while i < pieces.len()
        invariant
            i <= pieces.len(),
            f == (|x: Seq<char>| is_named(x)),
            out.deep_view() == pieces.deep_view().take(i as int).filter(f),
        decreases pieces.len() - i,
    {
        let ghost dv = pieces.deep_view();
        proof { reveal_with_fuel(Seq::<Seq<char>>::filter, 1); }
        assert(dv.take(i + 1).drop_last() =~= dv.take(i as int));
        assert(dv.take(i + 1).last() == dv[i as int]);
        assert(pieces[i as int].deep_view() =~= pieces[i as int]@);
        assert(dv[i as int] == pieces[i as int]@);
        let keep = is_named_piece(&pieces[i]);
        assert(keep == f(dv[i as int]));
        if keep {
            let ghost out0 = out;
            let x = pieces[i].clone();
            out.push(x);
            proof {
                lemma_push_deep_view(out0, out, x);
                assert(dv.take(i + 1).filter(f) == dv.take(i as int).filter(f).push(dv[i as int]));
            }
        } else {
            assert(dv.take(i + 1).filter(f) == dv.take(i as int).filter(f));
        }
        i += 1;
    }
    assert(pieces.deep_view().take(pieces.len() as int) =~= pieces.deep_view());
    out
}

/// The components of `p`, as `Path::components` yields them on Unix.
pub fn components_of(p: &Vec<char>) -> (r: Vec<Vec<char>>)
    ensures
        r.deep_view() == path_comps(p@),
{
    let pieces = split_slash(p);
    proof { lemma_pieces_nonempty(p@, Seq::empty()); }
    let named = named_of(&pieces);
    let mut out: Vec<Vec<char>> = Vec::new();
    let absolute = p.len() > 0 && p[0] == '/';
    if absolute {
        let mut root: Vec<char> = Vec::new();
        root.push('/');
        proof { reveal_strlit("/"); assert(root@ =~= "/"@); }
        out.push(root);
    } else {
        let first = &pieces[0];
        let is_dot = first.len() == 1 && first[0] == '.';
        proof {
            reveal_strlit(".");
            assert(pieces.deep_view()[0] == pieces@[0]@) by {
                assert(pieces@[0].deep_view() =~= pieces@[0]@);
            }
            if first@.len() == 1 && first@[0] == '.' {
                assert(first@ =~= "."@);
            }
        }
        if is_dot {
            let mut dot: Vec<char> = Vec::new();
            dot.push('.');
            proof { assert(dot@ =~= "."@); }
            out.push(dot);
        }
    }
    let ghost head = out.deep_view();
    proof {
        if out@.len() == 1 {
            assert(out@[0].deep_view() =~= out@[0]@);
        }
    }
    let mut i: usize = 0;
    while i < named.len()
        invariant
            i <= named.len(),
            out.deep_view() == head + named.deep_view().take(i as int),
        decreases named.len() - i,
    {
        let ghost out0 = out;
        let x = named[i].clone();
        out.push(x);
        proof {
            lemma_push_deep_view(out0, out, x);
            assert(named@[i as int].deep_view() =~= named@[i as int]@);
        }
        i += 1;
        assert(out.deep_view() =~= head + named.deep_view().take(i as int));
    }
    assert(named.deep_view().take(named.len() as int) =~= named.deep_view());
    out
}

/// Whether some piece is `..`.
fn has_dotdot(pieces: &Vec<Vec<char>>) -> (b: bool)
    ensures
        b == exists|i: int| 0 <= i < pieces.deep_view().len() && #[trigger] pieces.deep_view()[i] == ".."@,
{
    let mut i: usize = 0;
    while i < pieces.len()
        invariant
            i <= pieces.len(),
            forall|j: int| 0 <= j < i ==> #[trigger] pieces.deep_view()[j] != ".."@,
        decreases pieces.len() - i,
    {
        let x = &pieces[i];
        let is_dd = x.len() == 2 && x[0] == '.' && x[1] == '.';
        proof {
            reveal_strlit("..");
            assert(pieces@[i as int].deep_view() =~= pieces@[i as int]@);
            if x@.len() == 2 && x@[0] == '.' && x@[1] == '.' {
                assert(x@ =~= ".."@);
            }
            if x@ == ".."@ {
                assert(x@.len() == 2 && x@[0] == '.' && x@[1] == '.');
            }
        }
        if is_dd {
            assert(pieces.deep_view()[i as int] == ".."@);
            return true;
        }
        i += 1;
    }
    false
}

/// How an entry path fares before the file system is consulted: refused
/// when absolute, refused when it climbs with `..`, else its named
/// components (none for an entry that names the destination itself).
pub open spec fn entry_precheck(p: Seq<char>) -> Result<Seq<Seq<char>>, QckerError> {
    if is_absolute(p) {
        Err(QckerError::Tar(arbitrary()))
    } else if has_parent_dir(p) {
        Err(QckerError::Tar(arbitrary()))
    } else {
        Ok(named_pieces(p))
    }
}

/// Checks an entry path before the file system is consulted: refused with
/// [`absolute_text`] when absolute, with [`traversal_text`] when it has a
/// `..` component, else its named components.
pub fn entry_check(entry: &str) -> (r: Result<Vec<Vec<char>>, QckerError>)
    ensures
        is_absolute(entry@) ==> (r matches Err(QckerError::Tar(m)) && m@ == absolute_text(entry@)),
        !is_absolute(entry@) && has_parent_dir(entry@) ==> (r matches Err(QckerError::Tar(m))
            && m@ == traversal_text(entry@)),
        !is_absolute(entry@) && !has_parent_dir(entry@) ==> (r matches Ok(v) && v.deep_view()
            == named_pieces(entry@)),
{
    let p = str_chars(entry);
    if p.len() > 0 && p[0] == '/' {
        let mut m = owned("Absolute path in archive: ");
        push_str(&mut m, entry);
        return Err(QckerError::Tar(m));
    }
    let pieces = split_slash(&p);
    if has_dotdot(&pieces) {
        let mut m = owned("Path traversal in archive: ");
        push_str(&mut m, entry);
        return Err(QckerError::Tar(m));
    }
    Ok(named_of(&pieces))
}

/// Components joined with `/` between them.
pub open spec fn slash_joined(parts: Seq<Seq<char>>) -> Seq<char>
    decreases parts.len(),
{
    if parts.len() == 0 {
        Seq::empty()
    } else if parts.len() == 1 {
        parts[0]
    } else {
        slash_joined(parts.drop_last()) + "/"@ + parts.last()
    }
}

/// The place whose resolution decides an entry with named components
/// `named`: `dest` itself for a single component, else `dest` joined with
/// all components but the last.
pub open spec fn parent_to_resolve(dest: Seq<char>, named: Seq<Seq<char>>) -> Seq<char> {
    if named.len() <= 1 {
        dest
    } else {
        join_path(dest, slash_joined(named.take(named.len() - 1)))
    }
}

/// The first `n` components joined with `/`.
fn join_slash(parts: &Vec<Vec<char>>, n: usize) -> (r: String)
    requires
        n <= parts.len(),
    ensures
        r@ == slash_joined(parts.deep_view().take(n as int)),
{
    let mut r = String::new();
    let mut i: usize = 0;
    while i < n
        invariant
            i <= n <= parts.len(),
            r@ == slash_joined(parts.deep_view().take(i as int)),
        decreases n - i,
    {
        let ghost before = parts.deep_view().take(i as int);
        proof {
            assert(parts.deep_view().take(i + 1).drop_last() =~= before);
            assert(parts@[i as int].deep_view() =~= parts@[i as int]@);
        }
        if i > 0 {
            push_char(&mut r, '/');
        }
        push_chars(&mut r, &parts[i]);
        proof {
            let t = parts.deep_view().take(i + 1);
            assert(t.last() == parts@[i as int]@);
            if i == 0 {
                assert(t =~= seq![parts@[0]@]);
            } else {
                reveal_strlit("/");
                assert("/"@ =~= seq!['/']);
                assert(r@ =~= slash_joined(t.drop_last()) + "/"@ + t.last());
            }
        }
        i += 1;
    }
    r
}

/// The place to resolve for an entry with named components `named`, under
/// `dest`.
pub fn entry_parent(dest: &str, named: &Vec<Vec<char>>) -> (r: String)
    ensures
        r@ == parent_to_resolve(dest@, named.deep_view()),
{
    let n = named.len();
    if n <= 1 {
        owned(dest)
    } else {
        let rel = join_slash(named, n - 1);
        join(dest, rel.as_str())
    }
}

/// Whether the components of `base` begin those of `child`
/// (`Path::starts_with`).
pub fn starts_with_path(child: &str, base: &str) -> (b: bool)
    ensures
        b == path_starts_with(child@, base@),
{
    let c = components_of(&str_chars(child));
    let b = components_of(&str_chars(base));
    if b.len() > c.len() {
        return false;
    }
    let mut i: usize = 0;
    while i < b.len()
        invariant
            i <= b.len() <= c.len(),
            c.deep_view() == path_comps(child@),
            b.deep_view() == path_comps(base@),
            c.deep_view().take(i as int) =~= b.deep_view().take(i as int),
        decreases b.len() - i,
    {
        proof {
            assert(c@[i as int].deep_view() =~= c@[i as int]@);
            assert(b@[i as int].deep_view() =~= b@[i as int]@);
        }
        if !chars_eq(&c[i], &b[i]) {
            assert(c.deep_view().take(b.len() as int)[i as int] != b.deep_view()[i as int]);
            assert(c.deep_view().take(b.len() as int) != b.deep_view());
            return false;
        }
        i += 1;
        assert(c.deep_view().take(i as int) =~= b.deep_view().take(i as int));
    }
    assert(b.deep_view().take(b.len() as int) =~= b.deep_view());
    true
}

/// The canonical form of `path` (`Path::canonicalize`): absent when the
/// file system cannot resolve it. It depends on the file system, so nothing
/// is stated of it.
#[verifier::external_body]
fn canonical_path(path: &str) -> Option<String> {
    std::path::Path::new(path).canonicalize().ok().map(|p| p.to_string_lossy().into_owned())
}

/// Whether the resolved parent of an entry lies within the resolved
/// destination; an entry whose parent does not resolve yet is let through.
pub open spec fn contained(canon_parent: Option<Seq<char>>, canon_dest: Seq<char>) -> bool {
    match canon_parent {
        Some(p) => path_starts_with(p, canon_dest),
        None => true,
    }
}

/// The containment verdict on an entry, given where its parent and the
/// destination resolve to: refused with [`escape_text`] when the parent
/// lies outside the destination.
pub fn containment_verdict(entry: &str, canon_parent: Option<String>, canon_dest: &str) -> (r: Result<
    (),
    QckerError,
>)
    ensures
        contained(
            match canon_parent {
                Some(p) => Some(p@),
                None => None,
            },
            canon_dest@,
        ) ==> r is Ok,
        !contained(
            match canon_parent {
                Some(p) => Some(p@),
                None => None,
            },
            canon_dest@,
        ) ==> (r matches Err(QckerError::Tar(m)) && m@ == escape_text(entry@)),
{
    match canon_parent {
        Some(p) => {
            if !starts_with_path(p.as_str(), canon_dest) {
                let mut m = owned("Path escapes destination: ");
                push_str(&mut m, entry);
                return Err(QckerError::Tar(m));
            }
            Ok(())
        },
        None => Ok(()),
    }
}

/// Checks that the archive entry `entry_path` may be unpacked under `dest`:
/// refused when absolute or when it climbs with `..`; let through when it
/// names `dest` itself; otherwise refused when its parent resolves to a
/// place outside the resolved `dest` (which depends on the file system).
pub fn validate_entry_path(entry_path: &str, dest: &str) -> (r: Result<(), QckerError>)
    ensures
        is_absolute(entry_path@) ==> (r matches Err(QckerError::Tar(m)) && m@ == absolute_text(
            entry_path@,
        )),
        !is_absolute(entry_path@) && has_parent_dir(entry_path@) ==> (r matches Err(
            QckerError::Tar(m),
        ) && m@ == traversal_text(entry_path@)),
        !is_absolute(entry_path@) && !has_parent_dir(entry_path@) && named_pieces(entry_path@).len()
            == 0 ==> r is Ok,
        !is_absolute(entry_path@) && !has_parent_dir(entry_path@) ==> (r is Ok || (r matches Err(
            QckerError::Tar(m),
        ) && m@ == escape_text(entry_path@))),
{
    let named = match entry_check(entry_path) {
        Err(e) => {
            return Err(e);
        },
        Ok(v) => v,
    };
    if named.len() == 0 {
        return Ok(());
    }
    let parent = entry_parent(dest, &named);
    let canon_dest = match canonical_path(dest) {
        Some(d) => d,
        None => owned(dest),
    };
    let canon_parent = canonical_path(parent.as_str());
    containment_verdict(entry_path, canon_parent, canon_dest.as_str())
}

/// An entry that passes the check is relative and never climbs with `..`;
/// an entry that names something below `dest` passes only when its parent
/// resolves within `dest` or does not resolve yet.
pub proof fn law_accepted_entry_is_confined(
    entry: Seq<char>,
    canon_parent: Option<Seq<char>>,
    canon_dest: Seq<char>,
)
    requires
        entry_precheck(entry) is Ok,
    ensures
        !is_absolute(entry),
        !has_parent_dir(entry),
        entry_precheck(entry) == Ok::<Seq<Seq<char>>, QckerError>(named_pieces(entry)),
        forall|i: int| 0 <= i < named_pieces(entry).len() ==> #[trigger] named_pieces(entry)[i]
            != ".."@ && is_named(named_pieces(entry)[i]),
{
    let ps = slash_pieces(entry);
    let f = |x: Seq<char>| is_named(x);
    assert forall|i: int| 0 <= i < named_pieces(entry).len() implies #[trigger] named_pieces(
        entry,
    )[i] != ".."@ && is_named(named_pieces(entry)[i]) by {
        ps.lemma_filter_pred(f, i);
        let x = named_pieces(entry)[i];
        assert(ps.filter(f)[i] == x);
        assert(ps.filter(f).contains(x));
        ps.lemma_filter_contains_rev(f, x);
        if x == ".."@ {
            let j = choose|j: int| 0 <= j < ps.len() && ps[j] == x;
            assert(slash_pieces(entry)[j] == ".."@);
            assert(has_parent_dir(entry));
        }
    }
}

/// The digest of an image layer archive: the SHA-256 of its bytes in
/// lowercase hex.
pub fn tar_gz_digest(archive: &[u8]) -> (r: String)
    ensures
        r@ == crate::digest::hex_lower(crate::digest::sha256(archive@)),
        r@.len() == 64,
{
    crate::digest::sha256_hex(archive)
}


/// `Path::starts_with` compares whole components and is not strict: every
/// path starts with itself, and a path starts with `base` exactly when the
/// components of `base` are the first components of the path.
pub proof fn law_path_starts_with_itself(p: Seq<char>, child: Seq<char>, base: Seq<char>)
    ensures
        path_starts_with(p, p),
        path_starts_with(child, base) <==> (path_comps(base).len() <= path_comps(child).len()
            && forall|i: int|
            0 <= i < path_comps(base).len() ==> #[trigger] path_comps(child)[i] == path_comps(
                base,
            )[i]),
{
    assert(path_comps(p).take(path_comps(p).len() as int) =~= path_comps(p));
    let b = path_comps(base);
    let c = path_comps(child);
    if b.len() <= c.len() && forall|i: int| 0 <= i < b.len() ==> #[trigger] c[i] == b[i] {
        assert(c.take(b.len() as int) =~= b);
    }
}

} // verus!
