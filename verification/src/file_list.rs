//! Listings of a container's files: reading the output of `ls -la`, naming
//! an entry's path, and ordering a listing with directories first and then
//! by name.

use vstd::prelude::*;
use crate::text::{
    chars_eq_str, is_prefix, owned, push_char, push_chars, push_owned, push_str, split_lines,
    split_ws, starts_with, str_chars, string_of, text_lines, ws_pieces,
};
use crate::native::{parse_or_zero, parse_u64_or_zero};
use crate::types::FileInfo;

verus! {

/// A file of a listing, with its texts as character sequences.
pub ghost struct FileView {
    pub name: Seq<char>,
    pub path: Seq<char>,
    pub is_dir: bool,
    pub size: u64,
    pub permissions: Seq<char>,
    pub modified: Seq<char>,
}

/// The view of a file.
pub open spec fn file_view(f: FileInfo) -> FileView {
    FileView {
        name: f.name@,
        path: f.path@,
        is_dir: f.is_dir,
        size: f.size,
        permissions: f.permissions@,
        modified: f.modified@,
    }
}

/// The views of the files of a listing.
pub open spec fn files_view(v: Seq<FileInfo>) -> Seq<FileView> {
    v.map_values(|f: FileInfo| file_view(f))
}

/// A text without the `/` characters at its end.
pub open spec fn trim_end_slashes(s: Seq<char>) -> Seq<char>
    decreases s.len(),
{
    if s.len() > 0 && s.last() == '/' {
        trim_end_slashes(s.drop_last())
    } else {
        s
    }
}

/// The path of the entry `name` of the directory `dir`.
pub open spec fn child_path(dir: Seq<char>, name: Seq<char>) -> Seq<char> {
    trim_end_slashes(dir) + seq!['/'] + name
}

/// The entry an `ls -la --time-style=+%s` line describes, in the directory
/// `dir`: none for the `total` line, for a line of fewer than nine fields,
/// and for `.` and `..`. The ninth field is the name, the first the
/// permissions (a directory's start with `d`), the fifth the size (0 when
/// it is not a number) and the sixth the time of the last change.
pub open spec fn ls_entry(line: Seq<char>, dir: Seq<char>) -> Option<FileView> {
    let parts = ws_pieces(line);
    if is_prefix("total"@, line) {
        None
    } else if parts.len() < 9 {
        None
    } else if parts[8] == "."@ || parts[8] == ".."@ {
        None
    } else {
        Some(
            FileView {
                name: parts[8],
                path: child_path(dir, parts[8]),
                is_dir: parts[0].len() > 0 && parts[0][0] == 'd',
                size: parse_or_zero(parts[4]) as u64,
                permissions: parts[0],
                modified: parts[5],
            },
        )
    }
}

/// The entries of the lines, in order.
pub open spec fn ls_entries(lines: Seq<Seq<char>>, dir: Seq<char>) -> Seq<FileView>
    decreases lines.len(),
{
    if lines.len() == 0 {
        Seq::empty()
    } else {
        let rest = ls_entries(lines.drop_last(), dir);
        match ls_entry(lines.last(), dir) {
            Some(f) => rest.push(f),
            None => rest,
        }
    }
}

/// The lines after the first.
pub open spec fn after_first(lines: Seq<Seq<char>>) -> Seq<Seq<char>> {
    if lines.len() > 0 {
        lines.drop_first()
    } else {
        lines
    }
}

/// Whether `a` comes before `b` in the order of characters, compared one
/// by one, a proper prefix first.
pub open spec fn text_before(a: Seq<char>, b: Seq<char>) -> bool
    decreases a.len(),
{
    if a.len() == 0 {
        b.len() > 0
    } else if b.len() == 0 {
        false
    } else if a[0] != b[0] {
        (a[0] as u32) < (b[0] as u32)
    } else {
        text_before(a.drop_first(), b.drop_first())
    }
}

/// Whether `a` is listed before `b`: directories before other files, and
/// by name among either.
pub open spec fn file_before(a: FileView, b: FileView) -> bool {
    (a.is_dir && !b.is_dir) || (a.is_dir == b.is_dir && text_before(a.name, b.name))
}

/// The place of `f` in the ordered listing `s`: before the first entry it
/// comes before, so after the entries it ties with.
pub open spec fn insert_at(s: Seq<FileView>, f: FileView) -> int
    decreases s.len(),
{
    if s.len() == 0 {
        0
    } else if file_before(f, s[0]) {
        0
    } else {
        1 + insert_at(s.drop_first(), f)
    }
}

/// The files ordered with directories first and then by name, files that
/// tie keeping their order.
pub open spec fn ordered_files(v: Seq<FileView>) -> Seq<FileView>
    decreases v.len(),
{
    if v.len() == 0 {
        Seq::empty()
    } else {
        let s = ordered_files(v.drop_last());
        s.insert(insert_at(s, v.last()), v.last())
    }
}

/// The listing an `ls -la --time-style=+%s <dir>` output gives: the entries
/// of its lines after the first, ordered.
pub open spec fn ls_listing(stdout: Seq<char>, dir: Seq<char>) -> Seq<FileView> {
    ordered_files(ls_entries(after_first(text_lines(stdout)), dir))
}

/// The command that lists `path` in a container.
pub fn ls_command(path: &str) -> (r: Vec<String>)
    ensures
        crate::text::views(r@) == seq!["/bin/sh"@, "-c"@, "ls -la --time-style=+%s "@ + path@],
{
    let mut r: Vec<String> = Vec::new();
    push_owned(&mut r, "/bin/sh");
    push_owned(&mut r, "-c");
    let mut c = owned("ls -la --time-style=+%s ");
    push_str(&mut c, path);
    crate::text::push_string(&mut r, c);
    assert(crate::text::views(r@) =~= seq!["/bin/sh"@, "-c"@, "ls -la --time-style=+%s "@ + path@]);
    r
}

/// `dir.trim_end_matches('/')`, then `/`, then `name`.
pub fn child_path_of(dir: &str, name: &Vec<char>) -> (r: String)
    ensures
        r@ == child_path(dir@, name@),
{
    let cs = str_chars(dir);
    let mut n: usize = cs.len();
    assert(cs@.take(n as int) =~= cs@);
    while n > 0 && cs[n - 1] == '/'
        invariant
            n <= cs.len(),
            trim_end_slashes(cs@.take(n as int)) == trim_end_slashes(cs@),
        decreases n,
    {
        assert(cs@.take(n as int).drop_last() =~= cs@.take(n - 1));
        n -= 1;
    }
    let mut r = String::new();
    let mut i: usize = 0;
    while i < n
        invariant
            i <= n <= cs.len(),
            r@ == cs@.take(i as int),
        decreases n - i,
    {
        push_char(&mut r, cs[i]);
        i += 1;
        assert(r@ =~= cs@.take(i as int));
    }
    assert(trim_end_slashes(cs@.take(n as int)) == cs@.take(n as int));
    assert(cs@ =~= dir@);
    push_char(&mut r, '/');
    push_chars(&mut r, name);
    r
}

fn ls_entry_of(line: &Vec<char>, dir: &str) -> (r: Option<FileInfo>)
    ensures
        match r {
            Some(f) => ls_entry(line@, dir@) == Some(file_view(f)),
            None => ls_entry(line@, dir@) is None,
        },
{
    if starts_with(line, "total") {
        return None;
    }
    let parts = split_ws(line);
    if parts.len() < 9 {
        return None;
    }
    proof {
        assert(parts@[8].deep_view() =~= parts@[8]@);
        assert(parts@[0].deep_view() =~= parts@[0]@);
        assert(parts@[4].deep_view() =~= parts@[4]@);
        assert(parts@[5].deep_view() =~= parts@[5]@);
    }
    if chars_eq_str(&parts[8], ".") || chars_eq_str(&parts[8], "..") {
        return None;
    }
    let is_dir = parts[0].len() > 0 && parts[0][0] == 'd';
    let size = parse_u64_or_zero(&parts[4]);
    Some(
        FileInfo {
            name: string_of(&parts[8]),
            path: child_path_of(dir, &parts[8]),
            is_dir,
            size,
            permissions: string_of(&parts[0]),
            modified: string_of(&parts[5]),
        },
    )
}

/// The entries of an `ls -la` output, unordered.
pub fn ls_entries_of(stdout: &str, dir: &str) -> (r: Vec<FileInfo>)
    ensures
        files_view(r@) == ls_entries(after_first(text_lines(stdout@)), dir@),
{
    let cs = str_chars(stdout);
    let lines = split_lines(&cs);
    let ghost ls = after_first(lines.deep_view());
    let mut out: Vec<FileInfo> = Vec::new();
    if lines.len() == 0 {
        return out;
    }
    let mut i: usize = 1;
    while i < lines.len()
        invariant
            1 <= i <= lines.len(),
            lines.deep_view() == text_lines(stdout@),
            ls == after_first(lines.deep_view()),
            ls.len() == lines.len() - 1,
            files_view(out@) == ls_entries(ls.take(i - 1), dir@),
        decreases lines.len() - i,
    {
        proof {
            assert(lines@[i as int].deep_view() =~= lines@[i as int]@);
            assert(ls.take(i as int).drop_last() =~= ls.take(i - 1));
            assert(ls.take(i as int).last() == lines.deep_view()[i as int]);
        }
        match ls_entry_of(&lines[i], dir) {
            Some(f) => {
                out.push(f);
                assert(files_view(out@) =~= ls_entries(ls.take(i - 1), dir@).push(file_view(f)));
            },
            None => {},
        }
        i += 1;
    }
    assert(ls.take(lines.len() - 1) =~= ls);
    out
}

fn name_before(a: &String, b: &String) -> (r: bool)
    ensures
        r == text_before(a@, b@),
{
    let x = str_chars(a.as_str());
    let y = str_chars(b.as_str());
    let mut i: usize = 0;
    assert(x@.skip(0) =~= x@);
    assert(y@.skip(0) =~= y@);
    while i < x.len() && i < y.len() && x[i] == y[i]
        invariant
            i <= x.len(),
            i <= y.len(),
            text_before(x@.skip(i as int), y@.skip(i as int)) == text_before(a@, b@),
        decreases x.len() - i,
    {
        assert(x@.skip(i as int).drop_first() =~= x@.skip(i + 1));
        assert(y@.skip(i as int).drop_first() =~= y@.skip(i + 1));
        i += 1;
    }
    if i == y.len() {
        false
    } else if i == x.len() {
        true
    } else {
        (x[i] as u32) < (y[i] as u32)
    }
}

fn file_goes_before(a: &FileInfo, b: &FileInfo) -> (r: bool)
    ensures
        r == file_before(file_view(*a), file_view(*b)),
{
    (a.is_dir && !b.is_dir) || (a.is_dir == b.is_dir && name_before(&a.name, &b.name))
}

fn file_copy(f: &FileInfo) -> (r: FileInfo)
    ensures
        file_view(r) == file_view(*f),
{
    FileInfo {
        name: f.name.clone(),
        path: f.path.clone(),
        is_dir: f.is_dir,
        size: f.size,
        permissions: f.permissions.clone(),
        modified: f.modified.clone(),
    }
}

/// The files ordered with directories first and then by name; files that
/// tie keep their order.
pub fn order_files(files: &Vec<FileInfo>) -> (r: Vec<FileInfo>)
    ensures
        files_view(r@) == ordered_files(files_view(files@)),
{
    let ghost all = files_view(files@);
    let mut out: Vec<FileInfo> = Vec::new();
    let mut k: usize = 0;
    while k < files.len()
        invariant
            k <= files.len(),
            all == files_view(files@),
            files_view(out@) == ordered_files(all.take(k as int)),
        decreases files.len() - k,
    {
        let f = file_copy(&files[k]);
        let ghost fv = file_view(f);
        let ghost s = files_view(out@);
        let mut j: usize = 0;
        assert(s.skip(0) =~= s);
        while j < out.len() && !file_goes_before(&f, &out[j])
            invariant
                j <= out.len(),
                s == files_view(out@),
                fv == file_view(f),
                insert_at(s, fv) == j + insert_at(s.skip(j as int), fv),
            decreases out.len() - j,
        {
            assert(s.skip(j as int)[0] == s[j as int]);
            assert(s.skip(j as int).drop_first() =~= s.skip(j + 1));
            j += 1;
        }
        if j < out.len() {
            assert(s.skip(j as int)[0] == s[j as int]);
        } else {
            assert(s.skip(j as int) =~= Seq::<FileView>::empty());
        }
        assert(insert_at(s, fv) == j);
        out.insert(j, f);
        assert(files_view(out@) =~= s.insert(j as int, fv));
        assert(all.take(k + 1).drop_last() =~= all.take(k as int));
        assert(all.take(k + 1).last() == fv);
        k += 1;
    }
    assert(all.take(files.len() as int) =~= all);
    out
}

/// The listing an `ls -la --time-style=+%s <dir>` output gives.
pub fn ls_listing_of(stdout: &str, dir: &str) -> (r: Vec<FileInfo>)
    ensures
        files_view(r@) == ls_listing(stdout@, dir@),
{
    let entries = ls_entries_of(stdout, dir);
    order_files(&entries)
}

pub proof fn lemma_text_before_irreflexive(a: Seq<char>)
    ensures
        !text_before(a, a),
    decreases a.len(),
{
    if a.len() > 0 {
        lemma_text_before_irreflexive(a.drop_first());
    }
}

pub proof fn lemma_text_before_transitive(a: Seq<char>, b: Seq<char>, c: Seq<char>)
    requires
        text_before(a, b),
        text_before(b, c),
    ensures
        text_before(a, c),
    decreases a.len(),
{
    if a.len() > 0 && b.len() > 0 && c.len() > 0 && a[0] == b[0] && b[0] == c[0] {
        lemma_text_before_transitive(a.drop_first(), b.drop_first(), c.drop_first());
    }
}

/// Whether no file of `s` comes before one listed ahead of it.
pub open spec fn files_in_order(s: Seq<FileView>) -> bool {
    forall|i: int, j: int| 0 <= i < j < s.len() ==> !file_before(#[trigger] s[j], #[trigger] s[i])
}

proof fn lemma_file_before_strict(a: FileView, b: FileView, c: FileView)
    ensures
        !file_before(a, a),
        file_before(a, b) && file_before(b, c) ==> file_before(a, c),
        file_before(a, b) ==> !file_before(b, a),
{
    lemma_text_before_irreflexive(a.name);
    if file_before(a, b) && file_before(b, c) {
        if a.is_dir == b.is_dir && b.is_dir == c.is_dir {
            lemma_text_before_transitive(a.name, b.name, c.name);
        }
    }
    if file_before(a, b) && file_before(b, a) {
        if a.is_dir == b.is_dir {
            lemma_text_before_transitive(a.name, b.name, a.name);
        }
    }
}

proof fn lemma_insert_at(s: Seq<FileView>, f: FileView)
    ensures
        0 <= insert_at(s, f) <= s.len(),
        forall|i: int| 0 <= i < insert_at(s, f) ==> !file_before(f, #[trigger] s[i]),
        insert_at(s, f) < s.len() ==> file_before(f, s[insert_at(s, f)]),
    decreases s.len(),
{
    if s.len() > 0 && !file_before(f, s[0]) {
        lemma_insert_at(s.drop_first(), f);
        assert forall|i: int| 0 <= i < insert_at(s, f) implies !file_before(f, #[trigger] s[i]) by {
            if i > 0 {
                assert(s[i] == s.drop_first()[i - 1]);
            }
        }
    }
}

proof fn lemma_insert_in_order(s: Seq<FileView>, f: FileView)
    requires
        files_in_order(s),
    ensures
        files_in_order(s.insert(insert_at(s, f), f)),
{
    lemma_insert_at(s, f);
    let p = insert_at(s, f);
    let t = s.insert(p, f);
    assert forall|i: int, j: int| 0 <= i < j < t.len() implies !file_before(
        #[trigger] t[j],
        #[trigger] t[i],
    ) by {
        if j < p {
            assert(t[i] == s[i] && t[j] == s[j]);
        } else if j == p {
            assert(t[i] == s[i]);
        } else if i == p {
            assert(t[j] == s[j - 1]);
            assert(p < s.len());
            lemma_file_before_strict(s[j - 1], f, s[p]);
            if j - 1 > p {
                assert(!file_before(s[j - 1], s[p]));
            }
        } else if i < p {
            assert(t[i] == s[i] && t[j] == s[j - 1]);
        } else {
            assert(t[i] == s[i - 1] && t[j] == s[j - 1]);
        }
    }
}

/// Ordering a listing keeps its files, each as often as it occurs, and puts
/// them in order: no file comes before one listed ahead of it.
pub proof fn law_ordered_files(v: Seq<FileView>)
    ensures
        ordered_files(v).to_multiset() == v.to_multiset(),
        files_in_order(ordered_files(v)),
    decreases v.len(),
{
    if v.len() > 0 {
        let s = ordered_files(v.drop_last());
        law_ordered_files(v.drop_last());
        lemma_insert_at(s, v.last());
        lemma_insert_in_order(s, v.last());
        vstd::seq_lib::to_multiset_insert(s, insert_at(s, v.last()), v.last());
        vstd::seq_lib::to_multiset_build(v.drop_last(), v.last());
        assert(v.drop_last().push(v.last()) =~= v);
        assert(ordered_files(v).to_multiset() == s.to_multiset().insert(v.last()));
        assert(v.to_multiset() == v.drop_last().to_multiset().insert(v.last()));
    } else {
        assert(v =~= ordered_files(v));
    }
}

/// Directories come before every other file in an ordered listing.
pub proof fn law_directories_first(v: Seq<FileView>, i: int, j: int)
    requires
        0 <= i < j < ordered_files(v).len(),
        ordered_files(v)[j].is_dir,
    ensures
        ordered_files(v)[i].is_dir,
{
    law_ordered_files(v);
    let s = ordered_files(v);
    assert(!file_before(s[j], s[i]));
}

} // verus!
