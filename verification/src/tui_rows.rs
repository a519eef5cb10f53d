//! The rows of the dashboard's lists, made from the fields of the records
//! in the data directory (a field that is missing, or not of the expected
//! kind, is `None`), with the defaults, labels and order the dashboard
//! shows them in.

use vstd::prelude::*;
use crate::file_list::{lemma_text_before_irreflexive, lemma_text_before_transitive, text_before};
use crate::text::{chars_eq, owned, push_str, str_chars, views};
use crate::tui_app::{ContainerInfo, ImageInfo, MarketplaceExt, NetworkInfo, VolumeInfo};

verus! {

broadcast use vstd::string::group_string_axioms;

/// The fields of a container's `state.json` the dashboard reads.
#[derive(Debug, Clone)]
pub struct ContainerRecord {
    pub id: Option<String>,
    pub name: Option<String>,
    pub state: Option<String>,
    pub pid: Option<i64>,
    /// `config.image`.
    pub image: Option<String>,
    pub created_at: Option<String>,
}

/// The text of an optional string, or `d`.
pub open spec fn text_or(o: Option<String>, d: Seq<char>) -> Seq<char> {
    match o {
        Some(s) => s@,
        None => d,
    }
}

fn string_or(o: &Option<String>, d: &str) -> (r: String)
    ensures
        r@ == text_or(*o, d@),
{
    match o {
        Some(s) => s.clone(),
        None => owned(d),
    }
}

/// The status label of a container state: the runtime's `Running`,
/// `Created` and `Stopped` in lower case, anything else as it is.
pub open spec fn status_label(state: Seq<char>) -> Seq<char> {
    if state == "Running"@ {
        "running"@
    } else if state == "Created"@ {
        "created"@
    } else if state == "Stopped"@ {
        "stopped"@
    } else {
        state
    }
}

/// A container row as texts.
pub ghost struct ContainerRow {
    pub id: Seq<char>,
    pub name: Seq<char>,
    pub status: Seq<char>,
    pub image: Seq<char>,
    pub pid: Option<i32>,
    pub created: Seq<char>,
}

/// The row of a container, as texts.
pub open spec fn row_view(c: ContainerInfo) -> ContainerRow {
    ContainerRow {
        id: c.id@,
        name: c.name@,
        status: c.status@,
        image: c.image@,
        pid: c.pid,
        created: c.created@,
    }
}

/// The row the dashboard shows for a container record: `unknown` for a
/// missing id, state or image, the id for a missing name (and then
/// `<name> (default)`), `N/A` for a missing creation time; the process id
/// cut to 32 bits.
pub open spec fn container_row_of(r: ContainerRecord) -> ContainerRow {
    let id = text_or(r.id, "unknown"@);
    let name = text_or(r.name, id);
    ContainerRow {
        id,
        name: if name == id {
            name + " (default)"@
        } else {
            name
        },
        status: status_label(text_or(r.state, "unknown"@)),
        image: text_or(r.image, "unknown"@),
        pid: match r.pid {
            Some(p) => Some(p as i32),
            None => None,
        },
        created: text_or(r.created_at, "N/A"@),
    }
}

/// The row the dashboard shows for a container record.
pub fn container_row(r: &ContainerRecord) -> (c: ContainerInfo)
    ensures
        row_view(c) == container_row_of(*r),
{
    let id = string_or(&r.id, "unknown");
    let name0 = string_or(&r.name, id.as_str());
    let ic = str_chars(id.as_str());
    let nc = str_chars(name0.as_str());
    let name = if chars_eq(&nc, &ic) {
        let mut n = name0;
        push_str(&mut n, " (default)");
        n
    } else {
        name0
    };
    let state = string_or(&r.state, "unknown");
    let sc = str_chars(state.as_str());
    proof {
        reveal_strlit("Running");
        reveal_strlit("Created");
        reveal_strlit("Stopped");
        assert("Running"@[0] != "Created"@[0]);
        assert("Running"@[0] != "Stopped"@[0]);
        assert("Created"@[0] != "Stopped"@[0]);
    }
    let status = if crate::text::chars_eq_str(&sc, "Running") {
        owned("running")
    } else if crate::text::chars_eq_str(&sc, "Created") {
        owned("created")
    } else if crate::text::chars_eq_str(&sc, "Stopped") {
        owned("stopped")
    } else {
        state
    };
    let pid: Option<i32> = match r.pid {
        Some(p) => Some(p as i32),
        None => None,
    };
    ContainerInfo {
        id,
        name,
        status,
        image: string_or(&r.image, "unknown"),
        pid,
        created: string_or(&r.created_at, "N/A"),
    }
}

/// Whether row `x` goes ahead of row `y` when the newest come first:
/// when its creation time is later in the order of characters.
pub open spec fn newer(x: ContainerInfo, y: ContainerInfo) -> bool {
    text_before(y.created@, x.created@)
}

/// The place of `x` among rows `s` already in order: ahead of the first
/// row it is newer than.
pub open spec fn newest_at(s: Seq<ContainerInfo>, x: ContainerInfo) -> int
    decreases s.len(),
{
    if s.len() == 0 {
        0
    } else if newer(x, s[0]) {
        0
    } else {
        1 + newest_at(s.drop_first(), x)
    }
}

/// The rows, newest first; rows created at the same time keep their order.
pub open spec fn newest_first(v: Seq<ContainerInfo>) -> Seq<ContainerInfo>
    decreases v.len(),
{
    if v.len() == 0 {
        Seq::empty()
    } else {
        let s = newest_first(v.drop_last());
        s.insert(newest_at(s, v.last()), v.last())
    }
}

fn is_newer(x: &ContainerInfo, y: &ContainerInfo) -> (r: bool)
    ensures
        r == newer(*x, *y),
{
    let a = str_chars(y.created.as_str());
    let b = str_chars(x.created.as_str());
    let mut i: usize = 0;
    assert(a@.skip(0) =~= a@);
    assert(b@.skip(0) =~= b@);
    while i < a.len() && i < b.len() && a[i] == b[i]
        invariant
            i <= a.len(),
            i <= b.len(),
            a@ == y.created@,
            b@ == x.created@,
            text_before(a@.skip(i as int), b@.skip(i as int)) == text_before(a@, b@),
        decreases a.len() - i,
    {
        assert(a@.skip(i as int).drop_first() =~= a@.skip(i + 1));
        assert(b@.skip(i as int).drop_first() =~= b@.skip(i + 1));
        i += 1;
    }
    if i == b.len() {
        false
    } else if i == a.len() {
        true
    } else {
        (a[i] as u32) < (b[i] as u32)
    }
}

/// The rows, newest first.
pub fn sort_newest_first(rows: Vec<ContainerInfo>) -> (r: Vec<ContainerInfo>)
    ensures
        r@ == newest_first(rows@),
{
    let total = rows.len();
    let ghost all = rows@;
    assert(all.len() == total);
    let mut rest = rows;
    let mut out: Vec<ContainerInfo> = Vec::new();
    let mut k: usize = 0;
    while rest.len() > 0
        invariant
            k + rest@.len() == all.len(),
            all.len() <= usize::MAX,
            rest@ == all.skip(k as int),
            out@ == newest_first(all.take(k as int)),
        decreases rest@.len(),
    {
        let x = rest.remove(0);
        assert(x == all[k as int]);
        assert(rest@ =~= all.skip(k + 1));
        let ghost s = out@;
        let mut j: usize = 0;
        assert(s.skip(0) =~= s);
        while j < out.len() && !is_newer(&x, &out[j])
            invariant
                j <= out.len(),
                s == out@,
                newest_at(s, x) == j + newest_at(s.skip(j as int), x),
            decreases out.len() - j,
        {
            assert(s.skip(j as int)[0] == s[j as int]);
            assert(s.skip(j as int).drop_first() =~= s.skip(j + 1));
            j += 1;
        }
        if j < out.len() {
            assert(s.skip(j as int)[0] == s[j as int]);
        } else {
            assert(s.skip(j as int) =~= Seq::<ContainerInfo>::empty());
        }
        out.insert(j, x);
        assert(all.take(k + 1).drop_last() =~= all.take(k as int));
        assert(all.take(k + 1).last() == x);
        k += 1;
    }
    assert(all.take(all.len() as int) =~= all);
    out
}

/// Whether no row of `s` is newer than one listed ahead of it.
pub open spec fn rows_newest_first(s: Seq<ContainerInfo>) -> bool {
    forall|i: int, j: int| 0 <= i < j < s.len() ==> !newer(#[trigger] s[j], #[trigger] s[i])
}

proof fn lemma_newest_at(s: Seq<ContainerInfo>, x: ContainerInfo)
    ensures
        0 <= newest_at(s, x) <= s.len(),
        forall|i: int| 0 <= i < newest_at(s, x) ==> !newer(x, #[trigger] s[i]),
        newest_at(s, x) < s.len() ==> newer(x, s[newest_at(s, x)]),
    decreases s.len(),
{
    if s.len() > 0 && !newer(x, s[0]) {
        lemma_newest_at(s.drop_first(), x);
        assert forall|i: int| 0 <= i < newest_at(s, x) implies !newer(x, #[trigger] s[i]) by {
            if i > 0 {
                assert(s[i] == s.drop_first()[i - 1]);
            }
        }
    }
}

proof fn lemma_newer_strict(a: ContainerInfo, b: ContainerInfo, c: ContainerInfo)
    ensures
        !newer(a, a),
        newer(a, b) && newer(b, c) ==> newer(a, c),
        newer(a, b) ==> !newer(b, a),
{
    lemma_text_before_irreflexive(a.created@);
    if newer(a, b) && newer(b, c) {
        lemma_text_before_transitive(c.created@, b.created@, a.created@);
    }
    if newer(a, b) && newer(b, a) {
        lemma_text_before_transitive(b.created@, a.created@, b.created@);
        lemma_text_before_irreflexive(b.created@);
    }
}

/// The containers tab lists every container once for each time it was
/// read, newest first: no row is newer than a row listed ahead of it.
pub proof fn law_newest_first(v: Seq<ContainerInfo>)
    ensures
        newest_first(v).to_multiset() == v.to_multiset(),
        rows_newest_first(newest_first(v)),
    decreases v.len(),
{
    if v.len() > 0 {
        let s = newest_first(v.drop_last());
        let x = v.last();
        law_newest_first(v.drop_last());
        lemma_newest_at(s, x);
        let p = newest_at(s, x);
        let t = s.insert(p, x);
        assert forall|i: int, j: int| 0 <= i < j < t.len() implies !newer(
            #[trigger] t[j],
            #[trigger] t[i],
        ) by {
            if j < p {
                assert(t[i] == s[i] && t[j] == s[j]);
            } else if j == p {
                assert(t[i] == s[i]);
            } else if i == p {
                assert(t[j] == s[j - 1]);
                lemma_newer_strict(s[j - 1], x, s[p]);
                if j - 1 > p {
                    assert(!newer(s[j - 1], s[p]));
                }
            } else if i < p {
                assert(t[i] == s[i] && t[j] == s[j - 1]);
            } else {
                assert(t[i] == s[i - 1] && t[j] == s[j - 1]);
            }
        }
        vstd::seq_lib::to_multiset_insert(s, p, x);
        vstd::seq_lib::to_multiset_build(v.drop_last(), x);
        assert(v.drop_last().push(x) =~= v);
        assert(newest_first(v).to_multiset() == s.to_multiset().insert(x));
        assert(v.to_multiset() == v.drop_last().to_multiset().insert(x));
    } else {
        assert(v =~= newest_first(v));
    }
}

/// Whether `needle` occurs in `hay`, as `str::contains` finds it; the
/// empty text occurs in every text.
pub open spec fn occurs_in(hay: Seq<char>, needle: Seq<char>) -> bool {
    exists|i: int|
        0 <= i && i + needle.len() <= hay.len() && #[trigger] hay.subrange(i, i + needle.len())
            == needle
}

/// `hay.contains(needle)`.
pub fn text_contains(hay: &str, needle: &str) -> (r: bool)
    ensures
        r == occurs_in(hay@, needle@),
{
    let h = str_chars(hay);
    let n = str_chars(needle);
    if n.len() > h.len() {
        return false;
    }
    let mut i: usize = 0;
    while i <= h.len() - n.len()
        invariant
            h@ == hay@,
            n@ == needle@,
            n.len() <= h.len(),
            i <= h.len() - n.len() + 1,
            forall|k: int| 0 <= k < i ==> #[trigger] h@.subrange(k, k + n@.len()) != n@,
        decreases h.len() - i,
    {
        let mut j: usize = 0;
        while j < n.len() && h[i + j] == n[j]
            invariant
                j <= n.len(),
                i + n.len() <= h.len(),
                forall|m: int| 0 <= m < j ==> h@[i + m] == n@[m],
            decreases n.len() - j,
        {
            j += 1;
        }
        if j == n.len() {
            assert(h@.subrange(i as int, i + n@.len()) =~= n@);
            return true;
        }
        assert(h@.subrange(i as int, i + n@.len())[j as int] != n@[j as int]);
        i += 1;
    }
    false
}

/// The fields of an extension of the marketplace registry the dashboard
/// reads.
#[derive(Debug, Clone)]
pub struct ExtensionRecord {
    pub id: Option<String>,
    pub display_name: Option<String>,
    pub name: Option<String>,
    pub version: Option<String>,
    pub description: Option<String>,
    pub author: Option<String>,
    pub category: Option<String>,
    pub built_in: Option<bool>,
}

/// An extension row as texts.
pub ghost struct ExtensionRow {
    pub id: Seq<char>,
    pub name: Seq<char>,
    pub version: Seq<char>,
    pub description: Seq<char>,
    pub author: Seq<char>,
    pub category: Seq<char>,
    pub built_in: bool,
    pub installed: bool,
}

/// The row of an extension, as texts.
pub open spec fn ext_view(e: MarketplaceExt) -> ExtensionRow {
    ExtensionRow {
        id: e.id@,
        name: e.name@,
        version: e.version@,
        description: e.description@,
        author: e.author@,
        category: e.category@,
        built_in: e.built_in,
        installed: e.installed,
    }
}

/// The rows of extensions, as texts.
pub open spec fn ext_rows(v: Seq<MarketplaceExt>) -> Seq<ExtensionRow> {
    v.map_values(|e: MarketplaceExt| ext_view(e))
}

/// Whether an extension with id `id` counts as installed: some installed
/// directory name occurs in the id, or the id in it.
pub open spec fn installed_as(id: Seq<char>, installed: Seq<Seq<char>>) -> bool {
    exists|k: int|
        0 <= k < installed.len() && (occurs_in(id, #[trigger] installed[k]) || occurs_in(
            installed[k],
            id,
        ))
}

/// The row of a registry entry: its display name, else its name, else its
/// id; version `0.0`, author `Unknown` and category `other` when missing.
pub open spec fn registry_row(r: ExtensionRecord, installed: Seq<Seq<char>>) -> ExtensionRow {
    let id = text_or(r.id, Seq::empty());
    ExtensionRow {
        id,
        name: match r.display_name {
            Some(d) => d@,
            None => text_or(r.name, id),
        },
        version: text_or(r.version, "0.0"@),
        description: text_or(r.description, Seq::empty()),
        author: text_or(r.author, "Unknown"@),
        category: text_or(r.category, "other"@),
        built_in: match r.built_in {
            Some(b) => b,
            None => false,
        },
        installed: installed_as(id, installed),
    }
}

/// The row of an installed extension the registry does not list.
pub open spec fn local_row(id: Seq<char>) -> ExtensionRow {
    ExtensionRow {
        id,
        name: id,
        version: "?"@,
        description: "Local extension"@,
        author: "Local"@,
        category: "other"@,
        built_in: false,
        installed: true,
    }
}

/// The rows after the installed extensions in `ids` were looked at, each
/// added as a local row when no row has its id yet.
pub open spec fn with_locals(rows: Seq<ExtensionRow>, ids: Seq<Seq<char>>) -> Seq<ExtensionRow>
    decreases ids.len(),
{
    if ids.len() == 0 {
        rows
    } else {
        let before = with_locals(rows, ids.drop_last());
        let rid = ids.last();
        if exists|k: int| 0 <= k < before.len() && (#[trigger] before[k]).id == rid {
            before
        } else {
            before.push(local_row(rid))
        }
    }
}

/// The extensions tab: one row per registry entry, in order, then the
/// installed extensions the registry does not list.
pub open spec fn marketplace_rows(registry: Seq<ExtensionRecord>, installed: Seq<Seq<char>>) -> Seq<
    ExtensionRow,
> {
    with_locals(registry.map_values(|r: ExtensionRecord| registry_row(r, installed)), installed)
}

fn is_installed(id: &str, installed: &Vec<String>) -> (r: bool)
    ensures
        r == installed_as(id@, views(installed@)),
{
    let mut k: usize = 0;
    while k < installed.len()
        invariant
            k <= installed.len(),
            forall|m: int| 0 <= m < k ==> !(occurs_in(id@, #[trigger] views(installed@)[m])
                || occurs_in(views(installed@)[m], id@)),
        decreases installed.len() - k,
    {
        if text_contains(id, installed[k].as_str()) || text_contains(installed[k].as_str(), id) {
            assert(views(installed@)[k as int] == installed@[k as int]@);
            return true;
        }
        k += 1;
    }
    false
}

fn registry_row_of(r: &ExtensionRecord, installed: &Vec<String>) -> (e: MarketplaceExt)
    ensures
        ext_view(e) == registry_row(*r, views(installed@)),
{
    let id = string_or(&r.id, "");
    let name = match &r.display_name {
        Some(d) => d.clone(),
        None => string_or(&r.name, id.as_str()),
    };
    let installed_now = is_installed(id.as_str(), installed);
    proof {
        reveal_strlit("");
        assert(""@ =~= Seq::<char>::empty());
    }
    MarketplaceExt {
        name,
        version: string_or(&r.version, "0.0"),
        description: string_or(&r.description, ""),
        author: string_or(&r.author, "Unknown"),
        category: string_or(&r.category, "other"),
        built_in: match r.built_in {
            Some(b) => b,
            None => false,
        },
        installed: installed_now,
        id,
    }
}

/// The rows of the extensions tab.
pub fn marketplace(registry: &Vec<ExtensionRecord>, installed: &Vec<String>) -> (r: Vec<MarketplaceExt>)
    ensures
        ext_rows(r@) == marketplace_rows(registry@, views(installed@)),
{
    let ghost iv = views(installed@);
    let ghost rows0 = registry@.map_values(|x: ExtensionRecord| registry_row(x, iv));
    let mut out: Vec<MarketplaceExt> = Vec::new();
    let mut i: usize = 0;
    while i < registry.len()
        invariant
            i <= registry.len(),
            iv == views(installed@),
            rows0 == registry@.map_values(|x: ExtensionRecord| registry_row(x, iv)),
            ext_rows(out@) == rows0.take(i as int),
            out@.len() == i,
            rows0.len() == registry@.len(),
        decreases registry.len() - i,
    {
        let e = registry_row_of(&registry[i], installed);
        assert(ext_view(e) == rows0[i as int]);
        let ghost before = out@;
        out.push(e);
        assert(out@ == before.push(e));
        assert forall|j: int| 0 <= j < i + 1 implies #[trigger] ext_rows(out@)[j] == rows0.take(i + 1)[j] by {
            assert(ext_rows(out@)[j] == ext_view(out@[j]));
            if j < i {
                assert(out@[j] == before[j]);
                assert(ext_rows(before)[j] == ext_view(before[j]));
                assert(ext_rows(before)[j] == rows0.take(i as int)[j]);
            } else {
                assert(out@[j] == e);
            }
        }
        assert(ext_rows(out@) =~= rows0.take(i + 1));
        i += 1;
    }
    assert(rows0.take(registry.len() as int) =~= rows0);
    let mut k: usize = 0;
    while k < installed.len()
        invariant
            k <= installed.len(),
            iv == views(installed@),
            ext_rows(out@) == with_locals(rows0, iv.take(k as int)),
        decreases installed.len() - k,
    {
        let ghost before = ext_rows(out@);
        assert(iv.take(k + 1).drop_last() =~= iv.take(k as int));
        assert(iv.take(k + 1).last() == installed@[k as int]@);
        let rid = &installed[k];
        let rc = str_chars(rid.as_str());
        let mut found = false;
        let mut m: usize = 0;
        while m < out.len()
            invariant
                m <= out.len(),
                before == ext_rows(out@),
                rc@ == rid@,
                found == exists|q: int| 0 <= q < m && (#[trigger] before[q]).id == rid@,
            decreases out.len() - m,
        {
            let oc = str_chars(out[m].id.as_str());
            if chars_eq(&oc, &rc) {
                assert(before[m as int].id == rid@);
                found = true;
            }
            m += 1;
        }
        if !found {
            let local = MarketplaceExt {
                id: rid.clone(),
                name: rid.clone(),
                version: owned("?"),
                description: owned("Local extension"),
                author: owned("Local"),
                category: owned("other"),
                built_in: false,
                installed: true,
            };
            out.push(local);
            assert(ext_rows(out@) =~= before.push(local_row(rid@)));
        }
        k += 1;
    }
    assert(iv.take(installed.len() as int) =~= iv);
    out
}

/// The fields of an image's manifest the dashboard reads.
#[derive(Debug, Clone)]
pub struct ImageRecord {
    pub id: Option<String>,
    /// The tags, when the manifest has a list of them (an entry that is
    /// not a string reads as the empty text).
    pub tags: Option<Vec<String>>,
    pub created_at: Option<String>,
}

/// Texts joined with `, `.
pub open spec fn join_comma_space(ws: Seq<Seq<char>>) -> Seq<char>
    decreases ws.len(),
{
    if ws.len() == 0 {
        Seq::empty()
    } else if ws.len() == 1 {
        ws[0]
    } else {
        join_comma_space(ws.drop_last()) + ", "@ + ws.last()
    }
}

/// The tags of an image as the images tab shows them: joined with `, `,
/// or `<none>` when the manifest has no list of tags.
pub open spec fn tags_text(tags: Option<Vec<String>>) -> Seq<char> {
    match tags {
        Some(t) => join_comma_space(views(t@)),
        None => "<none>"@,
    }
}

/// The row of an image, given the text of its size.
pub fn image_row(r: &ImageRecord, size: String) -> (i: ImageInfo)
    ensures
        i.id@ == text_or(r.id, "unknown"@),
        i.tags@ == tags_text(r.tags),
        i.size == size,
        i.created@ == text_or(r.created_at, "N/A"@),
{
    let tags = match &r.tags {
        Some(t) => {
            let mut s = String::new();
            let mut k: usize = 0;
            while k < t.len()
                invariant
                    k <= t.len(),
                    s@ == join_comma_space(views(t@).take(k as int)),
                decreases t.len() - k,
            {
                if k > 0 {
                    push_str(&mut s, ", ");
                }
                push_str(&mut s, t[k].as_str());
                proof {
                    let w = views(t@);
                    assert(w.take(k + 1).drop_last() =~= w.take(k as int));
                    if k == 0 {
                        assert(w.take(1) =~= seq![w[0]]);
                    }
                }
                k += 1;
                assert(s@ =~= join_comma_space(views(t@).take(k as int)));
            }
            assert(views(t@).take(t.len() as int) =~= views(t@));
            s
        },
        None => owned("<none>"),
    };
    ImageInfo {
        id: string_or(&r.id, "unknown"),
        tags,
        size,
        created: string_or(&r.created_at, "N/A"),
    }
}

/// The fields of a volume's `config.json` the dashboard reads.
#[derive(Debug, Clone)]
pub struct VolumeRecord {
    pub name: Option<String>,
    pub driver: Option<String>,
    pub mountpoint: Option<String>,
}

/// The row of a volume: `unknown`, `local` and `N/A` for what is missing.
pub fn volume_row(r: &VolumeRecord) -> (v: VolumeInfo)
    ensures
        v.name@ == text_or(r.name, "unknown"@),
        v.driver@ == text_or(r.driver, "local"@),
        v.mountpoint@ == text_or(r.mountpoint, "N/A"@),
{
    VolumeInfo {
        name: string_or(&r.name, "unknown"),
        driver: string_or(&r.driver, "local"),
        mountpoint: string_or(&r.mountpoint, "N/A"),
    }
}

/// The networks tab: the host, none and bridge networks.
pub fn default_networks() -> (r: Vec<NetworkInfo>)
    ensures
        r@.len() == 3,
        r@[0].id@ == "host"@ && r@[0].name@ == "host"@ && r@[0].driver@ == "host"@ && r@[0].subnet@
            == "-"@,
        r@[1].id@ == "none"@ && r@[1].name@ == "none"@ && r@[1].driver@ == "none"@ && r@[1].subnet@
            == "-"@,
        r@[2].id@ == "bridge"@ && r@[2].name@ == "bridge"@ && r@[2].driver@ == "bridge"@
            && r@[2].subnet@ == "172.17.0.0/16"@,
{
    let mut r: Vec<NetworkInfo> = Vec::new();
    r.push(
        NetworkInfo { id: owned("host"), name: owned("host"), driver: owned("host"), subnet: owned("-") },
    );
    r.push(
        NetworkInfo { id: owned("none"), name: owned("none"), driver: owned("none"), subnet: owned("-") },
    );
    r.push(
        NetworkInfo {
            id: owned("bridge"),
            name: owned("bridge"),
            driver: owned("bridge"),
            subnet: owned("172.17.0.0/16"),
        },
    );
    r
}

} // verus!
