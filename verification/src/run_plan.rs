//! How `qcker run` turns its options and the image's defaults into the
//! container to create: process, environment, user, namespaces,
//! capabilities, published ports and bind mounts.

use vstd::prelude::*;
use vstd::utf8::{decode_utf8, is_char_boundary};
use vstd::string::StringSliceAdditionalSpecFns;
use crate::text::{
    chars_eq_str, is_prefix, owned, parse_unsigned, parse_unsigned_chars, push_char, push_owned,
    push_str, push_string, split_once, split_once_chars, str_chars, string_of, views,
};
use crate::types::{MountSpec, MountType, PortForwardSpec, Protocol};
use crate::id::{short_id, short_id_bytes};

verus! {

broadcast use vstd::utf8::encode_utf8_decode_utf8;

/// A namespace a container gets of its own.
#[derive(Debug, Clone, Copy, PartialEq, Eq, Structural)]
pub enum NamespaceKind {
    Pid,
    Mount,
    Uts,
    Ipc,
    Cgroup,
    Network,
    User,
}

/// The options of `qcker run` that shape the container (all but the
/// resource limits and the way the root file system is obtained).
#[derive(Debug, Clone)]
pub struct RunOptions {
    pub command: Vec<String>,
    pub terminal: bool,
    pub workdir: String,
    pub env: Vec<String>,
    pub hostname: Option<String>,
    pub publish: Vec<String>,
    pub volume: Vec<String>,
    pub network: String,
    pub dns: Vec<String>,
    pub read_only: bool,
    pub privileged: bool,
    pub init: bool,
    pub cap_add: Vec<String>,
    pub cap_drop: Vec<String>,
    pub user: Option<String>,
}

/// What the image configures for its containers.
#[derive(Debug, Clone)]
pub struct ImageDefaults {
    pub env: Vec<String>,
    pub cmd: Vec<String>,
    pub workdir: Option<String>,
}

/// The container `qcker run` creates.
#[derive(Debug, Clone)]
pub struct RunPlan {
    pub args: Vec<String>,
    pub env: Vec<String>,
    pub cwd: String,
    pub hostname: String,
    pub uid: u32,
    pub gid: u32,
    pub namespaces: Vec<NamespaceKind>,
    /// The capability set, or `None` to keep the runtime's default.
    pub capabilities: Option<Vec<String>>,
    pub port_mappings: Vec<PortForwardSpec>,
    pub volume_mounts: Vec<MountSpec>,
    pub dns_servers: Vec<String>,
    pub terminal: bool,
    pub read_only_root: bool,
    pub no_new_privileges: bool,
}

/// The search path every container gets.
pub open spec fn default_path_env() -> Seq<char> {
    "PATH=/usr/local/sbin:/usr/local/bin:/usr/sbin:/usr/bin:/sbin:/bin"@
}

/// The DNS servers: those asked for, else Google's public ones.
pub open spec fn dns_list(asked: Seq<Seq<char>>) -> Seq<Seq<char>> {
    if asked.len() == 0 {
        seq!["8.8.8.8"@, "8.8.4.4"@]
    } else {
        asked
    }
}

/// The texts joined with `,` between them.
pub open spec fn join_commas(ws: Seq<Seq<char>>) -> Seq<char>
    decreases ws.len(),
{
    if ws.len() == 0 {
        Seq::empty()
    } else if ws.len() == 1 {
        ws[0]
    } else {
        join_commas(ws.drop_last()) + seq![','] + ws.last()
    }
}

/// The name part of an environment entry: the text before its first `=`.
pub open spec fn env_key(e: Seq<char>) -> Seq<char> {
    split_once(e, '=').0
}

/// Whether some entry of `list` starts with `key`.
pub open spec fn any_prefixed(list: Seq<Seq<char>>, key: Seq<char>) -> bool {
    exists|i: int| 0 <= i < list.len() && is_prefix(key, #[trigger] list[i])
}

/// The user's entries followed by those of the image's entries, in order,
/// whose name no entry so far starts with.
pub open spec fn merge_env(list: Seq<Seq<char>>, image: Seq<Seq<char>>) -> Seq<Seq<char>>
    decreases image.len(),
{
    if image.len() == 0 {
        list
    } else {
        let e = image[0];
        let next = if any_prefixed(list, env_key(e)) { list } else { list.push(e) };
        merge_env(next, image.drop_first())
    }
}

/// The environment of the container: the merged entries, then the search
/// path, then the DNS servers.
pub open spec fn plan_env(user: Seq<Seq<char>>, image: Seq<Seq<char>>, dns: Seq<Seq<char>>) -> Seq<
    Seq<char>,
> {
    merge_env(user, image).push(default_path_env()).push("DNS_SERVERS="@ + join_commas(dns_list(dns)))
}

/// The capabilities a container keeps by default.
pub open spec fn default_caps() -> Seq<Seq<char>> {
    seq![
        "CAP_CHOWN"@,
        "CAP_DAC_OVERRIDE"@,
        "CAP_FOWNER"@,
        "CAP_FSETID"@,
        "CAP_KILL"@,
        "CAP_SETGID"@,
        "CAP_SETUID"@,
        "CAP_SETPCAP"@,
        "CAP_NET_BIND_SERVICE"@,
        "CAP_SYS_CHROOT"@,
        "CAP_MKNOD"@,
        "CAP_AUDIT_WRITE"@,
    ]
}

/// `list` with each entry of `adds` appended unless already present.
pub open spec fn add_caps(list: Seq<Seq<char>>, adds: Seq<Seq<char>>) -> Seq<Seq<char>>
    decreases adds.len(),
{
    if adds.len() == 0 {
        list
    } else {
        let c = adds[0];
        add_caps(if list.contains(c) { list } else { list.push(c) }, adds.drop_first())
    }
}

/// The capability set: all of them when privileged, else the defaults;
/// less the dropped ones; plus the added ones. `None` when nothing was
/// asked for, so that the runtime's default applies.
pub open spec fn plan_caps(privileged: bool, adds: Seq<Seq<char>>, drops: Seq<Seq<char>>) -> Option<
    Seq<Seq<char>>,
> {
    if adds.len() == 0 && drops.len() == 0 && !privileged {
        None
    } else {
        let base = if privileged { seq!["ALL"@] } else { default_caps() };
        Some(add_caps(base.filter(|c: Seq<char>| !drops.contains(c)), adds))
    }
}

/// The namespaces of the container: its own PID, mount, UTS, IPC and
/// cgroup namespaces; a network namespace unless it uses the host
/// network; a user namespace when a user is given.
pub open spec fn plan_namespaces(network: Seq<char>, has_user: bool) -> Seq<NamespaceKind> {
    seq![NamespaceKind::Pid, NamespaceKind::Mount, NamespaceKind::Uts, NamespaceKind::Ipc, NamespaceKind::Cgroup]
        + (if network != "host"@ { seq![NamespaceKind::Network] } else { Seq::empty() })
        + (if has_user { seq![NamespaceKind::User] } else { Seq::empty() })
}

/// The host and guest ports of a `host:guest` text, when both are ports.
pub open spec fn parse_port_pair(p: Seq<char>) -> Option<(u16, u16)> {
    let (a, b) = split_once(p, ':');
    match b {
        Some(b) => match (parse_unsigned(a, 65535), parse_unsigned(b, 65535)) {
            (Some(h), Some(g)) => Some((h as u16, g as u16)),
            _ => None,
        },
        None => None,
    }
}

/// The published ports: the `host:guest` texts that hold two ports, in
/// order; the others are skipped.
pub open spec fn plan_ports(ps: Seq<Seq<char>>) -> Seq<(u16, u16)>
    decreases ps.len(),
{
    if ps.len() == 0 {
        Seq::empty()
    } else {
        let rest = plan_ports(ps.drop_last());
        match parse_port_pair(ps.last()) {
            Some(pair) => rest.push(pair),
            None => rest,
        }
    }
}

/// The bind mounts: the `source:target` texts that hold a `:`, in order,
/// cut at their first `:`; the others are skipped.
pub open spec fn plan_mounts(vs: Seq<Seq<char>>) -> Seq<(Seq<char>, Seq<char>)>
    decreases vs.len(),
{
    if vs.len() == 0 {
        Seq::empty()
    } else {
        let rest = plan_mounts(vs.drop_last());
        match split_once(vs.last(), ':') {
            (a, Some(b)) => rest.push((a, b)),
            (_, None) => rest,
        }
    }
}

/// The user and group ids of a `uid:gid` text; a part that is missing or
/// not a number counts as 0.
pub open spec fn plan_ids(user: Option<Seq<char>>) -> (u32, u32) {
    match user {
        None => (0, 0),
        Some(u) => {
            let (a, b) = split_once(u, ':');
            let uid = match parse_unsigned(a, u32::MAX as nat) {
                Some(v) => v as u32,
                None => 0,
            };
            let gid = match b {
                Some(t) => match parse_unsigned(t, u32::MAX as nat) {
                    Some(v) => v as u32,
                    None => 0,
                },
                None => 0,
            };
            (uid, gid)
        },
    }
}

/// The process: `/sbin/init` before the command when an init is asked
/// for; else the command; else the image's command; else `/bin/sh`.
pub open spec fn plan_args(init: bool, command: Seq<Seq<char>>, image_cmd: Seq<Seq<char>>) -> Seq<
    Seq<char>,
> {
    if init {
        seq!["/sbin/init"@] + command
    } else if command.len() > 0 {
        command
    } else if image_cmd.len() > 0 {
        image_cmd
    } else {
        seq!["/bin/sh"@]
    }
}

/// The working directory: the one asked for unless it is `/`, else the
/// image's, else `/`.
pub open spec fn plan_cwd(workdir: Seq<char>, image_workdir: Option<Seq<char>>) -> Seq<char> {
    if workdir != "/"@ {
        workdir
    } else {
        match image_workdir {
            Some(w) => w,
            None => "/"@,
        }
    }
}

/// The text of an optional string.
pub open spec fn opt_view(o: Option<String>) -> Option<Seq<char>> {
    match o {
        Some(s) => Some(s@),
        None => None,
    }
}

/// The port pairs of port specs.
pub open spec fn port_view(v: Seq<PortForwardSpec>) -> Seq<(u16, u16)> {
    v.map_values(|p: PortForwardSpec| (p.host_port, p.guest_port))
}

/// The (source, target) pairs of mount specs.
pub open spec fn mount_view(v: Seq<MountSpec>) -> Seq<(Seq<char>, Seq<char>)> {
    v.map_values(|m: MountSpec| (m.source@, m.target@))
}

/// Whether some entry of `list` starts with `key`.
fn any_starts_with(list: &Vec<String>, key: &Vec<char>) -> (r: bool)
    ensures
        r == any_prefixed(views(list@), key@),
{
    let mut i: usize = 0;
    while i < list.len()
        invariant
            i <= list.len(),
            forall|j: int| 0 <= j < i ==> !is_prefix(key@, #[trigger] views(list@)[j]),
        decreases list.len() - i,
    {
        let cs = str_chars(list[i].as_str());
        if starts_with_chars(&cs, key) {
            assert(is_prefix(key@, views(list@)[i as int]));
            return true;
        }
        i += 1;
    }
    false
}

/// Whether `s` starts with `p`.
fn starts_with_chars(s: &Vec<char>, p: &Vec<char>) -> (b: bool)
    ensures
        b == is_prefix(p@, s@),
{
    if p.len() > s.len() {
        return false;
    }
    let mut i: usize = 0;
    while i < p.len()
        invariant
            i <= p.len() <= s.len(),
            s@.take(i as int) =~= p@.take(i as int),
        decreases p.len() - i,
    {
        if s[i] != p[i] {
            assert(s@.take(p.len() as int)[i as int] != p@[i as int]);
            return false;
        }
        i += 1;
        assert(s@.take(i as int) =~= p@.take(i as int));
    }
    assert(p@.take(p.len() as int) =~= p@);
    true
}

/// A copy of a vector of strings.
fn copy_strings(v: &Vec<String>) -> (r: Vec<String>)
    ensures
        views(r@) == views(v@),
{
    let mut out: Vec<String> = Vec::new();
    let mut i: usize = 0;
    while i < v.len()
        invariant
            i <= v.len(),
            views(out@) == views(v@).take(i as int),
        decreases v.len() - i,
    {
        push_string(&mut out, v[i].clone());
        i += 1;
        assert(views(out@) =~= views(v@).take(i as int));
    }
    assert(views(v@).take(v.len() as int) =~= views(v@));
    out
}

/// Whether `list` holds `c`.
fn contains_string(list: &Vec<String>, c: &String) -> (r: bool)
    ensures
        r == views(list@).contains(c@),
{
    let mut i: usize = 0;
    while i < list.len()
        invariant
            i <= list.len(),
            forall|j: int| 0 <= j < i ==> #[trigger] views(list@)[j] != c@,
        decreases list.len() - i,
    {
        if list[i].eq(c) {
            assert(views(list@)[i as int] == c@);
            return true;
        }
        i += 1;
    }
    false
}

/// The environment of the container.
pub fn merged_env(user: &Vec<String>, image: &Vec<String>, dns: &Vec<String>) -> (r: Vec<String>)
    ensures
        views(r@) == plan_env(views(user@), views(image@), views(dns@)),
{
    let mut env = copy_strings(user);
    let mut i: usize = 0;
    assert(views(image@).skip(0) =~= views(image@));
    while i < image.len()
        invariant
            i <= image.len(),
            merge_env(views(env@), views(image@).skip(i as int)) == merge_env(views(user@), views(image@)),
        decreases image.len() - i,
    {
        let e = &image[i];
        let ec = str_chars(e.as_str());
        let (key, _) = split_once_chars(&ec, '=');
        let ghost rest = views(image@).skip(i as int);
        assert(rest[0] == e@);
        assert(rest.drop_first() =~= views(image@).skip(i + 1));
        if !any_starts_with(&env, &key) {
            push_string(&mut env, e.clone());
        }
        i += 1;
    }
    assert(views(image@).skip(image.len() as int) =~= Seq::<Seq<char>>::empty());
    push_owned(&mut env, "PATH=/usr/local/sbin:/usr/local/bin:/usr/sbin:/usr/bin:/sbin:/bin");
    let servers = dns_servers(dns);
    let mut d = owned("DNS_SERVERS=");
    let joined = join_with_commas(&servers);
    push_str(&mut d, joined.as_str());
    push_string(&mut env, d);
    env
}

/// The DNS servers.
pub fn dns_servers(dns: &Vec<String>) -> (r: Vec<String>)
    ensures
        views(r@) == dns_list(views(dns@)),
{
    if dns.len() == 0 {
        let mut v: Vec<String> = Vec::new();
        push_owned(&mut v, "8.8.8.8");
        push_owned(&mut v, "8.8.4.4");
        assert(views(v@) =~= seq!["8.8.8.8"@, "8.8.4.4"@]);
        v
    } else {
        copy_strings(dns)
    }
}

/// `words.join(",")`.
pub fn join_with_commas(words: &Vec<String>) -> (r: String)
    ensures
        r@ == join_commas(views(words@)),
{
    let mut r = String::new();
    let mut i: usize = 0;
    while i < words.len()
        invariant
            i <= words.len(),
            r@ == join_commas(views(words@).take(i as int)),
        decreases words.len() - i,
    {
        if i > 0 {
            push_char(&mut r, ',');
        }
        push_str(&mut r, words[i].as_str());
        proof {
            let w = views(words@);
            assert(w.take(i + 1).drop_last() =~= w.take(i as int));
            if i == 0 {
                assert(w.take(1) =~= seq![w[0]]);
            }
        }
        i += 1;
        assert(r@ =~= join_commas(views(words@).take(i as int)));
    }
    assert(views(words@).take(words.len() as int) =~= views(words@));
    r
}

/// The capability set, or `None` for the runtime's default.
pub fn capability_set(privileged: bool, adds: &Vec<String>, drops: &Vec<String>) -> (r: Option<
    Vec<String>,
>)
    ensures
        r matches Some(v) ==> plan_caps(privileged, views(adds@), views(drops@)) == Some(views(v@)),
        r is None ==> plan_caps(privileged, views(adds@), views(drops@)) is None,
{
    if adds.len() == 0 && drops.len() == 0 && !privileged {
        return None;
    }
    let mut base: Vec<String> = Vec::new();
    if privileged {
        push_owned(&mut base, "ALL");
        assert(views(base@) =~= seq!["ALL"@]);
    } else {
        push_owned(&mut base, "CAP_CHOWN");
        push_owned(&mut base, "CAP_DAC_OVERRIDE");
        push_owned(&mut base, "CAP_FOWNER");
        push_owned(&mut base, "CAP_FSETID");
        push_owned(&mut base, "CAP_KILL");
        push_owned(&mut base, "CAP_SETGID");
        push_owned(&mut base, "CAP_SETUID");
        push_owned(&mut base, "CAP_SETPCAP");
        push_owned(&mut base, "CAP_NET_BIND_SERVICE");
        push_owned(&mut base, "CAP_SYS_CHROOT");
        push_owned(&mut base, "CAP_MKNOD");
        push_owned(&mut base, "CAP_AUDIT_WRITE");
        assert(views(base@) =~= default_caps());
    }
    let ghost dv = views(drops@);
    let ghost f = |c: Seq<char>| !dv.contains(c);
    let mut kept: Vec<String> = Vec::new();
    let mut i: usize = 0;
    while i < base.len()
        invariant
            i <= base.len(),
            dv == views(drops@),
            f == (|c: Seq<char>| !dv.contains(c)),
            views(kept@) == views(base@).take(i as int).filter(f),
        decreases base.len() - i,
    {
        let ghost bv = views(base@);
        proof { reveal_with_fuel(Seq::<Seq<char>>::filter, 1); }
        assert(bv.take(i + 1).drop_last() =~= bv.take(i as int));
        assert(bv.take(i + 1).last() == bv[i as int]);
        let dropped = contains_string(drops, &base[i]);
        if !dropped {
            push_string(&mut kept, base[i].clone());
        }
        i += 1;
    }
    assert(views(base@).take(base.len() as int) =~= views(base@));
    let mut j: usize = 0;
    let ghost kept0 = views(kept@);
    assert(views(adds@).skip(0) =~= views(adds@));
    while j < adds.len()
        invariant
            j <= adds.len(),
            add_caps(views(kept@), views(adds@).skip(j as int)) == add_caps(kept0, views(adds@)),
        decreases adds.len() - j,
    {
        let ghost rest = views(adds@).skip(j as int);
        assert(rest[0] == adds@[j as int]@);
        assert(rest.drop_first() =~= views(adds@).skip(j + 1));
        if !contains_string(&kept, &adds[j]) {
            push_string(&mut kept, adds[j].clone());
        }
        j += 1;
    }
    assert(views(adds@).skip(adds.len() as int) =~= Seq::<Seq<char>>::empty());
    Some(kept)
}

/// The namespaces of the container.
pub fn build_namespaces(network: &str, has_user: bool) -> (r: Vec<NamespaceKind>)
    ensures
        r@ == plan_namespaces(network@, has_user),
{
    let mut v: Vec<NamespaceKind> = Vec::new();
    v.push(NamespaceKind::Pid);
    v.push(NamespaceKind::Mount);
    v.push(NamespaceKind::Uts);
    v.push(NamespaceKind::Ipc);
    v.push(NamespaceKind::Cgroup);
    let nc = str_chars(network);
    if !chars_eq_str(&nc, "host") {
        v.push(NamespaceKind::Network);
    }
    if has_user {
        v.push(NamespaceKind::User);
    }
    assert(v@ =~= plan_namespaces(network@, has_user));
    v
}

/// The host and guest ports of a `host:guest` text.
pub fn port_pair(p: &str) -> (r: Option<(u16, u16)>)
    ensures
        r == parse_port_pair(p@),
{
    let pc = str_chars(p);
    let (a, b) = split_once_chars(&pc, ':');
    match b {
        Some(b) => {
            let h = parse_unsigned_chars(&a, 65535);
            let g = parse_unsigned_chars(&b, 65535);
            match (h, g) {
                (Some(h), Some(g)) => Some((h as u16, g as u16)),
                _ => None,
            }
        },
        None => None,
    }
}

/// The published ports, forwarded over TCP.
pub fn published_ports(publish: &Vec<String>) -> (r: Vec<PortForwardSpec>)
    ensures
        port_view(r@) == plan_ports(views(publish@)),
        forall|i: int| 0 <= i < r@.len() ==> #[trigger] r@[i].protocol == Protocol::Tcp,
{
    let mut out: Vec<PortForwardSpec> = Vec::new();
    let mut i: usize = 0;
    while i < publish.len()
        invariant
            i <= publish.len(),
            port_view(out@) == plan_ports(views(publish@).take(i as int)),
            forall|k: int| 0 <= k < out@.len() ==> #[trigger] out@[k].protocol == Protocol::Tcp,
        decreases publish.len() - i,
    {
        let ghost pv = views(publish@);
        assert(pv.take(i + 1).drop_last() =~= pv.take(i as int));
        assert(pv.take(i + 1).last() == publish@[i as int]@);
        match port_pair(publish[i].as_str()) {
            Some((h, g)) => {
                out.push(PortForwardSpec { host_port: h, guest_port: g, protocol: Protocol::Tcp });
                assert(port_view(out@) =~= plan_ports(pv.take(i as int)).push((h, g)));
            },
            None => {},
        }
        i += 1;
    }
    assert(views(publish@).take(publish.len() as int) =~= views(publish@));
    out
}

/// The bind mounts, writable.
pub fn volume_mounts(volume: &Vec<String>) -> (r: Vec<MountSpec>)
    ensures
        mount_view(r@) == plan_mounts(views(volume@)),
        forall|i: int| 0 <= i < r@.len() ==> #[trigger] r@[i].mount_type == MountType::Bind
            && !r@[i].read_only,
{
    let mut out: Vec<MountSpec> = Vec::new();
    let mut i: usize = 0;
    while i < volume.len()
        invariant
            i <= volume.len(),
            mount_view(out@) == plan_mounts(views(volume@).take(i as int)),
            forall|k: int| 0 <= k < out@.len() ==> #[trigger] out@[k].mount_type == MountType::Bind
                && !out@[k].read_only,
        decreases volume.len() - i,
    {
        let ghost vv = views(volume@);
        assert(vv.take(i + 1).drop_last() =~= vv.take(i as int));
        assert(vv.take(i + 1).last() == volume@[i as int]@);
        let vc = str_chars(volume[i].as_str());
        let (a, b) = split_once_chars(&vc, ':');
        match b {
            Some(b) => {
                let m = MountSpec {
                    source: string_of(&a),
                    target: string_of(&b),
                    mount_type: MountType::Bind,
                    read_only: false,
                };
                out.push(m);
                assert(mount_view(out@) =~= plan_mounts(vv.take(i as int)).push((a@, b@)));
            },
            None => {},
        }
        i += 1;
    }
    assert(views(volume@).take(volume.len() as int) =~= views(volume@));
    out
}

/// The user and group ids of a `uid:gid` text.
pub fn user_ids(user: &Option<String>) -> (r: (u32, u32))
    ensures
        r == plan_ids(opt_view(*user)),
{
    match user {
        None => (0, 0),
        Some(u) => {
            let uc = str_chars(u.as_str());
            let (a, b) = split_once_chars(&uc, ':');
            let uid = match parse_unsigned_chars(&a, u32::MAX as u64) {
                Some(v) => v as u32,
                None => 0,
            };
            let gid = match b {
                Some(t) => match parse_unsigned_chars(&t, u32::MAX as u64) {
                    Some(v) => v as u32,
                    None => 0,
                },
                None => 0,
            };
            (uid, gid)
        },
    }
}

/// The process arguments.
pub fn process_args(init: bool, command: &Vec<String>, image_cmd: &Vec<String>) -> (r: Vec<String>)
    ensures
        views(r@) == plan_args(init, views(command@), views(image_cmd@)),
{
    if init {
        let mut v: Vec<String> = Vec::new();
        push_owned(&mut v, "/sbin/init");
        let ghost head = views(v@);
        let mut i: usize = 0;
        while i < command.len()
            invariant
                i <= command.len(),
                views(v@) == head + views(command@).take(i as int),
            decreases command.len() - i,
        {
            push_string(&mut v, command[i].clone());
            i += 1;
            assert(views(v@) =~= head + views(command@).take(i as int));
        }
        assert(views(command@).take(command.len() as int) =~= views(command@));
        assert(head =~= seq!["/sbin/init"@]);
        v
    } else if command.len() > 0 {
        copy_strings(command)
    } else if image_cmd.len() > 0 {
        copy_strings(image_cmd)
    } else {
        let mut v: Vec<String> = Vec::new();
        push_owned(&mut v, "/bin/sh");
        assert(views(v@) =~= seq!["/bin/sh"@]);
        v
    }
}

/// The working directory.
pub fn working_dir(workdir: &String, image_workdir: &Option<String>) -> (r: String)
    ensures
        r@ == plan_cwd(workdir@, opt_view(*image_workdir)),
{
    let wc = str_chars(workdir.as_str());
    if !chars_eq_str(&wc, "/") {
        workdir.clone()
    } else {
        match image_workdir {
            Some(w) => w.clone(),
            None => owned("/"),
        }
    }
}

/// The default hostname of a container: the first 12 bytes of its id.
pub fn default_hostname(container_id: &str) -> (r: String)
    requires
        container_id.spec_bytes().len() <= usize::MAX,
        container_id.spec_bytes().len() > 12 ==> is_char_boundary(container_id.spec_bytes(), 12),
    ensures
        r@ == decode_utf8(short_id_bytes(container_id.spec_bytes())),
{
    let s = short_id(container_id);
    owned(s)
}

/// Plans the container `qcker run` creates from `opts`, the image's
/// defaults, and the container's id.
pub fn plan_run(opts: &RunOptions, image: &ImageDefaults, container_id: &str) -> (r: RunPlan)
    requires
        container_id.spec_bytes().len() <= usize::MAX,
        opts.hostname is None && container_id.spec_bytes().len() > 12 ==> is_char_boundary(
            container_id.spec_bytes(),
            12,
        ),
    ensures
        views(r.args@) == plan_args(opts.init, views(opts.command@), views(image.cmd@)),
        views(r.env@) == plan_env(views(opts.env@), views(image.env@), views(opts.dns@)),
        r.cwd@ == plan_cwd(opts.workdir@, opt_view(image.workdir)),
        r.hostname@ == match opts.hostname {
            Some(h) => h@,
            None => decode_utf8(short_id_bytes(container_id.spec_bytes())),
        },
        (r.uid, r.gid) == plan_ids(opt_view(opts.user)),
        r.namespaces@ == plan_namespaces(opts.network@, opts.user is Some),
        match r.capabilities {
            Some(v) => plan_caps(opts.privileged, views(opts.cap_add@), views(opts.cap_drop@)) == Some(
                views(v@),
            ),
            None => plan_caps(opts.privileged, views(opts.cap_add@), views(opts.cap_drop@)) is None,
        },
        port_view(r.port_mappings@) == plan_ports(views(opts.publish@)),
        forall|i: int| 0 <= i < r.port_mappings@.len() ==> #[trigger] r.port_mappings@[i].protocol
            == Protocol::Tcp,
        mount_view(r.volume_mounts@) == plan_mounts(views(opts.volume@)),
        forall|i: int| 0 <= i < r.volume_mounts@.len() ==> #[trigger] r.volume_mounts@[i].mount_type
            == MountType::Bind && !r.volume_mounts@[i].read_only,
        views(r.dns_servers@) == dns_list(views(opts.dns@)),
        r.terminal == opts.terminal,
        r.read_only_root == opts.read_only,
        r.no_new_privileges == !opts.privileged,
{
    let hostname = match &opts.hostname {
        Some(h) => h.clone(),
        None => default_hostname(container_id),
    };
    RunPlan {
        args: process_args(opts.init, &opts.command, &image.cmd),
        env: merged_env(&opts.env, &image.env, &opts.dns),
        cwd: working_dir(&opts.workdir, &image.workdir),
        hostname,
        uid: user_ids(&opts.user).0,
        gid: user_ids(&opts.user).1,
        namespaces: build_namespaces(opts.network.as_str(), opts.user.is_some()),
        capabilities: capability_set(opts.privileged, &opts.cap_add, &opts.cap_drop),
        port_mappings: published_ports(&opts.publish),
        volume_mounts: volume_mounts(&opts.volume),
        dns_servers: dns_servers(&opts.dns),
        terminal: opts.terminal,
        read_only_root: opts.read_only,
        no_new_privileges: !opts.privileged,
    }
}

proof fn lemma_merge_env_keeps(list: Seq<Seq<char>>, image: Seq<Seq<char>>)
    ensures
        merge_env(list, image).len() >= list.len(),
        forall|i: int| 0 <= i < list.len() ==> #[trigger] merge_env(list, image)[i] == list[i],
    decreases image.len(),
{
    if image.len() > 0 {
        let e = image[0];
        let next = if any_prefixed(list, env_key(e)) { list } else { list.push(e) };
        lemma_merge_env_keeps(next, image.drop_first());
        assert forall|i: int| 0 <= i < list.len() implies #[trigger] merge_env(list, image)[i]
            == list[i] by {
            assert(next[i] == list[i]);
        }
    }
}

/// The environment of a container holds the user's entries first, all of
/// them and in their order, and ends with the search path followed by the
/// DNS servers.
pub proof fn law_user_env_first(user: Seq<Seq<char>>, image: Seq<Seq<char>>, dns: Seq<Seq<char>>)
    ensures
        plan_env(user, image, dns).len() >= user.len() + 2,
        forall|i: int| 0 <= i < user.len() ==> #[trigger] plan_env(user, image, dns)[i] == user[i],
        plan_env(user, image, dns)[plan_env(user, image, dns).len() - 2] == default_path_env(),
        plan_env(user, image, dns).last() == "DNS_SERVERS="@ + join_commas(dns_list(dns)),
{
    lemma_merge_env_keeps(user, image);
    let m = merge_env(user, image);
    assert forall|i: int| 0 <= i < user.len() implies #[trigger] plan_env(user, image, dns)[i]
        == user[i] by {
        assert(plan_env(user, image, dns)[i] == m[i]);
    }
}

proof fn lemma_add_caps_contains(list: Seq<Seq<char>>, adds: Seq<Seq<char>>, c: Seq<char>)
    ensures
        add_caps(list, adds).contains(c) <==> (list.contains(c) || adds.contains(c)),
    decreases adds.len(),
{
    if adds.len() > 0 {
        let a = adds[0];
        let next = if list.contains(a) { list } else { list.push(a) };
        lemma_add_caps_contains(next, adds.drop_first(), c);
        if list.contains(c) {
            let k = choose|k: int| 0 <= k < list.len() && list[k] == c;
            assert(next[k] == c);
        }
        if next.contains(c) && !list.contains(c) {
            let k = choose|k: int| 0 <= k < next.len() && next[k] == c;
            assert(k == list.len());
            assert(adds[0] == c);
        }
        if adds.drop_first().contains(c) {
            let k = choose|k: int| 0 <= k < adds.len() - 1 && adds.drop_first()[k] == c;
            assert(adds[k + 1] == c);
        }
        if adds.contains(c) && c != a {
            let k = choose|k: int| 0 <= k < adds.len() && adds[k] == c;
            assert(adds.drop_first()[k - 1] == c);
        }
        if c == a {
            assert(list.contains(c) || next[list.len() as int] == c);
        }
    }
}

/// When a capability set is written out (it is unless nothing was added,
/// nothing dropped and the container is not privileged), every added
/// capability is in it, a dropped one that was not added again is not, and
/// a default one that was not dropped stays.
pub proof fn law_capability_set(privileged: bool, adds: Seq<Seq<char>>, drops: Seq<Seq<char>>, c: Seq<char>)
    ensures
        plan_caps(privileged, adds, drops) is None <==> (adds.len() == 0 && drops.len() == 0
            && !privileged),
        plan_caps(privileged, adds, drops) is Some && adds.contains(c) ==> plan_caps(
            privileged,
            adds,
            drops,
        )->0.contains(c),
        plan_caps(privileged, adds, drops) is Some && drops.contains(c) && !adds.contains(c)
            ==> !plan_caps(privileged, adds, drops)->0.contains(c),
        plan_caps(privileged, adds, drops) is Some && !privileged && default_caps().contains(c)
            && !drops.contains(c) ==> plan_caps(privileged, adds, drops)->0.contains(c),
{
    if plan_caps(privileged, adds, drops) is Some {
        let base = if privileged { seq!["ALL"@] } else { default_caps() };
        let f = |x: Seq<char>| !drops.contains(x);
        let kept = base.filter(f);
        lemma_add_caps_contains(kept, adds, c);
        base.filter_lemma(f);
        if kept.contains(c) {
            let k = choose|k: int| 0 <= k < kept.len() && kept[k] == c;
            assert(f(kept[k]));
        }
        if base.contains(c) && f(c) {
            let k = choose|k: int| 0 <= k < base.len() && base[k] == c;
            base.lemma_filter_contains(f, k);
        }
    }
}

/// Every container gets its own PID, mount, UTS, IPC and cgroup
/// namespaces; its own network namespace unless it shares the host's
/// network; and a user namespace exactly when it runs as a given user.
pub proof fn law_namespace_isolation(network: Seq<char>, has_user: bool)
    ensures
        plan_namespaces(network, has_user).contains(NamespaceKind::Pid),
        plan_namespaces(network, has_user).contains(NamespaceKind::Mount),
        plan_namespaces(network, has_user).contains(NamespaceKind::Uts),
        plan_namespaces(network, has_user).contains(NamespaceKind::Ipc),
        plan_namespaces(network, has_user).contains(NamespaceKind::Cgroup),
        plan_namespaces(network, has_user).contains(NamespaceKind::Network) <==> network != "host"@,
        plan_namespaces(network, has_user).contains(NamespaceKind::User) <==> has_user,
{
    let ns = plan_namespaces(network, has_user);
    assert(ns[0] == NamespaceKind::Pid);
    assert(ns[1] == NamespaceKind::Mount);
    assert(ns[2] == NamespaceKind::Uts);
    assert(ns[3] == NamespaceKind::Ipc);
    assert(ns[4] == NamespaceKind::Cgroup);
    if network != "host"@ {
        assert(ns[5] == NamespaceKind::Network);
    }
    if has_user {
        assert(ns[ns.len() - 1] == NamespaceKind::User);
    }
    if ns.contains(NamespaceKind::Network) {
        let k = choose|k: int| 0 <= k < ns.len() && ns[k] == NamespaceKind::Network;
        assert(network != "host"@);
    }
    if ns.contains(NamespaceKind::User) {
        let k = choose|k: int| 0 <= k < ns.len() && ns[k] == NamespaceKind::User;
        assert(has_user);
    }
}

/// Where a container's root file system comes from: a directory given as
/// it is, or an image to unpack.
#[derive(Debug)]
pub enum RootSource<P> {
    Rootfs(P),
    Image(String),
}

/// The text of the refusal when neither a root file system nor an image is
/// named.
pub open spec fn no_source_text() -> Seq<char> {
    "Either --rootfs or --image must be specified"@
}

/// Where `qcker run` takes the root file system from: the directory given
/// with `--rootfs` when there is one, else the image given with `--image`;
/// refused when neither is given.
pub fn root_source<P>(rootfs: Option<P>, image: Option<String>) -> (r: Result<RootSource<P>, String>)
    ensures
        rootfs matches Some(p) ==> (r matches Ok(RootSource::Rootfs(q)) && q == p),
        rootfs is None ==> (image matches Some(i) ==> (r matches Ok(RootSource::Image(j)) && j == i)),
        rootfs is None && image is None ==> (r matches Err(m) && m@ == no_source_text()),
{
    match rootfs {
        Some(p) => Ok(RootSource::Rootfs(p)),
        None => match image {
            Some(i) => Ok(RootSource::Image(i)),
            None => Err(owned("Either --rootfs or --image must be specified")),
        },
    }
}


/// What a container runs: without an init process, a command given on the
/// command line is run exactly as given, whatever the image's own command;
/// the image's command is run only when none is given, and a shell when
/// neither is. With an init process, init runs first, followed by the
/// given command.
pub proof fn law_user_command_wins(command: Seq<Seq<char>>, image_cmd: Seq<Seq<char>>)
    ensures
        command.len() > 0 ==> plan_args(false, command, image_cmd) == command,
        command.len() == 0 && image_cmd.len() > 0 ==> plan_args(false, command, image_cmd)
            == image_cmd,
        command.len() == 0 && image_cmd.len() == 0 ==> plan_args(false, command, image_cmd)
            == seq!["/bin/sh"@],
        plan_args(true, command, image_cmd).len() == command.len() + 1,
        plan_args(true, command, image_cmd)[0] == "/sbin/init"@,
        plan_args(true, command, image_cmd).drop_first() == command,
{
    assert((seq!["/sbin/init"@] + command).drop_first() =~= command);
}

} // verus!
