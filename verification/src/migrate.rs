//! `qcker migrate`: reading what a Docker container is made of (as a small
//! helper script prints it, one tagged line per fact) and the `qcker run`
//! command that recreates it.

use vstd::prelude::*;
use crate::text::{
    is_prefix, join_with_spaces, join_words, owned, push_owned, push_str, push_string, split_lines, split_ws, starts_with,
    str_chars, string_of, sub_chars, text_lines, views, ws_pieces,
};

verus! {

/// The options of `qcker migrate`.
#[derive(Debug, Clone)]
pub struct MigrateArgs {
    pub container_id: String,
    pub name: Option<String>,
    pub format: Option<String>,
}

/// What a Docker container is made of.
#[derive(Debug, Clone)]
pub struct DockerDetails {
    pub image: String,
    pub command: String,
    pub env_vars: Vec<String>,
    pub mounts: Vec<String>,
    pub ports: Vec<String>,
    pub hostname: String,
}

/// [`DockerDetails`] with its texts as character sequences.
#[verifier::ext_equal]
pub ghost struct DetailsView {
    pub image: Seq<char>,
    pub command: Seq<char>,
    pub env_vars: Seq<Seq<char>>,
    pub mounts: Seq<Seq<char>>,
    pub ports: Seq<Seq<char>>,
    pub hostname: Seq<char>,
}

impl View for DockerDetails {
    type V = DetailsView;

    open spec fn view(&self) -> DetailsView {
        DetailsView {
            image: self.image@,
            command: self.command@,
            env_vars: views(self.env_vars@),
            mounts: views(self.mounts@),
            ports: views(self.ports@),
            hostname: self.hostname@,
        }
    }
}

/// Nothing known yet.
pub open spec fn no_details() -> DetailsView {
    DetailsView {
        image: Seq::empty(),
        command: Seq::empty(),
        env_vars: Seq::empty(),
        mounts: Seq::empty(),
        ports: Seq::empty(),
        hostname: Seq::empty(),
    }
}

/// What one line of the helper's output adds: `IMAGE:`, `CMD:` and
/// `HOSTNAME:` set the image, command and hostname (a later line wins);
/// `ENV:`, `MOUNT:` and `PORT:` add an entry; other lines add nothing.
pub open spec fn read_detail(d: DetailsView, line: Seq<char>) -> DetailsView {
    if is_prefix("IMAGE:"@, line) {
        DetailsView { image: line.skip(6), ..d }
    } else if is_prefix("CMD:"@, line) {
        DetailsView { command: line.skip(4), ..d }
    } else if is_prefix("HOSTNAME:"@, line) {
        DetailsView { hostname: line.skip(9), ..d }
    } else if is_prefix("ENV:"@, line) {
        DetailsView { env_vars: d.env_vars.push(line.skip(4)), ..d }
    } else if is_prefix("MOUNT:"@, line) {
        DetailsView { mounts: d.mounts.push(line.skip(6)), ..d }
    } else if is_prefix("PORT:"@, line) {
        DetailsView { ports: d.ports.push(line.skip(5)), ..d }
    } else {
        d
    }
}

/// What the lines tell, read in order.
pub open spec fn read_details(lines: Seq<Seq<char>>) -> DetailsView
    decreases lines.len(),
{
    if lines.len() == 0 {
        no_details()
    } else {
        read_detail(read_details(lines.drop_last()), lines.last())
    }
}

/// The details the helper's output `out` tells.
pub fn details_from_output(out: &str) -> (r: DockerDetails)
    ensures
        r@ == read_details(text_lines(out@)),
{
    let cs = str_chars(out);
    let lines = split_lines(&cs);
    let mut d = DockerDetails {
        image: String::new(),
        command: String::new(),
        env_vars: Vec::new(),
        mounts: Vec::new(),
        ports: Vec::new(),
        hostname: String::new(),
    };
    assert(views(d.env_vars@) =~= Seq::<Seq<char>>::empty());
    assert(views(d.mounts@) =~= Seq::<Seq<char>>::empty());
    assert(views(d.ports@) =~= Seq::<Seq<char>>::empty());
    assert(d@ =~= no_details());
    let mut i: usize = 0;
    while i < lines.len()
        invariant
            i <= lines.len(),
            lines.deep_view() == text_lines(out@),
            d@ == read_details(lines.deep_view().take(i as int)),
        decreases lines.len() - i,
    {
        let line = &lines[i];
        proof {
            assert(line.deep_view() =~= line@);
            assert(lines.deep_view().take(i + 1).drop_last() =~= lines.deep_view().take(i as int));
            assert(lines.deep_view().take(i + 1).last() == line@);
        }
        let ghost before = d@;
        proof {
            reveal_strlit("IMAGE:");
            reveal_strlit("CMD:");
            reveal_strlit("HOSTNAME:");
            reveal_strlit("ENV:");
            reveal_strlit("MOUNT:");
            reveal_strlit("PORT:");
        }
        if starts_with(line, "IMAGE:") {
            d.image = string_of(&sub_chars(line, 6, line.len()));
        } else if starts_with(line, "CMD:") {
            d.command = string_of(&sub_chars(line, 4, line.len()));
        } else if starts_with(line, "HOSTNAME:") {
            d.hostname = string_of(&sub_chars(line, 9, line.len()));
        } else if starts_with(line, "ENV:") {
            push_string(&mut d.env_vars, string_of(&sub_chars(line, 4, line.len())));
        } else if starts_with(line, "MOUNT:") {
            push_string(&mut d.mounts, string_of(&sub_chars(line, 6, line.len())));
        } else if starts_with(line, "PORT:") {
            push_string(&mut d.ports, string_of(&sub_chars(line, 5, line.len())));
        }
        assert(d@ =~= read_detail(before, line@));
        i += 1;
    }
    assert(lines.deep_view().take(lines.len() as int) =~= lines.deep_view());
    d
}

/// `flag` before each of the values.
pub open spec fn flagged(flag: Seq<char>, values: Seq<Seq<char>>) -> Seq<Seq<char>>
    decreases values.len(),
{
    if values.len() == 0 {
        Seq::empty()
    } else {
        flagged(flag, values.drop_last()) + seq![flag, values.last()]
    }
}

/// The arguments of the `qcker run` that recreates the container: its
/// name when one is given, its environment, mounts and ports, its
/// hostname when it has one, its image, and the words of its command or
/// `/bin/sh`.
pub open spec fn migration_args(name: Option<Seq<char>>, d: DetailsView) -> Seq<Seq<char>> {
    seq!["run"@] + (match name {
        Some(n) => seq!["--name"@, n],
        None => Seq::empty(),
    }) + flagged("-e"@, d.env_vars) + flagged("-v"@, d.mounts) + flagged("-p"@, d.ports) + (
    if d.hostname.len() > 0 {
        seq!["--hostname"@, d.hostname]
    } else {
        Seq::empty()
    }) + seq![d.image] + (if d.command.len() > 0 {
        ws_pieces(d.command)
    } else {
        seq!["/bin/sh"@]
    })
}

fn push_flagged(out: &mut Vec<String>, flag: &str, values: &Vec<String>)
    ensures
        views(final(out)@) == views(old(out)@) + flagged(flag@, views(values@)),
{
    let ghost start = views(out@);
    let mut i: usize = 0;
    while i < values.len()
        invariant
            i <= values.len(),
            views(out@) == start + flagged(flag@, views(values@).take(i as int)),
        decreases values.len() - i,
    {
        push_owned(out, flag);
        push_string(out, values[i].clone());
        proof {
            let vs = views(values@);
            assert(vs.take(i + 1).drop_last() =~= vs.take(i as int));
            assert(vs.take(i + 1).last() == values@[i as int]@);
        }
        i += 1;
        assert(views(out@) =~= start + flagged(flag@, views(values@).take(i as int)));
    }
    assert(views(values@).take(values.len() as int) =~= views(values@));
}

/// The arguments of the `qcker run` that recreates the container.
pub fn migration_command(name: &Option<String>, d: &DockerDetails) -> (r: Vec<String>)
    ensures
        views(r@) == migration_args(
            match name {
                Some(n) => Some(n@),
                None => None,
            },
            d@,
        ),
{
    let mut r: Vec<String> = Vec::new();
    push_owned(&mut r, "run");
    match name {
        Some(n) => {
            push_owned(&mut r, "--name");
            push_string(&mut r, n.clone());
        },
        None => {},
    }
    push_flagged(&mut r, "-e", &d.env_vars);
    push_flagged(&mut r, "-v", &d.mounts);
    push_flagged(&mut r, "-p", &d.ports);
    if !d.hostname.as_str().is_empty() {
        push_owned(&mut r, "--hostname");
        push_string(&mut r, d.hostname.clone());
    }
    push_string(&mut r, d.image.clone());
    let ghost head = views(r@);
    if !d.command.as_str().is_empty() {
        let cs = str_chars(d.command.as_str());
        let words = split_ws(&cs);
        let mut i: usize = 0;
        while i < words.len()
            invariant
                i <= words.len(),
                words.deep_view() == ws_pieces(d.command@),
                views(r@) == head + words.deep_view().take(i as int),
            decreases words.len() - i,
        {
            proof { assert(words@[i as int].deep_view() =~= words@[i as int]@); }
            push_string(&mut r, string_of(&words[i]));
            i += 1;
            assert(views(r@) =~= head + words.deep_view().take(i as int));
        }
        assert(words.deep_view().take(words.len() as int) =~= words.deep_view());
    } else {
        push_owned(&mut r, "/bin/sh");
    }
    let ghost nv = match name {
        Some(n) => Some(n@),
        None => None,
    };
    assert(views(r@) =~= migration_args(nv, d@));
    r
}

/// The name of the migrated container: the one asked for, else
/// `migrated-<id>`.
pub fn target_name(args: &MigrateArgs) -> (r: String)
    ensures
        r@ == match args.name {
            Some(n) => n@,
            None => "migrated-"@ + args.container_id@,
        },
{
    match &args.name {
        Some(n) => n.clone(),
        None => {
            let mut s = owned("migrated-");
            push_str(&mut s, args.container_id.as_str());
            s
        },
    }
}

/// The output format: the one given to `migrate`, else the global one.
pub fn output_format(args: &MigrateArgs, global: &str) -> (r: String)
    ensures
        r@ == match args.format {
            Some(f) => f@,
            None => global@,
        },
{
    match &args.format {
        Some(f) => f.clone(),
        None => owned(global),
    }
}

/// The steps that finish a migration, as the JSON report lists them.
pub open spec fn migration_steps(image: Seq<char>, command: Seq<Seq<char>>, name: Seq<char>) -> Seq<
    Seq<char>,
> {
    seq![
        "Run: qcker pull "@ + image,
        "Run: qcker "@ + join_words(command.skip(1)),
        "Verify: qcker ps"@,
        "Check logs: qcker logs "@ + name,
    ]
}

/// The steps that finish a migration.
pub fn migration_instructions(image: &str, command: &Vec<String>, name: &str) -> (r: Vec<String>)
    requires
        command@.len() >= 1,
    ensures
        views(r@) == migration_steps(image@, views(command@), name@),
{
    let mut rest: Vec<String> = Vec::new();
    let mut i: usize = 1;
    while i < command.len()
        invariant
            1 <= i <= command.len(),
            views(rest@) == views(command@).subrange(1, i as int),
        decreases command.len() - i,
    {
        push_string(&mut rest, command[i].clone());
        i += 1;
        assert(views(rest@) =~= views(command@).subrange(1, i as int));
    }
    assert(views(command@).subrange(1, command.len() as int) =~= views(command@).skip(1));
    let mut r: Vec<String> = Vec::new();
    let mut a = owned("Run: qcker pull ");
    push_str(&mut a, image);
    push_string(&mut r, a);
    let mut b = owned("Run: qcker ");
    let joined = join_with_spaces(&rest);
    push_str(&mut b, joined.as_str());
    push_string(&mut r, b);
    push_owned(&mut r, "Verify: qcker ps");
    let mut c = owned("Check logs: qcker logs ");
    push_str(&mut c, name);
    push_string(&mut r, c);
    assert(views(r@) =~= migration_steps(image@, views(command@), name@));
    r
}

} // verus!
