use vstd::prelude::*;

use crate::text::{
    lacks, lines, lines_spec, piece_at, piece_or_empty, splitn, splitn_spec, str_equal,
    byte_len, chars_for_bytes, chars_in_bytes, chars_of, is_boundary, lemma_byte_len_over,
    views,
};

pub mod git;
pub mod hg;
pub mod plastic;

verus! {

/// What a backend operation gives: its value, or the text of the error.
pub type BackendResult<T> = Result<T, String>;

/// The state of a file in a working copy or a revision.
#[derive(Clone, Debug, PartialEq, Eq, PartialOrd, Ord)]
pub enum FileStatus {
    Modified,
    Added,
    Deleted,
    Renamed,
    Untracked,
    Copied,
    Unmerged,
    Missing,
    Ignored,
    Clean,
    Unknown(String),
}

/// The text that names a status; an unknown status is shown by its first `max_len` bytes.
pub open spec fn status_text(status: FileStatus) -> Seq<char> {
    match status {
        FileStatus::Modified => "modified"@,
        FileStatus::Added => "added"@,
        FileStatus::Deleted => "deleted"@,
        FileStatus::Renamed => "renamed"@,
        FileStatus::Untracked => "untracked"@,
        FileStatus::Copied => "copied"@,
        FileStatus::Unmerged => "unmerged"@,
        FileStatus::Missing => "missing"@,
        FileStatus::Ignored => "ignored"@,
        FileStatus::Clean => "clean"@,
        FileStatus::Unknown(s) => if byte_len(s@) > 9 {
            s@.take(chars_in_bytes(s@, 9))
        } else {
            s@
        },
    }
}

/// Whether the status can be shown: an unknown status longer than `max_len` bytes must have a
/// character boundary at that byte.
pub open spec fn status_showable(status: FileStatus) -> bool {
    match status {
        FileStatus::Unknown(s) => byte_len(s@) > 9 ==> is_boundary(s@, 9),
        _ => true,
    }
}

impl FileStatus {
    /// The widest status name, in bytes.
    pub fn max_len() -> (res: usize)
        ensures
            res == 9,
    {
        9
    }

    /// The name of the status.
    pub fn as_str(&self) -> (res: &str)
        requires
            status_showable(*self),
        ensures
            res@ == status_text(*self),
    {
        match self {
            FileStatus::Modified => "modified",
            FileStatus::Added => "added",
            FileStatus::Deleted => "deleted",
            FileStatus::Renamed => "renamed",
            FileStatus::Untracked => "untracked",
            FileStatus::Copied => "copied",
            FileStatus::Unmerged => "unmerged",
            FileStatus::Missing => "missing",
            FileStatus::Ignored => "ignored",
            FileStatus::Clean => "clean",
            FileStatus::Unknown(status) => {
                let c = chars_of(status.as_str());
                let max = Self::max_len();
                match chars_for_bytes(&c, 0, c.len(), max) {
                    Some(k) => {
                        proof {
                            assert(c@.subrange(0, c@.len() as int) == c@);
                            lemma_byte_len_over(c@, k as int);
                        }
                        if k < c.len() {
                            status.as_str().substring_char(0, k)
                        } else {
                            status.as_str()
                        }
                    },
                    None => {
                        assert(c@.subrange(0, c@.len() as int) == c@);
                        status.as_str()
                    },
                }
            },
        }
    }
}

/// The header of a working copy and its changed files.
pub struct StatusInfo {
    pub header: String,
    pub entries: Vec<RevisionEntry>,
}

/// The message of a revision and the files it changed.
pub struct RevisionInfo {
    pub message: String,
    pub entries: Vec<RevisionEntry>,
}

/// A changed file, and whether the user selected it.
#[derive(Clone)]
pub struct RevisionEntry {
    pub selected: bool,
    pub name: String,
    pub status: FileStatus,
}

/// A file entry as plain values: selected, name, status.
pub open spec fn entry_view(e: RevisionEntry) -> (bool, Seq<char>, FileStatus) {
    (e.selected, e.name@, e.status)
}

/// The entries as plain values.
pub open spec fn entries_view(v: Seq<RevisionEntry>) -> Seq<(bool, Seq<char>, FileStatus)> {
    v.map_values(|e: RevisionEntry| entry_view(e))
}

impl RevisionEntry {
    /// A file entry that is not selected.
    pub fn new(name: String, status: FileStatus) -> (res: Self)
        ensures
            res.selected == false,
            res.name == name,
            res.status == status,
    {
        RevisionEntry { selected: false, name, status }
    }
}

/// One line of a revision log.
pub struct LogEntry {
    pub graph: String,
    pub hash: String,
    pub date: String,
    pub author: String,
    pub refs: String,
    pub message: String,
}

/// A log entry as plain values: graph, hash, date, author, refs, message.
pub open spec fn log_view(e: LogEntry) -> Seq<Seq<char>> {
    seq![e.graph@, e.hash@, e.date@, e.author@, e.refs@, e.message@]
}

/// The log entries as plain values.
pub open spec fn logs_view(v: Seq<LogEntry>) -> Seq<Seq<Seq<char>>> {
    v.map_values(|e: LogEntry| log_view(e))
}

/// A branch, and whether it is checked out.
#[derive(Clone)]
pub struct BranchEntry {
    pub name: String,
    pub upstream_name: String,
    pub tracking_status: String,
    pub checked_out: bool,
}

/// A tag.
#[derive(Clone)]
pub struct TagEntry {
    pub name: String,
}

/// One process to run: the program and its arguments.
pub struct ProcessCommand {
    pub program: String,
    pub args: Vec<String>,
}

/// A command as plain values: the program and its arguments.
pub open spec fn command_view(c: ProcessCommand) -> (Seq<char>, Seq<Seq<char>>) {
    (c.program@, views(c.args@))
}

/// The commands as plain values.
pub open spec fn commands_view(v: Seq<ProcessCommand>) -> Seq<(Seq<char>, Seq<Seq<char>>)> {
    v.map_values(|c: ProcessCommand| command_view(c))
}

/// Work for the process runner: stages run one after the other; all commands of a stage are
/// started in order and then waited for in order, and the first failure ends the plan.
pub struct ProcessPlan {
    pub stages: Vec<Vec<ProcessCommand>>,
}

/// A plan as plain values.
pub open spec fn plan_view(p: ProcessPlan) -> Seq<Seq<(Seq<char>, Seq<Seq<char>>)>> {
    p.stages@.map_values(|s: Vec<ProcessCommand>| commands_view(s@))
}

/// A command made of `program` and `args`.
pub fn command(program: &str, args: Vec<String>) -> (res: ProcessCommand)
    ensures
        res.program@ == program@,
        res.args@ == args@,
{
    ProcessCommand { program: program.to_owned(), args }
}

/// A plan that runs the commands one after the other.
pub fn serial_plan(commands: Vec<ProcessCommand>) -> (res: ProcessPlan)
    ensures
        plan_view(res) == Seq::new(
            commands@.len(),
            |i: int| seq![command_view(commands@[i])],
        ),
{
    let ghost all = commands@;
    let mut commands = commands;
    let mut stages: Vec<Vec<ProcessCommand>> = Vec::new();
    while commands.len() > 0
        invariant
            stages@.len() + commands@.len() == all.len(),
            commands@ == all.skip(stages@.len() as int),
            forall|i: int|
                0 <= i < stages@.len() ==> (#[trigger] stages@[i])@ == seq![all[i]],
        decreases commands.len(),
    {
        let c = commands.remove(0);
        let mut stage = Vec::new();
        stage.push(c);
        stages.push(stage);
        assert(commands@ == all.skip(stages@.len() as int));
    }
    let res = ProcessPlan { stages };
    assert(plan_view(res) =~= Seq::new(all.len(), |i: int| seq![command_view(all[i])])) by {
        assert forall|i: int| 0 <= i < all.len() implies plan_view(res)[i] == seq![
            command_view(all[i]),
        ] by {
            assert(res.stages@[i]@ == seq![all[i]]);
            assert(commands_view(res.stages@[i]@) =~= seq![command_view(all[i])]);
        }
    }
    res
}

/// Which version control system a repository is under.
pub enum BackendKind {
    Git(git::Git),
    Hg(hg::Hg),
    Plastic(plastic::Plastic),
}

/// The first repository found, trying Git, then Mercurial, then Plastic SCM: each argument is
/// what probing for that system gave (`try_new`).
pub fn backend_from_current_repository(
    git: Option<(String, git::Git)>,
    hg: Option<(String, hg::Hg)>,
    plastic: Option<(String, plastic::Plastic)>,
) -> (res: Option<(String, BackendKind)>)
    ensures
        match (git, hg, plastic) {
            (Some((g, _)), _, _) => res matches Some((root, BackendKind::Git(_))) && root == g,
            (None, Some((h, _)), _) => res matches Some((root, BackendKind::Hg(_))) && root == h,
            (None, None, Some((p, _))) => res matches Some((root, BackendKind::Plastic(_))) && root
                == p,
            (None, None, None) => res is None,
        },
{
    if let Some((root, g)) = git {
        Some((root, BackendKind::Git(g)))
    } else if let Some((root, h)) = hg {
        Some((root, BackendKind::Hg(h)))
    } else if let Some((root, p)) = plastic {
        Some((root, BackendKind::Plastic(p)))
    } else {
        None
    }
}

/// Owned copies of the strings, in order.
pub fn strings(v: &[&str]) -> (res: Vec<String>)
    ensures
        views(res@) == v@.map_values(|s: &str| s@),
{
    let mut res: Vec<String> = Vec::new();
    let mut i: usize = 0;
    while i < v.len()
        invariant
            i <= v@.len(),
            views(res@) == v@.take(i as int).map_values(|s: &str| s@),
        decreases v.len() - i,
    {
        res.push(v[i].to_owned());
        assert(v@.take(i + 1).map_values(|s: &str| s@) =~= v@.take(i as int).map_values(
            |s: &str| s@,
        ).push(v@[i as int]@));
        i += 1;
    }
    assert(v@.take(v@.len() as int) == v@);
    res
}

/// Which entries a command names, by their status.
#[derive(Clone, Copy)]
pub enum StatusFilter {
    All,
    Untracked,
    Added,
    Unmerged,
    MissingOrDeleted,
    NotUntracked,
    NotUntrackedNorAdded,
}

/// Whether the filter keeps an entry of the given status.
pub open spec fn keeps(f: StatusFilter, status: FileStatus) -> bool {
    match f {
        StatusFilter::All => true,
        StatusFilter::Untracked => status == FileStatus::Untracked,
        StatusFilter::Added => status == FileStatus::Added,
        StatusFilter::Unmerged => status == FileStatus::Unmerged,
        StatusFilter::MissingOrDeleted => status == FileStatus::Missing || status
            == FileStatus::Deleted,
        StatusFilter::NotUntracked => status != FileStatus::Untracked,
        StatusFilter::NotUntrackedNorAdded => status != FileStatus::Untracked && status
            != FileStatus::Added,
    }
}

/// The names of the entries that the filter keeps, in order.
pub open spec fn names_with(entries: Seq<RevisionEntry>, f: StatusFilter) -> Seq<Seq<char>>
    decreases entries.len(),
{
    if entries.len() == 0 {
        Seq::<Seq<char>>::empty()
    } else {
        let prev = names_with(entries.drop_last(), f);
        if keeps(f, entries.last().status) {
            prev.push(entries.last().name@)
        } else {
            prev
        }
    }
}

/// Whether the filter keeps an entry of the given status.
pub fn keeps_status(f: StatusFilter, status: &FileStatus) -> (res: bool)
    ensures
        res == keeps(f, *status),
{
    match f {
        StatusFilter::All => true,
        StatusFilter::Untracked => matches!(status, FileStatus::Untracked),
        StatusFilter::Added => matches!(status, FileStatus::Added),
        StatusFilter::Unmerged => matches!(status, FileStatus::Unmerged),
        StatusFilter::MissingOrDeleted => matches!(status, FileStatus::Missing | FileStatus::Deleted),
        StatusFilter::NotUntracked => !matches!(status, FileStatus::Untracked),
        StatusFilter::NotUntrackedNorAdded => !matches!(
            status,
            FileStatus::Untracked | FileStatus::Added
        ),
    }
}

/// Appends the names of the entries that the filter keeps.
pub fn push_names_with(args: &mut Vec<String>, entries: &[RevisionEntry], f: StatusFilter)
    ensures
        views(final(args)@) == views(old(args)@) + names_with(entries@, f),
{
    let ghost start = views(args@);
    let mut i: usize = 0;
    while i < entries.len()
        invariant
            i <= entries@.len(),
            views(args@) == start + names_with(entries@.take(i as int), f),
        decreases entries.len() - i,
    {
        assert(entries@.take(i + 1).drop_last() == entries@.take(i as int));
        if keeps_status(f, &entries[i].status) {
            let ghost before = views(args@);
            args.push(entries[i].name.clone());
            assert(views(args@) =~= before.push(entries@[i as int].name@));
            assert(views(args@) =~= start + names_with(entries@.take(i as int), f).push(
                entries@[i as int].name@,
            ));
        }
        i += 1;
    }
    assert(entries@.take(entries@.len() as int) == entries@);
}

/// Whether any entry has the given status.
pub fn any_with(entries: &[RevisionEntry], f: StatusFilter) -> (res: bool)
    ensures
        res == (names_with(entries@, f).len() > 0),
{
    let mut i: usize = 0;
    while i < entries.len()
        invariant
            i <= entries@.len(),
            names_with(entries@.take(i as int), f).len() == 0,
        decreases entries.len() - i,
    {
        assert(entries@.take(i + 1).drop_last() == entries@.take(i as int));
        if keeps_status(f, &entries[i].status) {
            proof {
                lemma_names_with_grow(entries@, f, i + 1);
            }
            return true;
        }
        i += 1;
    }
    assert(entries@.take(entries@.len() as int) == entries@);
    false
}

proof fn lemma_names_with_grow(entries: Seq<RevisionEntry>, f: StatusFilter, k: int)
    requires
        0 < k <= entries.len(),
        keeps(f, entries[k - 1].status),
    ensures
        names_with(entries, f).len() > 0,
    decreases entries.len() - k,
{
    if k == entries.len() {
        assert(entries.drop_last() == entries.take(k - 1));
    } else {
        assert(entries.drop_last().take(k) == entries.take(k));
        lemma_names_with_grow(entries.drop_last(), f, k);
        assert(names_with(entries, f).len() >= names_with(entries.drop_last(), f).len());
    }
}

/// Every entry the filter keeps has its name among the names it gives.
pub proof fn lemma_names_with_contains(entries: Seq<RevisionEntry>, f: StatusFilter, k: int)
    requires
        0 <= k < entries.len(),
        keeps(f, entries[k].status),
    ensures
        names_with(entries, f).contains(entries[k].name@),
    decreases entries.len(),
{
    let prev = names_with(entries.drop_last(), f);
    if k == entries.len() - 1 {
        assert(names_with(entries, f).last() == entries[k].name@);
    } else {
        lemma_names_with_contains(entries.drop_last(), f, k);
        let i = choose|i: int| 0 <= i < prev.len() && prev[i] == entries[k].name@;
        assert(names_with(entries, f)[i] == prev[i]);
    }
}

/// Whether some entry that the filter keeps has that name.
pub open spec fn kept_name(entries: Seq<RevisionEntry>, f: StatusFilter, name: Seq<char>) -> bool {
    exists|j: int| 0 <= j < entries.len() && keeps(f, entries[j].status) && (#[trigger] entries[j]).name@ == name
}

/// Every name the filter gives is that of an entry it keeps.
pub proof fn lemma_names_with_kept(entries: Seq<RevisionEntry>, f: StatusFilter)
    ensures
        forall|i: int| 0 <= i < names_with(entries, f).len() ==> kept_name(entries, f, #[trigger] names_with(entries, f)[i]),
    decreases entries.len(),
{
    if entries.len() > 0 {
        let prev = names_with(entries.drop_last(), f);
        lemma_names_with_kept(entries.drop_last(), f);
        assert forall|i: int| 0 <= i < names_with(entries, f).len() implies kept_name(entries, f, #[trigger] names_with(entries, f)[i]) by {
            if i < prev.len() {
                assert(names_with(entries, f)[i] == prev[i]);
                let j = choose|j: int| 0 <= j < entries.drop_last().len() && keeps(f, entries.drop_last()[j].status)
                    && (#[trigger] entries.drop_last()[j]).name@ == prev[i];
                assert(entries[j] == entries.drop_last()[j]);
            } else {
                assert(entries[entries.len() - 1] == entries.last());
            }
        }
    }
}

/// The owned strings of the 1 given words, in order.
pub fn args1(x0: &str) -> (res: Vec<String>)
    ensures
        views(res@) == seq![x0@],
{
    let mut v: Vec<String> = Vec::new();
    v.push(x0.to_owned());
    assert(views(v@) =~= seq![x0@]);
    v
}

/// The owned strings of the 2 given words, in order.
pub fn args2(x0: &str, x1: &str) -> (res: Vec<String>)
    ensures
        views(res@) == seq![x0@, x1@],
{
    let mut v: Vec<String> = Vec::new();
    v.push(x0.to_owned());
    v.push(x1.to_owned());
    assert(views(v@) =~= seq![x0@, x1@]);
    v
}

/// The owned strings of the 3 given words, in order.
pub fn args3(x0: &str, x1: &str, x2: &str) -> (res: Vec<String>)
    ensures
        views(res@) == seq![x0@, x1@, x2@],
{
    let mut v: Vec<String> = Vec::new();
    v.push(x0.to_owned());
    v.push(x1.to_owned());
    v.push(x2.to_owned());
    assert(views(v@) =~= seq![x0@, x1@, x2@]);
    v
}

/// The owned strings of the 4 given words, in order.
pub fn args4(x0: &str, x1: &str, x2: &str, x3: &str) -> (res: Vec<String>)
    ensures
        views(res@) == seq![x0@, x1@, x2@, x3@],
{
    let mut v: Vec<String> = Vec::new();
    v.push(x0.to_owned());
    v.push(x1.to_owned());
    v.push(x2.to_owned());
    v.push(x3.to_owned());
    assert(views(v@) =~= seq![x0@, x1@, x2@, x3@]);
    v
}

/// The owned strings of the 5 given words, in order.
pub fn args5(x0: &str, x1: &str, x2: &str, x3: &str, x4: &str) -> (res: Vec<String>)
    ensures
        views(res@) == seq![x0@, x1@, x2@, x3@, x4@],
{
    let mut v: Vec<String> = Vec::new();
    v.push(x0.to_owned());
    v.push(x1.to_owned());
    v.push(x2.to_owned());
    v.push(x3.to_owned());
    v.push(x4.to_owned());
    assert(views(v@) =~= seq![x0@, x1@, x2@, x3@, x4@]);
    v
}

/// The owned strings of the 6 given words, in order.
pub fn args6(x0: &str, x1: &str, x2: &str, x3: &str, x4: &str, x5: &str) -> (res: Vec<String>)
    ensures
        views(res@) == seq![x0@, x1@, x2@, x3@, x4@, x5@],
{
    let mut v: Vec<String> = Vec::new();
    v.push(x0.to_owned());
    v.push(x1.to_owned());
    v.push(x2.to_owned());
    v.push(x3.to_owned());
    v.push(x4.to_owned());
    v.push(x5.to_owned());
    assert(views(v@) =~= seq![x0@, x1@, x2@, x3@, x4@, x5@]);
    v
}

/// Appends the strings of `more` to `args`.
pub fn append_strings(args: &mut Vec<String>, more: Vec<String>)
    ensures
        views(final(args)@) == views(old(args)@) + views(more@),
{
    let ghost start = views(args@);
    let mut more = more;
    let ghost all = more@;
    let n = more.len();
    let mut i: usize = 0;
    while more.len() > 0
        invariant
            more@ == all.skip(i as int),
            all.len() == n,
            i <= all.len(),
            all.len() == i + more@.len(),
            views(args@) == start + views(all.take(i as int)),
        decreases more.len(),
    {
        let x = more.remove(0);
        let ghost before = views(args@);
        args.push(x);
        assert(views(args@) =~= before.push(all[i as int]@));
        assert(views(all.take(i + 1)) =~= views(all.take(i as int)).push(all[i as int]@));
        i += 1;
        assert(more@ =~= all.skip(i as int));
    }
    assert(all.take(i as int) == all);
}
/// The fields of a log line: up to six pieces between separators, missing ones empty.
pub open spec fn log_fields(line: Seq<char>, sep: char) -> Seq<Seq<char>> {
    let ps = splitn_spec(line, sep, 6);
    Seq::new(6, |k: int| piece_or_empty(ps, k))
}

/// The log entry of one line whose fields are divided by `sep`.
pub fn log_entry(line: &str, sep: char) -> (res: LogEntry)
    ensures
        log_view(res) == log_fields(line@, sep),
{
    let ps = splitn(line, 6, sep);
    let res = LogEntry {
        graph: piece_at(&ps, 0),
        hash: piece_at(&ps, 1),
        date: piece_at(&ps, 2),
        author: piece_at(&ps, 3),
        refs: piece_at(&ps, 4),
        message: piece_at(&ps, 5),
    };
    assert(log_view(res) =~= log_fields(line@, sep));
    res
}

/// One log entry per line of `output`.
pub fn log_entries(output: &str, sep: char) -> (res: Vec<LogEntry>)
    ensures
        logs_view(res@) == lines_spec(output@).map_values(|l: Seq<char>| log_fields(l, sep)),
{
    let ls = lines(output);
    let ghost lv = lines_spec(output@);
    let mut entries: Vec<LogEntry> = Vec::new();
    let mut i: usize = 0;
    while i < ls.len()
        invariant
            i <= ls@.len(),
            views(ls@) == lv,
            logs_view(entries@) == lv.take(i as int).map_values(|l: Seq<char>| log_fields(l, sep)),
        decreases ls.len() - i,
    {
        let entry = log_entry(ls[i].as_str(), sep);
        let ghost before = logs_view(entries@);
        entries.push(entry);
        assert(logs_view(entries@) =~= before.push(log_fields(lv[i as int], sep)));
        assert(lv.take(i + 1).map_values(|l: Seq<char>| log_fields(l, sep)) =~= lv.take(
            i as int,
        ).map_values(|l: Seq<char>| log_fields(l, sep)).push(log_fields(lv[i as int], sep)));
        i += 1;
    }
    assert(lv.take(lv.len() as int) == lv);
    entries
}

/// A branch listed as a name, a separator and a head marker, as plain values.
pub open spec fn branch_of_line(line: Seq<char>, sep: char) -> (Seq<char>, bool) {
    let ps = splitn_spec(line, sep, 2);
    (piece_or_empty(ps, 0), piece_or_empty(ps, 1) == "*"@)
}

proof fn lemma_splitn2_without_sep(name: Seq<char>, sep: char)
    requires
        lacks(name, sep),
    ensures
        splitn_spec(name, sep, 2) == seq![name],
    decreases name.len(),
{
    if name.len() > 0 {
        lemma_splitn2_without_sep(name.drop_last(), sep);
        assert(name.drop_last().push(name.last()) =~= name);
        assert(seq![name.drop_last()].update(0, name.drop_last().push(name.last())) =~= seq![name]);
    } else {
        assert(name =~= Seq::<char>::empty());
    }
}

proof fn lemma_splitn2_at_sep(name: Seq<char>, sep: char, rest: Seq<char>)
    requires
        lacks(name, sep),
    ensures
        splitn_spec(name + seq![sep] + rest, sep, 2) == seq![name, rest],
    decreases rest.len(),
{
    let s = name + seq![sep] + rest;
    if rest.len() == 0 {
        lemma_splitn2_without_sep(name, sep);
        assert(s.drop_last() =~= name);
        assert(rest =~= Seq::<char>::empty());
        assert(seq![name].push(Seq::<char>::empty()) =~= seq![name, rest]);
    } else {
        lemma_splitn2_at_sep(name, sep, rest.drop_last());
        assert(s.drop_last() =~= name + seq![sep] + rest.drop_last());
        assert(rest.drop_last().push(rest.last()) =~= rest);
        assert(seq![name, rest.drop_last()].update(1, rest.drop_last().push(rest.last())) =~= seq![
            name,
            rest,
        ]);
    }
}

/// A branch line is the branch's name, the separator and a marker (the name holds no
/// separator): the branch is checked out exactly when the marker is `*`; a line without the
/// separator is a branch that is not checked out.
pub proof fn lemma_branch_checked_out_iff_star(name: Seq<char>, sep: char, marker: Seq<char>)
    requires
        lacks(name, sep),
    ensures
        branch_of_line(name + seq![sep] + marker, sep) == (name, marker == seq!['*']),
        branch_of_line(name, sep) == (name, false),
{
    lemma_splitn2_at_sep(name, sep, marker);
    lemma_splitn2_without_sep(name, sep);
    reveal_strlit("*");
    assert("*"@ =~= seq!['*']);
    assert(Seq::<char>::empty() != seq!['*']) by {
        assert(seq!['*'].len() == 1);
    }
}

/// One branch per line of `output`, checked out where `*` follows the separator.
pub fn branches_of_lines(output: &str, sep: char) -> (res: Vec<BranchEntry>)
    ensures
        res@.len() == lines_spec(output@).len(),
        forall|i: int|
            0 <= i < res@.len() ==> ((#[trigger] res@[i]).name@, res@[i].checked_out)
                == branch_of_line(lines_spec(output@)[i], sep),
        forall|i: int|
            0 <= i < res@.len() ==> (#[trigger] res@[i]).upstream_name@.len() == 0
                && res@[i].tracking_status@.len() == 0,
{
    let ls = lines(output);
    let ghost lv = lines_spec(output@);
    let mut res: Vec<BranchEntry> = Vec::new();
    let mut i: usize = 0;
    while i < ls.len()
        invariant
            i <= ls@.len(),
            views(ls@) == lv,
            res@.len() == i,
            forall|j: int|
                0 <= j < i ==> ((#[trigger] res@[j]).name@, res@[j].checked_out)
                    == branch_of_line(lv[j], sep),
            forall|j: int|
                0 <= j < i ==> (#[trigger] res@[j]).upstream_name@.len() == 0
                    && res@[j].tracking_status@.len() == 0,
        decreases ls.len() - i,
    {
        let ps = splitn(ls[i].as_str(), 2, sep);
        let name = piece_at(&ps, 0);
        let marker = piece_at(&ps, 1);
        let checked_out = str_equal(marker.as_str(), "*");
        res.push(
            BranchEntry {
                name,
                upstream_name: String::new(),
                tracking_status: String::new(),
                checked_out,
            },
        );
        i += 1;
    }
    res
}

/// One tag per line of `output`.
pub fn tags_of_lines(output: &str) -> (res: Vec<TagEntry>)
    ensures
        res@.map_values(|t: TagEntry| t.name@) == lines_spec(output@),
{
    let ls = lines(output);
    let ghost lv = lines_spec(output@);
    let mut res: Vec<TagEntry> = Vec::new();
    let mut i: usize = 0;
    while i < ls.len()
        invariant
            i <= ls@.len(),
            views(ls@) == lv,
            res@.map_values(|t: TagEntry| t.name@) == lv.take(i as int),
        decreases ls.len() - i,
    {
        let ghost before = res@.map_values(|t: TagEntry| t.name@);
        res.push(TagEntry { name: ls[i].clone() });
        assert(res@.map_values(|t: TagEntry| t.name@) =~= before.push(lv[i as int]));
        assert(lv.take(i + 1) == lv.take(i as int).push(lv[i as int]));
        i += 1;
    }
    assert(lv.take(lv.len() as int) == lv);
    res
}


/// Whether `a` comes before `b` or equals it, character by character (the order of `str`).
pub open spec fn chars_le(a: Seq<char>, b: Seq<char>) -> bool
    decreases a.len(),
{
    if a.len() == 0 {
        true
    } else if b.len() == 0 {
        false
    } else if a[0] != b[0] {
        a[0] < b[0]
    } else {
        chars_le(a.skip(1), b.skip(1))
    }
}

/// The place of a status in the order of its kinds.
pub open spec fn status_rank(status: FileStatus) -> int {
    match status {
        FileStatus::Modified => 0,
        FileStatus::Added => 1,
        FileStatus::Deleted => 2,
        FileStatus::Renamed => 3,
        FileStatus::Untracked => 4,
        FileStatus::Copied => 5,
        FileStatus::Unmerged => 6,
        FileStatus::Missing => 7,
        FileStatus::Ignored => 8,
        FileStatus::Clean => 9,
        FileStatus::Unknown(_) => 10,
    }
}

/// Whether status `a` comes before `b` or ties with it: by kind, and unknown statuses by
/// their text.
pub open spec fn status_le(a: FileStatus, b: FileStatus) -> bool {
    if status_rank(a) != status_rank(b) {
        status_rank(a) < status_rank(b)
    } else {
        match (a, b) {
            (FileStatus::Unknown(x), FileStatus::Unknown(y)) => chars_le(x@, y@),
            _ => true,
        }
    }
}

/// Whether the entries are ordered by status.
pub open spec fn sorted_by_status(v: Seq<RevisionEntry>) -> bool {
    forall|i: int, j: int| 0 <= i < j < v.len() ==> status_le(#[trigger] v[i].status, #[trigger] v[j].status)
}

/// Whether the tags are ordered by name.
pub open spec fn sorted_by_name(v: Seq<TagEntry>) -> bool {
    forall|i: int, j: int| 0 <= i < j < v.len() ==> chars_le(#[trigger] v[i].name@, #[trigger] v[j].name@)
}

proof fn lemma_chars_le_total(a: Seq<char>, b: Seq<char>)
    ensures
        chars_le(a, b) || chars_le(b, a),
    decreases a.len(),
{
    if a.len() > 0 && b.len() > 0 && a[0] == b[0] {
        lemma_chars_le_total(a.skip(1), b.skip(1));
    }
}

proof fn lemma_chars_le_trans(a: Seq<char>, b: Seq<char>, c: Seq<char>)
    requires
        chars_le(a, b),
        chars_le(b, c),
    ensures
        chars_le(a, c),
    decreases a.len(),
{
    if a.len() > 0 && b.len() > 0 && c.len() > 0 && a[0] == b[0] && b[0] == c[0] {
        lemma_chars_le_trans(a.skip(1), b.skip(1), c.skip(1));
    }
}

proof fn lemma_status_le_total(a: FileStatus, b: FileStatus)
    ensures
        status_le(a, b) || status_le(b, a),
{
    match (a, b) {
        (FileStatus::Unknown(x), FileStatus::Unknown(y)) => lemma_chars_le_total(x@, y@),
        _ => {},
    }
}

proof fn lemma_status_le_trans(a: FileStatus, b: FileStatus, c: FileStatus)
    requires
        status_le(a, b),
        status_le(b, c),
    ensures
        status_le(a, c),
{
    match (a, b, c) {
        (FileStatus::Unknown(x), FileStatus::Unknown(y), FileStatus::Unknown(z)) => lemma_chars_le_trans(x@, y@, z@),
        _ => {},
    }
}

/// Whether `a` comes before `b` or equals it.
pub fn str_le(a: &str, b: &str) -> (res: bool)
    ensures
        res == chars_le(a@, b@),
{
    let x = chars_of(a);
    let y = chars_of(b);
    let mut i: usize = 0;
    assert(x@.skip(0) == x@);
    assert(y@.skip(0) == y@);
    while i < x.len() && i < y.len()
        invariant
            i <= x.len(),
            i <= y.len(),
            x@ == a@,
            y@ == b@,
            chars_le(a@, b@) == chars_le(x@.skip(i as int), y@.skip(i as int)),
        decreases x.len() - i,
    {
        assert(x@.skip(i as int).skip(1) == x@.skip(i as int + 1));
        assert(y@.skip(i as int).skip(1) == y@.skip(i as int + 1));
        if x[i] != y[i] {
            return x[i] < y[i];
        }
        i = i + 1;
    }
    i == x.len()
}

/// Whether status `a` comes before `b` or ties with it.
pub fn status_le_exec(a: &FileStatus, b: &FileStatus) -> (res: bool)
    ensures
        res == status_le(*a, *b),
{
    let ra = rank_of(a);
    let rb = rank_of(b);
    if ra != rb {
        ra < rb
    } else {
        match (a, b) {
            (FileStatus::Unknown(x), FileStatus::Unknown(y)) => str_le(x.as_str(), y.as_str()),
            _ => true,
        }
    }
}

/// The place of a status in the order of its kinds.
pub fn rank_of(status: &FileStatus) -> (res: u8)
    ensures
        res == status_rank(*status),
{
    match status {
        FileStatus::Modified => 0,
        FileStatus::Added => 1,
        FileStatus::Deleted => 2,
        FileStatus::Renamed => 3,
        FileStatus::Untracked => 4,
        FileStatus::Copied => 5,
        FileStatus::Unmerged => 6,
        FileStatus::Missing => 7,
        FileStatus::Ignored => 8,
        FileStatus::Clean => 9,
        FileStatus::Unknown(_) => 10,
    }
}

/// The entries ordered by status: the same entries, each status before or tied with the next.
pub fn sort_by_status(entries: Vec<RevisionEntry>) -> (res: Vec<RevisionEntry>)
    ensures
        res@.to_multiset() == entries@.to_multiset(),
        sorted_by_status(res@),
{
    broadcast use vstd::seq_lib::to_multiset_insert;
    let mut res: Vec<RevisionEntry> = Vec::new();
    let mut rest = entries;
    let ghost all = rest@;
    let mut i: usize = 0;
    let n = rest.len();
    assert(res@ == all.take(0));
    while rest.len() > 0
        invariant
            n == all.len(),
            rest.len() + i == n,
            rest@ == all.subrange(i as int, n as int),
            res@.to_multiset() == all.take(i as int).to_multiset(),
            sorted_by_status(res@),
        decreases rest.len(),
    {
        let e = rest.remove(0);
        assert(e == all[i as int]);
        let mut pos: usize = 0;
        while pos < res.len() && status_le_exec(&res[pos].status, &e.status)
            invariant
                pos <= res.len(),
                forall|k: int| 0 <= k < pos ==> status_le(#[trigger] res@[k].status, e.status),
            decreases res.len() - pos,
        {
            pos = pos + 1;
        }
        proof {
            if pos < res.len() {
                lemma_status_le_total(res@[pos as int].status, e.status);
                assert forall|k: int| pos <= k < res.len() implies status_le(e.status, #[trigger] res@[k].status) by {
                    if k > pos {
                        lemma_status_le_trans(e.status, res@[pos as int].status, res@[k].status);
                    }
                }
            }
        }
        let ghost before = res@;
        res.insert(pos, e);
        proof {
            assert(res@ == before.insert(pos as int, e));
            assert(all.take(i as int + 1) == all.take(i as int).push(all[i as int]));
            vstd::seq_lib::to_multiset_build(all.take(i as int), all[i as int]);
            vstd::seq_lib::to_multiset_insert(before, pos as int, e);
            assert(res@.to_multiset() == all.take(i as int + 1).to_multiset());
            assert forall|a: int, b: int| 0 <= a < b < res@.len() implies status_le(#[trigger] res@[a].status, #[trigger] res@[b].status) by {
                if a < pos && b > pos {
                    assert(res@[a] == before[a]);
                    assert(res@[b] == before[b - 1]);
                } else if a < pos && b == pos {
                } else if a == pos {
                    assert(res@[b] == before[b - 1]);
                } else if b < pos {
                } else {
                    assert(res@[a] == before[a - 1]);
                    assert(res@[b] == before[b - 1]);
                }
            }
        }
        i = i + 1;
        assert(rest@ == all.subrange(i as int, n as int));
    }
    assert(all.take(n as int) == all);
    res
}

/// The tags ordered by name: the same tags, each name before or equal to the next.
pub fn sort_tags_by_name(tags: Vec<TagEntry>) -> (res: Vec<TagEntry>)
    ensures
        res@.to_multiset() == tags@.to_multiset(),
        sorted_by_name(res@),
{
    broadcast use vstd::seq_lib::to_multiset_insert;
    let mut res: Vec<TagEntry> = Vec::new();
    let mut rest = tags;
    let ghost all = rest@;
    let mut i: usize = 0;
    let n = rest.len();
    assert(res@ == all.take(0));
    while rest.len() > 0
        invariant
            n == all.len(),
            rest.len() + i == n,
            rest@ == all.subrange(i as int, n as int),
            res@.to_multiset() == all.take(i as int).to_multiset(),
            sorted_by_name(res@),
        decreases rest.len(),
    {
        let e = rest.remove(0);
        assert(e == all[i as int]);
        let mut pos: usize = 0;
        while pos < res.len() && str_le(res[pos].name.as_str(), e.name.as_str())
            invariant
                pos <= res.len(),
                forall|k: int| 0 <= k < pos ==> chars_le(#[trigger] res@[k].name@, e.name@),
            decreases res.len() - pos,
        {
            pos = pos + 1;
        }
        proof {
            if pos < res.len() {
                lemma_chars_le_total(res@[pos as int].name@, e.name@);
                assert forall|k: int| pos <= k < res.len() implies chars_le(e.name@, #[trigger] res@[k].name@) by {
                    if k > pos {
                        lemma_chars_le_trans(e.name@, res@[pos as int].name@, res@[k].name@);
                    }
                }
            }
        }
        let ghost before = res@;
        res.insert(pos, e);
        proof {
            assert(res@ == before.insert(pos as int, e));
            assert(all.take(i as int + 1) == all.take(i as int).push(all[i as int]));
            vstd::seq_lib::to_multiset_build(all.take(i as int), all[i as int]);
            vstd::seq_lib::to_multiset_insert(before, pos as int, e);
            assert(res@.to_multiset() == all.take(i as int + 1).to_multiset());
            assert forall|a: int, b: int| 0 <= a < b < res@.len() implies chars_le(#[trigger] res@[a].name@, #[trigger] res@[b].name@) by {
                if a < pos && b > pos {
                    assert(res@[a] == before[a]);
                    assert(res@[b] == before[b - 1]);
                } else if a < pos && b == pos {
                } else if a == pos {
                    assert(res@[b] == before[b - 1]);
                } else if b < pos {
                } else {
                    assert(res@[a] == before[a - 1]);
                    assert(res@[b] == before[b - 1]);
                }
            }
        }
        i = i + 1;
        assert(rest@ == all.subrange(i as int, n as int));
    }
    assert(all.take(n as int) == all);
    res
}

impl FileStatus {
    /// The same status.
    pub fn copy(&self) -> (res: FileStatus)
        ensures
            res == *self,
    {
        match self {
            FileStatus::Modified => FileStatus::Modified,
            FileStatus::Added => FileStatus::Added,
            FileStatus::Deleted => FileStatus::Deleted,
            FileStatus::Renamed => FileStatus::Renamed,
            FileStatus::Untracked => FileStatus::Untracked,
            FileStatus::Copied => FileStatus::Copied,
            FileStatus::Unmerged => FileStatus::Unmerged,
            FileStatus::Missing => FileStatus::Missing,
            FileStatus::Ignored => FileStatus::Ignored,
            FileStatus::Clean => FileStatus::Clean,
            FileStatus::Unknown(s) => FileStatus::Unknown(s.clone()),
        }
    }
}

impl RevisionEntry {
    /// The same entry.
    pub fn copy(&self) -> (res: RevisionEntry)
        ensures
            res == *self,
    {
        RevisionEntry { selected: self.selected, name: self.name.clone(), status: self.status.copy() }
    }
}

impl TagEntry {
    /// The same tag.
    pub fn copy(&self) -> (res: TagEntry)
        ensures
            res == *self,
    {
        TagEntry { name: self.name.clone() }
    }
}

} // verus!
