use vstd::prelude::*;

use crate::backend::{
    branch_of_line, branches_of_lines, log_entries, log_fields, tags_of_lines,
    command, entries_view, keeps, kept_name, lemma_names_with_contains, lemma_names_with_kept,
    log_view, logs_view, names_with,
    push_names_with, any_with,
    serial_plan, append_strings, args1, args2, args3, args4, args5, args6, command_view, plan_view, BackendResult, BranchEntry, FileStatus,
    LogEntry, ProcessCommand, ProcessPlan, RevisionEntry, RevisionInfo, StatusFilter,
    StatusInfo, TagEntry,
};
use crate::text::{
    byte_len, chars_for_bytes, chars_in_bytes, chars_of, concat, decimal, is_boundary,
    lemma_byte_len_over, lemma_split_nonempty, lines, lines_spec, piece_at, piece_or_empty, split, split_spec, splitn,
    splitn_spec, str_byte_len, str_equal, string_of, trim, trim_bounds, trim_spec, usize_to_string,
    views,
};

verus! {

/// The Git backend.
pub struct Git;

/// The status that a Git status letter stands for, if it is one Git uses.
pub open spec fn git_status_code(s: Seq<char>) -> Option<FileStatus> {
    if s.len() == 0 {
        None
    } else if s[0] == 'M' {
        Some(FileStatus::Modified)
    } else if s[0] == 'A' {
        Some(FileStatus::Added)
    } else if s[0] == 'D' {
        Some(FileStatus::Deleted)
    } else if s[0] == 'R' {
        Some(FileStatus::Renamed)
    } else if s[0] == '?' {
        Some(FileStatus::Untracked)
    } else if s[0] == 'C' {
        Some(FileStatus::Copied)
    } else if s[0] == 'U' {
        Some(FileStatus::Unmerged)
    } else if s[0] == ' ' {
        Some(FileStatus::Clean)
    } else {
        None
    }
}

/// The status whose letter starts `s`; its letter must be one Git uses, as the caller of
/// `git status` knows.
pub fn parse_file_status(s: &str) -> (res: FileStatus)
    requires
        git_status_code(s@) is Some,
    ensures
        git_status_code(s@) == Some(res),
{
    let c = chars_of(s);
    let first = c[0];
    if first == 'M' {
        FileStatus::Modified
    } else if first == 'A' {
        FileStatus::Added
    } else if first == 'D' {
        FileStatus::Deleted
    } else if first == 'R' {
        FileStatus::Renamed
    } else if first == '?' {
        FileStatus::Untracked
    } else if first == 'C' {
        FileStatus::Copied
    } else if first == 'U' {
        FileStatus::Unmerged
    } else {
        FileStatus::Clean
    }
}

/// A trimmed `git status --null` record that names a file: at least two bytes.
pub open spec fn status_record(e: Seq<char>) -> bool {
    byte_len(e) >= 2
}

/// Whether a trimmed record can be read: its first two bytes are whole characters and start
/// with a status letter.
pub open spec fn status_record_readable(e: Seq<char>) -> bool {
    status_record(e) ==> is_boundary(e, 2) && git_status_code(e.take(chars_in_bytes(e, 2))) is Some
}

/// The file entry that a trimmed record gives: the rest after two bytes, trimmed, and the
/// status of the first two.
pub open spec fn status_record_entry(e: Seq<char>) -> (bool, Seq<char>, FileStatus) {
    let k = chars_in_bytes(e, 2);
    (
        false,
        trim_spec(e.skip(k)),
        match git_status_code(e.take(k)) {
            Some(s) => s,
            None => FileStatus::Clean,
        },
    )
}

/// The entries of the records `ps` (each still to be trimmed), in order.
pub open spec fn status_entries(ps: Seq<Seq<char>>) -> Seq<(bool, Seq<char>, FileStatus)>
    decreases ps.len(),
{
    if ps.len() == 0 {
        Seq::empty()
    } else {
        let prev = status_entries(ps.drop_last());
        let e = trim_spec(ps.last());
        if status_record(e) {
            prev.push(status_record_entry(e))
        } else {
            prev
        }
    }
}

/// Whether every record after the header of a `git status --null` output can be read.
pub open spec fn status_output_readable(output: Seq<char>) -> bool {
    let ps = split_spec(output, '\0');
    forall|i: int| 1 <= i < ps.len() ==> status_record_readable(trim_spec(#[trigger] ps[i]))
}

/// Whether `c` starts a status Git uses.
fn is_status_letter(c: char) -> (res: bool)
    ensures
        res == (git_status_code(seq![c]) is Some),
{
    c == 'M' || c == 'A' || c == 'D' || c == 'R' || c == '?' || c == 'C' || c == 'U' || c == ' '
}

/// Whether every record after the header of a `git status --null` output can be read, as
/// `status` needs.
pub fn status_output_readable_exec(output: &str) -> (res: bool)
    ensures
        res == status_output_readable(output@),
{
    let pieces = split(output, '\0');
    let ghost ps = split_spec(output@, '\0');
    proof {
        lemma_split_nonempty(output@, '\0');
    }
    let mut j: usize = 1;
    while j < pieces.len()
        invariant
            1 <= j <= pieces@.len(),
            views(pieces@) == ps,
            ps == split_spec(output@, '\0'),
            forall|i: int| 1 <= i < j ==> status_record_readable(trim_spec(#[trigger] ps[i])),
        decreases pieces.len() - j,
    {
        let c = chars_of(pieces[j].as_str());
        let (a, b) = trim_bounds(&c, 0, c.len());
        assert(c@.subrange(0, c@.len() as int) == c@);
        let ghost e = c@.subrange(a as int, b as int);
        assert(e == trim_spec(ps[j as int]));
        let record = string_of(&c, a, b);
        if str_byte_len(record.as_str()) >= 2 {
            match chars_for_bytes(&c, a, b, 2) {
                Some(k) => {
                    if k == 0 || !is_status_letter(c[a]) {
                        proof {
                            if k > 0 {
                                assert(e.take(k as int)[0] == e[0]);
                                assert(git_status_code(seq![e[0]]) is Some
                                    <==> git_status_code(e.take(k as int)) is Some);
                            }
                        }
                        assert(!status_record_readable(trim_spec(ps[j as int])));
                        return false;
                    }
                    assert(e.take(k as int)[0] == e[0]);
                    assert(git_status_code(seq![e[0]]) is Some
                        <==> git_status_code(e.take(k as int)) is Some);
                },
                None => {
                    assert(!status_record_readable(trim_spec(ps[j as int])));
                    return false;
                },
            }
        }
        j += 1;
    }
    true
}

/// Whether every status of a `diff-tree -z --name-status` output is a Git status letter, as
/// `revision_details` needs.
pub fn changes_readable_exec(output: &str) -> (res: bool)
    ensures
        res == changes_readable(split_spec(output@, '\0')),
{
    let pieces = split(output, '\0');
    let ghost ps = split_spec(output@, '\0');
    let mut i: usize = 0;
    assert(ps.skip(0) == ps);
    while i < pieces.len() && !pieces[i].as_str().is_empty()
        invariant
            views(pieces@) == ps,
            ps == split_spec(output@, '\0'),
            i <= pieces@.len(),
            changes_readable(ps) == changes_readable(ps.skip(i as int)),
        decreases pieces.len() - i,
    {
        let ghost rest = ps.skip(i as int);
        let c = chars_of(pieces[i].as_str());
        assert(rest[0] == ps[i as int]);
        assert(seq![c@[0]] == rest[0].take(1));
        let letter = is_status_letter(c[0]);
        assert(letter == (git_status_code(rest[0]) is Some));
        if !letter {
            return false;
        }
        if i + 1 >= pieces.len() {
            return true;
        }
        assert(rest.skip(2) == ps.skip(i + 2));
        i += 2;
    }
    proof {
        if i < ps.len() {
            assert(ps.skip(i as int)[0] == ps[i as int]);
        }
    }
    true
}

/// The `(entries, message)` of a `diff-tree -z --name-status` output, read as pairs of a status
/// and a name until a status is missing or empty.
pub open spec fn change_entries(ps: Seq<Seq<char>>) -> Seq<(bool, Seq<char>, FileStatus)>
    decreases ps.len(),
{
    if ps.len() >= 2 && ps[0].len() > 0 {
        seq![
            (
                false,
                ps[1],
                match git_status_code(ps[0]) {
                    Some(s) => s,
                    None => FileStatus::Clean,
                },
            ),
        ] + change_entries(ps.skip(2))
    } else {
        Seq::empty()
    }
}

/// Whether every status read from a `diff-tree` output is a Git status letter.
pub open spec fn changes_readable(ps: Seq<Seq<char>>) -> bool
    decreases ps.len(),
{
    if ps.len() >= 1 && ps[0].len() > 0 {
        git_status_code(ps[0]) is Some && (ps.len() >= 2 ==> changes_readable(ps.skip(2)))
    } else {
        true
    }
}

/// A `git` command with the given arguments, as plain values.
pub open spec fn git(args: Seq<Seq<char>>) -> (Seq<char>, Seq<Seq<char>>) {
    ("git"@, args)
}

fn git_command(args: Vec<String>) -> (res: ProcessCommand)
    ensures
        command_view(res) == git(views(args@)),
{
    command("git", args)
}

impl Git {
    /// The command that finds the root of the repository.
    pub fn root_command() -> (res: ProcessCommand)
        ensures
            command_view(res) == git(seq!["rev-parse"@, "--show-toplevel"@]),
    {
        let args = args2("rev-parse", "--show-toplevel");
        git_command(args)
    }

    /// The repository whose root `git rev-parse --show-toplevel` printed, if it succeeded.
    pub fn try_new(output: BackendResult<String>) -> (res: Option<(String, Self)>)
        ensures
            match output {
                Ok(o) => res matches Some((root, _)) && root@ == trim_spec(o@),
                Err(_) => res is None,
            },
    {
        match output {
            Ok(o) => Some((trim(o.as_str()), Git)),
            Err(_) => None,
        }
    }

    /// The command whose output `status` reads.
    pub fn status_command(&self) -> (res: ProcessCommand)
        ensures
            command_view(res) == git(seq!["status"@, "--branch"@, "--null"@]),
    {
        git_command(args3("status", "--branch", "--null"))
    }

    /// The working copy status read from the output of `status_command`: the first record,
    /// trimmed, is the header; every later record of at least two bytes is a file.
    pub fn status(&self, output: BackendResult<String>) -> (res: BackendResult<StatusInfo>)
        requires
            output matches Ok(o) ==> status_output_readable(o@),
        ensures
            match output {
                Ok(o) => res matches Ok(info) && info.header@ == trim_spec(split_spec(o@, '\0')[0])
                    && entries_view(info.entries@) == status_entries(split_spec(o@, '\0').skip(1)),
                Err(e) => res == Err::<StatusInfo, String>(e),
            },
    {
        let output = match output {
            Ok(o) => o,
            Err(e) => return Err(e),
        };
        let pieces = split(output.as_str(), '\0');
        let ghost ps = split_spec(output@, '\0');
        proof {
            lemma_split_nonempty(output@, '\0');
        }
        let header = trim(pieces[0].as_str());
        let mut entries: Vec<RevisionEntry> = Vec::new();
        let mut j: usize = 1;
        while j < pieces.len()
            invariant
                1 <= j <= pieces@.len(),
                views(pieces@) == ps,
                status_output_readable(output@),
                ps == split_spec(output@, '\0'),
                entries_view(entries@) == status_entries(ps.subrange(1, j as int)),
            decreases pieces.len() - j,
        {
            assert(ps.subrange(1, j + 1).drop_last() == ps.subrange(1, j as int));
            let c = chars_of(pieces[j].as_str());
            let (a, b) = trim_bounds(&c, 0, c.len());
            proof {
                assert(c@.subrange(0, c@.len() as int) == c@);
                assert(status_record_readable(trim_spec(ps[j as int])));
            }
            let ghost e = c@.subrange(a as int, b as int);
            assert(e == trim_spec(ps[j as int]));
            match chars_for_bytes(&c, a, b, 2) {
                Some(k) => {
                    proof {
                        lemma_byte_len_over(e, k as int);
                        assert(e.take(k as int) == c@.subrange(a as int, a + k));
                        assert(e.skip(k as int) == c@.subrange(a + k, b as int));
                    }
                    let code = string_of(&c, a, a + k);
                    let status = parse_file_status(code.as_str());
                    let (na, nb) = trim_bounds(&c, a + k, b);
                    let name = string_of(&c, na, nb);
                    let ghost before = entries_view(entries@);
                    entries.push(RevisionEntry::new(name, status));
                    assert(entries_view(entries@) =~= before.push(status_record_entry(e)));
                },
                None => {},
            }
            j += 1;
        }
        assert(ps.subrange(1, ps.len() as int) == ps.skip(1));
        Ok(StatusInfo { header, entries })
    }

    /// The plan that commits: stage everything (no entries) or the named files, then commit
    /// with the message.
    pub fn commit(&self, message: &str, entries: &[RevisionEntry]) -> (res: ProcessPlan)
        ensures
            plan_view(res) == seq![
                seq![
                    if entries@.len() == 0 {
                        git(seq!["add"@, "--all"@])
                    } else {
                        git(seq!["add"@, "--"@] + names_with(entries@, StatusFilter::All))
                    },
                ],
                seq![git(seq!["commit"@, "-m"@, message@])],
            ],
    {
        let mut commands: Vec<ProcessCommand> = Vec::new();
        if entries.len() == 0 {
            commands.push(git_command(args2("add", "--all")));
        } else {
            let mut args = args2("add", "--");
            push_names_with(&mut args, entries, StatusFilter::All);
            commands.push(git_command(args));
        }
        commands.push(git_command(args3("commit", "-m", message)));
        let res = serial_plan(commands);
        assert(plan_view(res) =~~= seq![
            seq![
                if entries@.len() == 0 {
                    git(seq!["add"@, "--all"@])
                } else {
                    git(seq!["add"@, "--"@] + names_with(entries@, StatusFilter::All))
                },
            ],
            seq![git(seq!["commit"@, "-m"@, message@])],
        ]);
        res
    }

    /// The plan that discards changes: everything (no entries), or else untracked files are
    /// cleaned and added files removed together, and the rest checked out afterwards.
    pub fn discard(&self, entries: &[RevisionEntry]) -> (res: ProcessPlan)
        ensures
            entries@.len() == 0 ==> plan_view(res) == seq![
                seq![git(seq!["reset"@, "--hard"@])],
                seq![git(seq!["clean"@, "-d"@, "--force"@])],
            ],
            entries@.len() > 0 ==> plan_view(res) == discard_stages(entries@),
    {
        if entries.len() == 0 {
            let mut commands: Vec<ProcessCommand> = Vec::new();
            commands.push(git_command(args2("reset", "--hard")));
            commands.push(git_command(args3("clean", "-d", "--force")));
            let res = serial_plan(commands);
            assert(plan_view(res) =~~= seq![
                seq![git(seq!["reset"@, "--hard"@])],
                seq![git(seq!["clean"@, "-d"@, "--force"@])],
            ]);
            return res;
        }
        let mut first: Vec<ProcessCommand> = Vec::new();
        if any_with(entries, StatusFilter::Untracked) {
            let mut args = args3("clean", "--force", "--");
            push_names_with(&mut args, entries, StatusFilter::Untracked);
            first.push(git_command(args));
        }
        if any_with(entries, StatusFilter::Added) {
            let mut args = args3("rm", "--force", "--");
            push_names_with(&mut args, entries, StatusFilter::Added);
            first.push(git_command(args));
        }
        let mut stages: Vec<Vec<ProcessCommand>> = Vec::new();
        let ghost first_view = crate::backend::commands_view(first@);
        if first.len() > 0 {
            stages.push(first);
        }
        if any_with(entries, StatusFilter::NotUntrackedNorAdded) {
            let mut args = args2("checkout", "--");
            push_names_with(&mut args, entries, StatusFilter::NotUntrackedNorAdded);
            let mut last = Vec::new();
            last.push(git_command(args));
            stages.push(last);
        }
        let res = ProcessPlan { stages };
        assert(plan_view(res) =~~= discard_stages(entries@));
        res
    }

    /// The command that shows a diff of the named files (all when none are named) in the
    /// working copy, or in a revision against its parents.
    pub fn diff(&self, revision: Option<&str>, entries: &[RevisionEntry]) -> (res: ProcessCommand)
        ensures
            command_view(res) == git(
                match revision {
                    Some(r) => if entries@.len() == 0 {
                        seq!["diff"@, r@ + "^@"@, r@]
                    } else {
                        seq!["diff"@, r@ + "^@"@, r@, "--"@] + names_with(
                            entries@,
                            StatusFilter::All,
                        )
                    },
                    None => if entries@.len() == 0 {
                        seq!["diff"@, "-z"@]
                    } else {
                        seq!["diff"@, "--"@] + names_with(entries@, StatusFilter::All)
                    },
                },
            ),
    {
        match revision {
            Some(revision) => {
                let parent = concat(revision, "^@");
                if entries.len() == 0 {
                    git_command(args3("diff", parent.as_str(), revision))
                } else {
                    let mut args = args4("diff", parent.as_str(), revision, "--");
                    push_names_with(&mut args, entries, StatusFilter::All);
                    git_command(args)
                }
            },
            None => {
                if entries.len() == 0 {
                    git_command(args2("diff", "-z"))
                } else {
                    let mut args = args2("diff", "--");
                    push_names_with(&mut args, entries, StatusFilter::All);
                    git_command(args)
                }
            },
        }
    }

    /// The plan that resolves conflicts taking our side: all of them (no entries), the named
    /// unmerged files, or nothing when none of the named files is unmerged.
    pub fn resolve_taking_ours(&self, entries: &[RevisionEntry]) -> (res: ProcessPlan)
        ensures
            plan_view(res) == resolve_stages(entries@, "--ours"@),
    {
        resolve(entries, "--ours")
    }

    /// The plan that resolves conflicts taking their side, as `resolve_taking_ours` does.
    pub fn resolve_taking_theirs(&self, entries: &[RevisionEntry]) -> (res: ProcessPlan)
        ensures
            plan_view(res) == resolve_stages(entries@, "--theirs"@),
    {
        resolve(entries, "--theirs")
    }

    /// The command that lists `len` log lines after the first `skip`, with the graph.
    pub fn log_command(&self, skip: usize, len: usize) -> (res: ProcessCommand)
        ensures
            command_view(res) == git(
                seq![
                    "log"@,
                    "--all"@,
                    "--decorate"@,
                    "--oneline"@,
                    "--graph"@,
                    "--skip"@,
                    decimal(skip as nat),
                    "--max-count"@,
                    decimal(len as nat),
                    "--format=format:%x00%h%x00%as%x00%aN%x00%D%x00%s"@,
                ],
            ),
    {
        let skip_text = usize_to_string(skip);
        let len_text = usize_to_string(len);
        let mut args = args6("log", "--all", "--decorate", "--oneline", "--graph", "--skip");
        let tail = args4(
            skip_text.as_str(),
            "--max-count",
            len_text.as_str(),
            "--format=format:%x00%h%x00%as%x00%aN%x00%D%x00%s",
        );
        let ghost head = views(args@);
        append_strings(&mut args, tail);
        assert(views(args@) =~= seq![
            "log"@,
            "--all"@,
            "--decorate"@,
            "--oneline"@,
            "--graph"@,
            "--skip"@,
            decimal(skip as nat),
            "--max-count"@,
            decimal(len as nat),
            "--format=format:%x00%h%x00%as%x00%aN%x00%D%x00%s"@,
        ]);
        git_command(args)
    }

    /// The log read from the output of `log_command`: one entry per line, its fields the
    /// pieces between NUL characters; the first index is `skip`.
    pub fn log(&self, skip: usize, output: BackendResult<String>) -> (res: BackendResult<(usize, Vec<LogEntry>)>)
        ensures
            match output {
                Ok(o) => res matches Ok((first, entries)) && first == skip && logs_view(entries@)
                    == lines_spec(o@).map_values(|l: Seq<char>| log_fields(l, '\0')),
                Err(e) => res == Err::<(usize, Vec<LogEntry>), String>(e),
            },
    {
        let output = match output {
            Ok(o) => o,
            Err(e) => return Err(e),
        };
        let entries = log_entries(output.as_str(), '\0');
        Ok((skip, entries))
    }

    /// The command that checks out a revision.
    pub fn checkout(&self, revision: &str) -> (res: ProcessCommand)
        ensures
            command_view(res) == git(seq!["checkout"@, revision@]),
    {
        let args = args2("checkout", revision);
        git_command(args)
    }

    /// The command that merges a revision.
    pub fn merge(&self, revision: &str) -> (res: ProcessCommand)
        ensures
            command_view(res) == git(seq!["merge"@, revision@]),
    {
        let args = args2("merge", revision);
        git_command(args)
    }

    /// The command that fetches from all remotes.
    pub fn fetch(&self) -> (res: ProcessCommand)
        ensures
            command_view(res) == git(seq!["fetch"@, "--all"@]),
    {
        git_command(args2("fetch", "--all"))
    }

    /// The command that pulls from all remotes.
    pub fn pull(&self) -> (res: ProcessCommand)
        ensures
            command_view(res) == git(seq!["pull"@, "--all"@]),
    {
        git_command(args2("pull", "--all"))
    }

    /// The command that pushes.
    pub fn push(&self) -> (res: ProcessCommand)
        ensures
            command_view(res) == git(seq!["push"@]),
    {
        git_command(args1("push"))
    }

    /// The commands whose outputs `revision_details` reads: the message, then the changes.
    pub fn revision_details_commands(&self, revision: &str) -> (res: (ProcessCommand, ProcessCommand))
        ensures
            command_view(res.0) == git(seq!["show"@, "-s"@, "--format=%B"@, revision@]),
            command_view(res.1) == git(
                seq![
                    "diff-tree"@,
                    "--no-commit-id"@,
                    "--name-status"@,
                    "-r"@,
                    "-z"@,
                    revision@,
                ],
            ),
    {
        let a = args4("show", "-s", "--format=%B", revision);
        let b = args6("diff-tree", "--no-commit-id", "--name-status", "-r", "-z", revision);
        (git_command(a), git_command(b))
    }

    /// The details of a revision: its message, trimmed, and the files of the NUL-separated
    /// status and name pairs; the first failed output is the error.
    pub fn revision_details(&self, message: BackendResult<String>, changes: BackendResult<String>) -> (res: BackendResult<RevisionInfo>)
        requires
            changes matches Ok(c) ==> changes_readable(split_spec(c@, '\0')),
        ensures
            match (message, changes) {
                (Err(e), _) => res == Err::<RevisionInfo, String>(e),
                (Ok(_), Err(e)) => res == Err::<RevisionInfo, String>(e),
                (Ok(m), Ok(c)) => res matches Ok(info) && info.message@ == trim_spec(m@)
                    && entries_view(info.entries@) == change_entries(split_spec(c@, '\0')),
            },
    {
        let message = match message {
            Ok(m) => trim(m.as_str()),
            Err(e) => return Err(e),
        };
        let changes = match changes {
            Ok(c) => c,
            Err(e) => return Err(e),
        };
        let pieces = split(changes.as_str(), '\0');
        let ghost ps = split_spec(changes@, '\0');
        let mut entries: Vec<RevisionEntry> = Vec::new();
        let mut i: usize = 0;
        assert(ps.skip(0) == ps);
        assert(entries_view(entries@) + change_entries(ps) =~= change_entries(ps));
        while i < pieces.len() && i + 1 < pieces.len() && !pieces[i].as_str().is_empty()
            invariant
                views(pieces@) == ps,
                i <= pieces@.len(),
                changes_readable(ps.skip(i as int)),
                entries_view(entries@) + change_entries(ps.skip(i as int)) == change_entries(ps),
            decreases pieces.len() - i,
        {
            let ghost rest = ps.skip(i as int);
            let status = parse_file_status(pieces[i].as_str());
            let name = pieces[i + 1].clone();
            let ghost before = entries_view(entries@);
            entries.push(RevisionEntry::new(name, status));
            assert(rest.skip(2) == ps.skip(i + 2));
            assert(entries_view(entries@) == before.push((false, ps[i + 1], status)));
            assert(change_entries(rest) == seq![(false, ps[i + 1], status)] + change_entries(
                rest.skip(2),
            ));
            assert(entries_view(entries@) + change_entries(ps.skip(i + 2)) =~= before
                + change_entries(rest));
            i += 2;
        }
        if i < pieces.len() && !pieces[i].as_str().is_empty() {
            // a status without a name still has to be a status
            let _ = parse_file_status(pieces[i].as_str());
        }
        assert(change_entries(ps.skip(i as int)) == Seq::<(bool, Seq<char>, FileStatus)>::empty());
        assert(entries_view(entries@) + Seq::<(bool, Seq<char>, FileStatus)>::empty()
            == entries_view(entries@));
        Ok(RevisionInfo { message, entries })
    }

    /// The command whose output `branches` reads.
    pub fn branches_command(&self) -> (res: ProcessCommand)
        ensures
            command_view(res) == git(
                seq!["branch"@, "--list"@, "--all"@, "--format=%(refname:short)%00%(HEAD)"@],
            ),
    {
        git_command(args4("branch", "--list", "--all", "--format=%(refname:short)%00%(HEAD)"))
    }

    /// The branches read from the output of `branches_command`: one per line, its name before
    /// a NUL character and checked out when `*` follows it.
    pub fn branches(&self, output: BackendResult<String>) -> (res: BackendResult<Vec<BranchEntry>>)
        ensures
            match output {
                Ok(o) => res matches Ok(bs) && bs@.len() == lines_spec(o@).len() && forall|i: int|
                    0 <= i < bs@.len() ==> ((#[trigger] bs@[i]).name@, bs@[i].checked_out)
                        == branch_of_line(lines_spec(o@)[i], '\0') && forall|i: int| 0 <= i < bs@.len()
                    ==> (#[trigger] bs@[i]).upstream_name@.len() == 0 && bs@[i].tracking_status@.len() == 0,
                Err(e) => res == Err::<Vec<BranchEntry>, String>(e),
            },
    {
        let output = match output {
            Ok(o) => o,
            Err(e) => return Err(e),
        };
        Ok(branches_of_lines(output.as_str(), '\0'))
    }

    /// The command whose output is the remote's name.
    pub fn remote_command(&self) -> (res: ProcessCommand)
        ensures
            command_view(res) == git(seq!["remote"@]),
    {
        git_command(args1("remote"))
    }

    /// The plan that creates a branch, checks it out and pushes it upstream to `remote` (the
    /// output of `remote_command`, trimmed).
    pub fn new_branch(&self, name: &str, remote: &str) -> (res: ProcessPlan)
        ensures
            plan_view(res) == seq![
                seq![git(seq!["branch"@, name@])],
                seq![git(seq!["checkout"@, name@])],
                seq![git(seq!["push"@, "--set-upstream"@, trim_spec(remote@), name@])],
            ],
    {
        let mut commands: Vec<ProcessCommand> = Vec::new();
        let a = args2("branch", name);
        commands.push(git_command(a));
        let b = args2("checkout", name);
        commands.push(git_command(b));
        let remote_name = trim(remote);
        let c = args4("push", "--set-upstream", remote_name.as_str(), name);
        commands.push(git_command(c));
        let res = serial_plan(commands);
        assert(plan_view(res) =~~= seq![
                seq![git(seq!["branch"@, name@])],
                seq![git(seq!["checkout"@, name@])],
                seq![git(seq!["push"@, "--set-upstream"@, trim_spec(remote@), name@])],
            ]);
        res
    }

    /// The plan that deletes a branch here and on `remote` (the output of `remote_command`).
    pub fn delete_branch(&self, name: &str, remote: &str) -> (res: ProcessPlan)
        ensures
            plan_view(res) == seq![
                seq![git(seq!["branch"@, "--delete"@, name@])],
                seq![git(seq!["push"@, "--delete"@, trim_spec(remote@), name@])],
            ],
    {
        let mut commands: Vec<ProcessCommand> = Vec::new();
        let a = args3("branch", "--delete", name);
        commands.push(git_command(a));
        let remote_name = trim(remote);
        let c = args4("push", "--delete", remote_name.as_str(), name);
        commands.push(git_command(c));
        let res = serial_plan(commands);
        assert(plan_view(res) =~~= seq![
                seq![git(seq!["branch"@, "--delete"@, name@])],
                seq![git(seq!["push"@, "--delete"@, trim_spec(remote@), name@])],
            ]);
        res
    }

    /// The command whose output `tags` reads.
    pub fn tags_command(&self) -> (res: ProcessCommand)
        ensures
            command_view(res) == git(seq!["tag"@, "--list"@, "--format=%(refname:short)"@]),
    {
        git_command(args3("tag", "--list", "--format=%(refname:short)"))
    }

    /// The tags read from the output of `tags_command`: one per line.
    pub fn tags(&self, output: BackendResult<String>) -> (res: BackendResult<Vec<TagEntry>>)
        ensures
            match output {
                Ok(o) => res matches Ok(ts) && ts@.map_values(|t: TagEntry| t.name@)
                    == lines_spec(o@),
                Err(e) => res == Err::<Vec<TagEntry>, String>(e),
            },
    {
        match output {
            Ok(o) => Ok(tags_of_lines(o.as_str())),
            Err(e) => Err(e),
        }
    }

    /// The plan that tags the current revision and pushes the tag to `remote`.
    pub fn new_tag(&self, name: &str, remote: &str) -> (res: ProcessPlan)
        ensures
            plan_view(res) == seq![
                seq![git(seq!["tag"@, "--force"@, name@])],
                seq![git(seq!["push"@, trim_spec(remote@), name@])],
            ],
    {
        let mut commands: Vec<ProcessCommand> = Vec::new();
        let a = args3("tag", "--force", name);
        commands.push(git_command(a));
        let remote_name = trim(remote);
        let c = args3("push", remote_name.as_str(), name);
        commands.push(git_command(c));
        let res = serial_plan(commands);
        assert(plan_view(res) =~~= seq![
                seq![git(seq!["tag"@, "--force"@, name@])],
                seq![git(seq!["push"@, trim_spec(remote@), name@])],
            ]);
        res
    }

    /// The plan that deletes a tag here and on `remote`.
    pub fn delete_tag(&self, name: &str, remote: &str) -> (res: ProcessPlan)
        ensures
            plan_view(res) == seq![
                seq![git(seq!["tag"@, "--delete"@, name@])],
                seq![git(seq!["push"@, "--delete"@, trim_spec(remote@), name@])],
            ],
    {
        let mut commands: Vec<ProcessCommand> = Vec::new();
        let a = args3("tag", "--delete", name);
        commands.push(git_command(a));
        let remote_name = trim(remote);
        let c = args4("push", "--delete", remote_name.as_str(), name);
        commands.push(git_command(c));
        let res = serial_plan(commands);
        assert(plan_view(res) =~~= seq![
                seq![git(seq!["tag"@, "--delete"@, name@])],
                seq![git(seq!["push"@, "--delete"@, trim_spec(remote@), name@])],
            ]);
        res
    }
}

/// The stages of a discard of named files: cleaning the untracked and removing the added
/// together, where there are any, then checking out the others, where there are any.
pub open spec fn discard_stages(entries: Seq<RevisionEntry>) -> Seq<Seq<(Seq<char>, Seq<Seq<char>>)>> {
    let untracked = names_with(entries, StatusFilter::Untracked);
    let added = names_with(entries, StatusFilter::Added);
    let others = names_with(entries, StatusFilter::NotUntrackedNorAdded);
    let first = (if untracked.len() > 0 {
        seq![git(seq!["clean"@, "--force"@, "--"@] + untracked)]
    } else {
        Seq::empty()
    }) + (if added.len() > 0 {
        seq![git(seq!["rm"@, "--force"@, "--"@] + added)]
    } else {
        Seq::empty()
    });
    (if first.len() > 0 {
        seq![first]
    } else {
        Seq::empty()
    }) + (if others.len() > 0 {
        seq![seq![git(seq!["checkout"@, "--"@] + others)]]
    } else {
        Seq::empty()
    })
}

/// Whether a stage of the plan runs `git` with `verb` first and `name` among its arguments.
pub open spec fn plan_runs_on(
    plan: Seq<Seq<(Seq<char>, Seq<Seq<char>>)>>,
    verb: Seq<char>,
    name: Seq<char>,
) -> bool {
    exists|i: int, j: int|
        0 <= i < plan.len() && 0 <= j < plan[i].len() && (#[trigger] plan[i][j]).0 == "git"@
            && plan[i][j].1.len() > 0 && plan[i][j].1[0] == verb && plan[i][j].1.contains(name)
}

proof fn lemma_args_contain(prefix: Seq<Seq<char>>, names: Seq<Seq<char>>, name: Seq<char>)
    requires
        names.contains(name),
    ensures
        (prefix + names).contains(name),
{
    let i = choose|i: int| 0 <= i < names.len() && names[i] == name;
    assert((prefix + names)[prefix.len() + i] == name);
}

/// Discarding the changes of some files touches each of them: an untracked file is cleaned,
/// an added one removed, and any other checked out, by a `git` command that names it.
pub proof fn lemma_discard_touches_every_file(entries: Seq<RevisionEntry>, k: int)
    requires
        0 <= k < entries.len(),
    ensures
        entries[k].status == FileStatus::Untracked ==> plan_runs_on(
            discard_stages(entries),
            "clean"@,
            entries[k].name@,
        ),
        entries[k].status == FileStatus::Added ==> plan_runs_on(
            discard_stages(entries),
            "rm"@,
            entries[k].name@,
        ),
        entries[k].status != FileStatus::Untracked && entries[k].status != FileStatus::Added
            ==> plan_runs_on(discard_stages(entries), "checkout"@, entries[k].name@),
{
    let name = entries[k].name@;
    let untracked = names_with(entries, StatusFilter::Untracked);
    let added = names_with(entries, StatusFilter::Added);
    let others = names_with(entries, StatusFilter::NotUntrackedNorAdded);
    let plan = discard_stages(entries);
    let first = (if untracked.len() > 0 {
        seq![git(seq!["clean"@, "--force"@, "--"@] + untracked)]
    } else {
        Seq::empty()
    }) + (if added.len() > 0 {
        seq![git(seq!["rm"@, "--force"@, "--"@] + added)]
    } else {
        Seq::empty()
    });
    if entries[k].status == FileStatus::Untracked {
        lemma_names_with_contains(entries, StatusFilter::Untracked, k);
        lemma_args_contain(seq!["clean"@, "--force"@, "--"@], untracked, name);
        assert(plan[0][0] == git(seq!["clean"@, "--force"@, "--"@] + untracked));
    } else if entries[k].status == FileStatus::Added {
        lemma_names_with_contains(entries, StatusFilter::Added, k);
        lemma_args_contain(seq!["rm"@, "--force"@, "--"@], added, name);
        let j = if untracked.len() > 0 { 1int } else { 0int };
        assert(first[j] == git(seq!["rm"@, "--force"@, "--"@] + added));
        assert(plan[0][j] == git(seq!["rm"@, "--force"@, "--"@] + added));
    } else {
        assert(keeps(StatusFilter::NotUntrackedNorAdded, entries[k].status));
        lemma_names_with_contains(entries, StatusFilter::NotUntrackedNorAdded, k);
        lemma_args_contain(seq!["checkout"@, "--"@], others, name);
        let i = if first.len() > 0 { 1int } else { 0int };
        assert(plan[i][0] == git(seq!["checkout"@, "--"@] + others));
    }
}

/// Discarding the changes of some files touches only them, each in its way, and the cleaning
/// and removing come first: a plan of at most two stages, whose commands are `git clean
/// --force --` with untracked names, `git rm --force --` with added names, or `git checkout
/// --` with names of other files, the checkout alone in the last stage.
pub proof fn lemma_discard_touches_only_those_files(entries: Seq<RevisionEntry>)
    ensures
        discard_stages(entries).len() <= 2,
        forall|i: int, j: int|
            0 <= i < discard_stages(entries).len() && 0 <= j < discard_stages(entries)[i].len() ==> {
                let (program, args) = #[trigger] discard_stages(entries)[i][j];
                &&& program == "git"@
                &&& args.len() >= 2
                &&& args[0] == "clean"@ ==> args.len() >= 3 && args[1] == "--force"@ && args[2] == "--"@
                    && forall|t: int| 3 <= t < args.len() ==> kept_name(entries, StatusFilter::Untracked, #[trigger] args[t])
                &&& args[0] == "rm"@ ==> args.len() >= 3 && args[1] == "--force"@ && args[2] == "--"@
                    && forall|t: int| 3 <= t < args.len() ==> kept_name(entries, StatusFilter::Added, #[trigger] args[t])
                &&& args[0] == "checkout"@ ==> args[1] == "--"@ && i == discard_stages(entries).len() - 1
                    && forall|t: int| 2 <= t < args.len() ==> kept_name(entries, StatusFilter::NotUntrackedNorAdded, #[trigger] args[t])
                &&& args[0] == "clean"@ || args[0] == "rm"@ || args[0] == "checkout"@
            },
{
    let untracked = names_with(entries, StatusFilter::Untracked);
    let added = names_with(entries, StatusFilter::Added);
    let others = names_with(entries, StatusFilter::NotUntrackedNorAdded);
    lemma_names_with_kept(entries, StatusFilter::Untracked);
    lemma_names_with_kept(entries, StatusFilter::Added);
    lemma_names_with_kept(entries, StatusFilter::NotUntrackedNorAdded);
    reveal_strlit("clean");
    reveal_strlit("rm");
    reveal_strlit("checkout");
    let clean = seq!["clean"@, "--force"@, "--"@] + untracked;
    let rm = seq!["rm"@, "--force"@, "--"@] + added;
    let checkout = seq!["checkout"@, "--"@] + others;
    assert forall|t: int| 3 <= t < clean.len() implies kept_name(entries, StatusFilter::Untracked, #[trigger] clean[t]) by {
        assert(clean[t] == untracked[t - 3]);
    }
    assert forall|t: int| 3 <= t < rm.len() implies kept_name(entries, StatusFilter::Added, #[trigger] rm[t]) by {
        assert(rm[t] == added[t - 3]);
    }
    assert forall|t: int| 2 <= t < checkout.len() implies kept_name(entries, StatusFilter::NotUntrackedNorAdded, #[trigger] checkout[t]) by {
        assert(checkout[t] == others[t - 2]);
    }
    assert("clean"@ != "rm"@) by {
        assert("clean"@.len() != "rm"@.len());
    }
    assert("clean"@ != "checkout"@) by {
        assert("clean"@.len() != "checkout"@.len());
    }
    assert("rm"@ != "checkout"@) by {
        assert("rm"@.len() != "checkout"@.len());
    }
}

/// The stages that resolve conflicts taking the side `side`.
pub open spec fn resolve_stages(entries: Seq<RevisionEntry>, side: Seq<char>) -> Seq<Seq<(Seq<char>, Seq<Seq<char>>)>> {
    if entries.len() == 0 {
        seq![seq![git(seq!["checkout"@, "."@, side])]]
    } else if names_with(entries, StatusFilter::Unmerged).len() == 0 {
        Seq::empty()
    } else {
        seq![
            seq![
                git(
                    seq!["checkout"@, "."@, side, "--"@] + names_with(entries, StatusFilter::Unmerged),
                ),
            ],
        ]
    }
}

fn resolve(entries: &[RevisionEntry], side: &str) -> (res: ProcessPlan)
    ensures
        plan_view(res) == resolve_stages(entries@, side@),
{
    let mut commands: Vec<ProcessCommand> = Vec::new();
    if entries.len() == 0 {
        commands.push(git_command(args3("checkout", ".", side)));
    } else if any_with(entries, StatusFilter::Unmerged) {
        let mut args = args4("checkout", ".", side, "--");
        push_names_with(&mut args, entries, StatusFilter::Unmerged);
        commands.push(git_command(args));
    }
    let res = serial_plan(commands);
    assert(plan_view(res) =~~= resolve_stages(entries@, side@));
    res
}

} // verus!
