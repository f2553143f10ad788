use vstd::prelude::*;

use crate::backend::{
    any_with, args1, args2, args3, args4, args5, args6, command, command_view, commands_view,
    entries_view, log_view, logs_view, names_with, plan_view, push_names_with, serial_plan,
    tags_of_lines, BackendResult, BranchEntry, FileStatus, LogEntry, ProcessCommand,
    ProcessPlan, RevisionEntry, RevisionInfo, StatusFilter, StatusInfo, TagEntry,
};
use crate::text::{
    chars_of, concat, lemma_split_nonempty, lines, lines_spec, piece_at, piece_or_empty, split,
    split_spec, splitn, splitn_spec, str_equal, string_of, trim, trim_spec, views,
};

verus! {

/// The Plastic SCM backend.
pub struct Plastic;

/// The status that a Plastic SCM status code stands for, if it is one of those read.
pub open spec fn plastic_status_code(s: Seq<char>) -> Option<FileStatus> {
    if s == "CH"@ {
        Some(FileStatus::Modified)
    } else if s == "CO"@ {
        Some(FileStatus::Added)
    } else if s == "LD"@ {
        Some(FileStatus::Deleted)
    } else if s == "PR"@ {
        Some(FileStatus::Untracked)
    } else {
        None
    }
}

/// The status named by a Plastic SCM status code; it must be one of those read.
pub fn parse_file_status(s: &str) -> (res: FileStatus)
    requires
        plastic_status_code(s@) is Some,
    ensures
        plastic_status_code(s@) == Some(res),
{
    if str_equal(s, "CH") {
        FileStatus::Modified
    } else if str_equal(s, "CO") {
        FileStatus::Added
    } else if str_equal(s, "LD") {
        FileStatus::Deleted
    } else {
        FileStatus::Untracked
    }
}

/// The fields of a machine readable status line.
pub open spec fn fields(line: Seq<char>) -> Seq<Seq<char>> {
    split_spec(line, '\x1f')
}

/// Whether every line of a machine readable status starts with a status code.
pub open spec fn status_lines_readable(output: Seq<char>) -> bool {
    forall|i: int|
        0 <= i < lines_spec(output).len() ==> (#[trigger] plastic_status_code(
            piece_or_empty(fields(lines_spec(output)[i]), 0),
        )) is Some
}

/// Whether `s` is one of the status codes read.
pub fn is_status_code(s: &str) -> (res: bool)
    ensures
        res == (plastic_status_code(s@) is Some),
{
    str_equal(s, "CH") || str_equal(s, "CO") || str_equal(s, "LD") || str_equal(s, "PR")
}

/// Whether every line of a machine readable status starts with a status code, as `status`
/// needs.
pub fn status_output_readable(output: &str) -> (res: bool)
    ensures
        res == status_lines_readable(output@),
{
    let ls = lines(output);
    let ghost lv = lines_spec(output@);
    let mut i: usize = 0;
    while i < ls.len()
        invariant
            i <= ls@.len(),
            views(ls@) == lv,
            lv == lines_spec(output@),
            forall|j: int|
                0 <= j < i ==> (#[trigger] plastic_status_code(piece_or_empty(fields(lv[j]), 0)))
                    is Some,
        decreases ls.len() - i,
    {
        let fs = split(ls[i].as_str(), '\x1f');
        let code = piece_at(&fs, 0);
        assert(code@ == piece_or_empty(fields(lv[i as int]), 0));
        if !is_status_code(code.as_str()) {
            return false;
        }
        i += 1;
    }
    true
}

/// The file entry of a machine readable status line.
pub open spec fn status_line_entry(line: Seq<char>) -> (bool, Seq<char>, FileStatus) {
    (
        false,
        piece_or_empty(fields(line), 1),
        match plastic_status_code(piece_or_empty(fields(line), 0)) {
            Some(s) => s,
            None => FileStatus::Clean,
        },
    )
}

/// The names in the second field of the lines that have one.
pub open spec fn second_fields(ls: Seq<Seq<char>>) -> Seq<Seq<char>>
    decreases ls.len(),
{
    if ls.len() == 0 {
        Seq::empty()
    } else {
        let prev = second_fields(ls.drop_last());
        if fields(ls.last()).len() >= 2 {
            prev.push(fields(ls.last())[1])
        } else {
            prev
        }
    }
}

/// The first occurrence of `c` in `s`.
pub open spec fn first_index(s: Seq<char>, c: char) -> Option<int> {
    if exists|i: int| 0 <= i < s.len() && s[i] == c {
        Some(choose|i: int| 0 <= i < s.len() && s[i] == c && forall|j: int| 0 <= j < i ==> s[j] != c)
    } else {
        None
    }
}

/// A `cm` command with the given arguments, as plain values.
pub open spec fn cm(args: Seq<Seq<char>>) -> (Seq<char>, Seq<Seq<char>>) {
    ("cm"@, args)
}

fn cm_command(args: Vec<String>) -> (res: ProcessCommand)
    ensures
        command_view(res) == cm(views(args@)),
{
    command("cm", args)
}

/// The entry of one changeset record, given the current changeset.
pub open spec fn changeset_entry(record: Seq<char>, current: Seq<char>) -> Seq<Seq<char>> {
    let ps = splitn_spec(record, '\x1f', 5);
    let hash = trim_spec(piece_or_empty(ps, 0));
    seq![
        if hash == current {
            "*"@
        } else {
            " "@
        },
        hash,
        piece_or_empty(ps, 1),
        piece_or_empty(ps, 2),
        piece_or_empty(ps, 3),
        piece_or_empty(ps, 4),
    ]
}

/// The number of log entries shown: at most `len` of the records before the skipped ones.
pub open spec fn log_count(records: nat, skip: nat, len: nat) -> nat {
    if records <= skip + 1 {
        0
    } else if records - skip - 1 < len {
        (records - skip - 1) as nat
    } else {
        len
    }
}

/// The status code of a `cm log` item, if it is one of those read.
pub open spec fn item_status(s: Seq<char>) -> Option<FileStatus> {
    if s == "A"@ {
        Some(FileStatus::Added)
    } else if s == "D"@ {
        Some(FileStatus::Deleted)
    } else if s == "M"@ {
        Some(FileStatus::Renamed)
    } else if s == "C"@ {
        Some(FileStatus::Modified)
    } else {
        None
    }
}

/// The files of the fields after the message: status and name pairs until a status is not
/// one of those read or a name is missing.
pub open spec fn item_entries(ps: Seq<Seq<char>>) -> Seq<(bool, Seq<char>, FileStatus)>
    decreases ps.len(),
{
    if ps.len() >= 2 && item_status(ps[0]) is Some {
        seq![
            (
                false,
                ps[1],
                match item_status(ps[0]) {
                    Some(s) => s,
                    None => FileStatus::Clean,
                },
            ),
        ] + item_entries(ps.skip(2))
    } else {
        Seq::empty()
    }
}

impl Plastic {
    /// The command that finds the workspace of the current directory.
    pub fn root_command() -> (res: ProcessCommand)
        ensures
            command_view(res) == cm(seq!["getworkspacefrompath"@, "--format={wkpath}"@, "."@]),
    {
        cm_command(args3("getworkspacefrompath", "--format={wkpath}", "."))
    }

    /// The workspace whose path `root_command` printed, if it succeeded.
    pub fn try_new(output: BackendResult<String>) -> (res: Option<(String, Self)>)
        ensures
            match output {
                Ok(o) => res matches Some((root, _)) && root@ == trim_spec(o@),
                Err(_) => res is None,
            },
    {
        match output {
            Ok(o) => Some((trim(o.as_str()), Plastic)),
            Err(_) => None,
        }
    }

    /// The commands whose outputs `status` reads: the header, then the machine readable status.
    pub fn status_commands(&self) -> (res: (ProcessCommand, ProcessCommand))
        ensures
            command_view(res.0) == cm(seq!["status"@, "--header"@]),
            command_view(res.1) == cm(
                seq![
                    "status"@,
                    "--short"@,
                    "--nomergesinfo"@,
                    "--machinereadable"@,
                    "--fieldseparator=\x1f"@,
                ],
            ),
    {
        (
            cm_command(args2("status", "--header")),
            cm_command(
                args5(
                    "status",
                    "--short",
                    "--nomergesinfo",
                    "--machinereadable",
                    "--fieldseparator=\x1f",
                ),
            ),
        )
    }

    /// The working copy status: the header trimmed, and one file per status line; the first
    /// failed output is the error.
    pub fn status(&self, header: BackendResult<String>, output: BackendResult<String>) -> (res: BackendResult<StatusInfo>)
        requires
            output matches Ok(o) ==> status_lines_readable(o@),
        ensures
            match (header, output) {
                (Err(e), _) => res == Err::<StatusInfo, String>(e),
                (Ok(_), Err(e)) => res == Err::<StatusInfo, String>(e),
                (Ok(h), Ok(o)) => res matches Ok(info) && info.header@ == trim_spec(h@)
                    && entries_view(info.entries@) == lines_spec(o@).map_values(
                    |l: Seq<char>| status_line_entry(l),
                ),
            },
    {
        let header = match header {
            Ok(h) => trim(h.as_str()),
            Err(e) => return Err(e),
        };
        let output = match output {
            Ok(o) => o,
            Err(e) => return Err(e),
        };
        let ls = lines(output.as_str());
        let ghost lv = lines_spec(output@);
        let mut entries: Vec<RevisionEntry> = Vec::new();
        let mut i: usize = 0;
        while i < ls.len()
            invariant
                i <= ls@.len(),
                views(ls@) == lv,
                lv == lines_spec(output@),
                status_lines_readable(output@),
                entries_view(entries@) == lv.take(i as int).map_values(
                    |l: Seq<char>| status_line_entry(l),
                ),
            decreases ls.len() - i,
        {
            let fs = split(ls[i].as_str(), '\x1f');
            let code = piece_at(&fs, 0);
            proof {
                assert(plastic_status_code(piece_or_empty(fields(lv[i as int]), 0)) is Some);
            }
            let status = parse_file_status(code.as_str());
            let name = piece_at(&fs, 1);
            let ghost before = entries_view(entries@);
            entries.push(RevisionEntry::new(name, status));
            assert(entries_view(entries@) =~= before.push(status_line_entry(lv[i as int])));
            assert(lv.take(i + 1).map_values(|l: Seq<char>| status_line_entry(l)) =~= lv.take(
                i as int,
            ).map_values(|l: Seq<char>| status_line_entry(l)).push(status_line_entry(lv[i as int])));
            i += 1;
        }
        assert(lv.take(lv.len() as int) == lv);
        Ok(StatusInfo { header, entries })
    }

    /// The command that lists the private (untracked) files.
    pub fn untracked_command(&self) -> (res: ProcessCommand)
        ensures
            command_view(res) == cm(
                seq![
                    "status"@,
                    "--short"@,
                    "--nomergesinfo"@,
                    "--private"@,
                    "--machinereadable"@,
                    "--fieldseparator=\x1f"@,
                ],
            ),
    {
        cm_command(
            args6(
                "status",
                "--short",
                "--nomergesinfo",
                "--private",
                "--machinereadable",
                "--fieldseparator=\x1f",
            ),
        )
    }

    /// The names that the output of `untracked_command` lists: the second field of each line
    /// that has one.
    pub fn untracked_names(listing: &str) -> (res: Vec<String>)
        ensures
            views(res@) == second_fields(lines_spec(listing@)),
    {
        let ls = lines(listing);
        let ghost lv = lines_spec(listing@);
        let mut res: Vec<String> = Vec::new();
        let mut i: usize = 0;
        while i < ls.len()
            invariant
                i <= ls@.len(),
                views(ls@) == lv,
                views(res@) == second_fields(lv.take(i as int)),
            decreases ls.len() - i,
        {
            assert(lv.take(i + 1).drop_last() == lv.take(i as int));
            let fs = split(ls[i].as_str(), '\x1f');
            if fs.len() >= 2 {
                let ghost before = views(res@);
                res.push(fs[1].clone());
                assert(views(res@) =~= before.push(fields(lv[i as int])[1]));
            }
            i += 1;
        }
        assert(lv.take(lv.len() as int) == lv);
        res
    }

    /// The plan that checks in: with no entries, adds the untracked files of `listing` (the
    /// output of `untracked_command`) where there are any and checks in everything; else adds
    /// the untracked entries where there are any, checks in the entries and commits.
    pub fn commit(&self, message: &str, entries: &[RevisionEntry], listing: &str) -> (res: ProcessPlan)
        ensures
            entries@.len() == 0 ==> plan_view(res) == (if second_fields(lines_spec(listing@)).len()
                > 0 {
                seq![seq![cm(seq!["add"@] + second_fields(lines_spec(listing@)))]]
            } else {
                Seq::empty()
            }) + seq![seq![cm(seq!["checkin"@, "--all"@])]],
            entries@.len() > 0 ==> plan_view(res) == (if names_with(
                entries@,
                StatusFilter::Untracked,
            ).len() > 0 {
                seq![seq![cm(seq!["add"@] + names_with(entries@, StatusFilter::Untracked))]]
            } else {
                Seq::empty()
            }) + seq![
                seq![cm(seq!["checkin"@] + names_with(entries@, StatusFilter::All))],
                seq![cm(seq!["commit"@, "-m"@, message@])],
            ],
    {
        let mut commands: Vec<ProcessCommand> = Vec::new();
        if entries.len() == 0 {
            let names = Self::untracked_names(listing);
            if names.len() > 0 {
                let mut args = args1("add");
                let ghost before = views(args@);
                crate::backend::append_strings(&mut args, names);
                commands.push(cm_command(args));
            }
            commands.push(cm_command(args2("checkin", "--all")));
            let res = serial_plan(commands);
            assert(plan_view(res) =~~= (if second_fields(lines_spec(listing@)).len() > 0 {
                seq![seq![cm(seq!["add"@] + second_fields(lines_spec(listing@)))]]
            } else {
                Seq::empty()
            }) + seq![seq![cm(seq!["checkin"@, "--all"@])]]);
            return res;
        }
        if any_with(entries, StatusFilter::Untracked) {
            let mut args = args1("add");
            push_names_with(&mut args, entries, StatusFilter::Untracked);
            commands.push(cm_command(args));
        }
        let mut args = args1("checkin");
        push_names_with(&mut args, entries, StatusFilter::All);
        commands.push(cm_command(args));
        commands.push(cm_command(args3("commit", "-m", message)));
        let res = serial_plan(commands);
        assert(plan_view(res) =~~= (if names_with(entries@, StatusFilter::Untracked).len() > 0 {
            seq![seq![cm(seq!["add"@] + names_with(entries@, StatusFilter::Untracked))]]
        } else {
            Seq::empty()
        }) + seq![
            seq![cm(seq!["checkin"@] + names_with(entries@, StatusFilter::All))],
            seq![cm(seq!["commit"@, "-m"@, message@])],
        ]);
        res
    }

    /// What discarding does: the files to delete from disk first, and the plan that undoes the
    /// rest. With no entries nothing is deleted here and everything is undone; the untracked
    /// files that `untracked_command` lists afterwards are deleted then.
    pub fn discard(&self, entries: &[RevisionEntry]) -> (res: (Vec<String>, ProcessPlan))
        ensures
            entries@.len() == 0 ==> res.0@.len() == 0 && plan_view(res.1) == seq![
                seq![cm(seq!["undo"@, "."@, "-r"@])],
            ],
            entries@.len() > 0 ==> views(res.0@) == names_with(entries@, StatusFilter::Untracked)
                && plan_view(res.1) == (if names_with(entries@, StatusFilter::NotUntracked).len()
                > 0 {
                seq![seq![cm(seq!["undo"@] + names_with(entries@, StatusFilter::NotUntracked))]]
            } else {
                Seq::empty()
            }),
    {
        let mut commands: Vec<ProcessCommand> = Vec::new();
        if entries.len() == 0 {
            commands.push(cm_command(args3("undo", ".", "-r")));
            let res = serial_plan(commands);
            assert(plan_view(res) =~~= seq![seq![cm(seq!["undo"@, "."@, "-r"@])]]);
            return (Vec::new(), res);
        }
        let mut deletions: Vec<String> = Vec::new();
        push_names_with(&mut deletions, entries, StatusFilter::Untracked);
        assert(views(deletions@) =~= names_with(entries@, StatusFilter::Untracked));
        if any_with(entries, StatusFilter::NotUntracked) {
            let mut args = args1("undo");
            push_names_with(&mut args, entries, StatusFilter::NotUntracked);
            commands.push(cm_command(args));
        }
        let res = serial_plan(commands);
        assert(plan_view(res) =~~= (if names_with(entries@, StatusFilter::NotUntracked).len() > 0 {
            seq![seq![cm(seq!["undo"@] + names_with(entries@, StatusFilter::NotUntracked))]]
        } else {
            Seq::empty()
        }));
        (deletions, res)
    }

    /// The command whose output `diff` needs to show a whole changeset.
    pub fn head_command(&self) -> (res: ProcessCommand)
        ensures
            command_view(res) == cm(seq!["status"@, "--head"@]),
    {
        cm_command(args2("status", "--head"))
    }

    /// The command that shows a diff: at most one file can be named; with a revision and no file
    /// the changeset opens in the GUI, placed by the part of `head` (the output of
    /// `head_command`) from its first `@`; pending changes need a file.
    pub fn diff(&self, revision: Option<&str>, entries: &[RevisionEntry], head: &str) -> (res: BackendResult<ProcessCommand>)
        ensures
            entries@.len() > 1 ==> (res matches Err(e) && e@
                == "can not diff more than one file at a time"@),
            entries@.len() == 1 ==> (res matches Ok(c) && command_view(c) == cm(
                match revision {
                    Some(r) => seq!["diff"@, r@, entries@[0].name@],
                    None => seq!["diff"@, entries@[0].name@],
                },
            )),
            entries@.len() == 0 && revision is None ==> (res matches Err(e) && e@
                == "diff is not implemented for pending changes"@),
            entries@.len() == 0 && revision is Some ==> match first_index(head@, '@') {
                None => res matches Err(e) && e@ == "could not parse head"@,
                Some(i) => res matches Ok(c) && command_view(c) == (
                    "plastic"@,
                    seq!["--showchangeset=cs:"@ + revision->0@ + head@.skip(i)],
                ),
            },
    {
        if entries.len() > 1 {
            return Err("can not diff more than one file at a time".to_owned());
        }
        match revision {
            Some(revision) => {
                if entries.len() == 1 {
                    Ok(cm_command(args3("diff", revision, entries[0].name.as_str())))
                } else {
                    let c = chars_of(head);
                    let mut i: usize = 0;
                    while i < c.len() && c[i] != '@'
                        invariant
                            c@ == head@,
                            i <= c@.len(),
                            forall|j: int| 0 <= j < i ==> c@[j] != '@',
                        decreases c.len() - i,
                    {
                        i += 1;
                    }
                    if i == c.len() {
                        return Err("could not parse head".to_owned());
                    }
                    proof {
                        assert(first_index(head@, '@') == Some(i as int)) by {
                            let w = choose|w: int|
                                0 <= w < head@.len() && head@[w] == '@' && forall|j: int|
                                    0 <= j < w ==> head@[j] != '@';
                            assert(0 <= i < head@.len() && head@[i as int] == '@');
                            if w < i {
                                assert(c@[w] != '@');
                            }
                            if w > i {
                                assert(head@[i as int] != '@');
                            }
                        }
                    }
                    let suffix = string_of(&c, i, c.len());
                    let prefix = concat("--showchangeset=cs:", revision);
                    let arg = concat(prefix.as_str(), suffix.as_str());
                    let res = command("plastic", args1(arg.as_str()));
                    assert(c@.subrange(i as int, c@.len() as int) == head@.skip(i as int));
                    Ok(res)
                }
            },
            None => {
                if entries.len() == 1 {
                    Ok(cm_command(args2("diff", entries[0].name.as_str())))
                } else {
                    Err("diff is not implemented for pending changes".to_owned())
                }
            },
        }
    }

    /// The plan that resolves conflicts keeping the destination: all of them (no entries), the
    /// named unmerged files, or nothing when none of the named files is unmerged.
    pub fn resolve_taking_ours(&self, entries: &[RevisionEntry]) -> (res: ProcessPlan)
        ensures
            plan_view(res) == resolve_stages(entries@, "--keepdestination"@, "--ours"@),
    {
        resolve(entries, "--keepdestination", "--ours")
    }

    /// The plan that resolves conflicts keeping the source, as `resolve_taking_ours` does.
    pub fn resolve_taking_theirs(&self, entries: &[RevisionEntry]) -> (res: ProcessPlan)
        ensures
            plan_view(res) == resolve_stages(entries@, "--keepsource"@, "--theirs"@),
    {
        resolve(entries, "--keepsource", "--theirs")
    }

    /// The commands whose outputs `log` reads: the current changeset, then all changesets.
    pub fn log_commands(&self) -> (res: (ProcessCommand, ProcessCommand))
        ensures
            command_view(res.0) == cm(
                seq!["status"@, "--header"@, "--machinereadable"@, "--fieldseparator=\x1f"@],
            ),
            command_view(res.1) == cm(
                seq![
                    "find"@,
                    "changeset"@,
                    "--nototal"@,
                    "--format={changesetid}\x1f{date}\x1f{owner}\x1f{branch}\x1f{comment}\x1e"@,
                ],
            ),
    {
        (
            cm_command(args4("status", "--header", "--machinereadable", "--fieldseparator=\x1f")),
            cm_command(
                args4(
                    "find",
                    "changeset",
                    "--nototal",
                    "--format={changesetid}\x1f{date}\x1f{owner}\x1f{branch}\x1f{comment}\x1e",
                ),
            ),
        )
    }

    /// The log: the changeset records, newest first, after skipping `skip + 1` of them (the
    /// empty one after the last separator among them), at most `len`; the current changeset
    /// (second field of `current`) is marked in the graph column.
    pub fn log(&self, skip: usize, len: usize, current: BackendResult<String>, output: BackendResult<String>) -> (res: BackendResult<Vec<LogEntry>>)
        requires
            skip < usize::MAX,
        ensures
            match (current, output) {
                (Err(e), _) => res == Err::<Vec<LogEntry>, String>(e),
                (Ok(_), Err(e)) => res == Err::<Vec<LogEntry>, String>(e),
                (Ok(c), Ok(o)) => res matches Ok(entries) && {
                    let records = split_spec(o@, '\x1e');
                    let cur = piece_or_empty(split_spec(c@, '\x1f'), 1);
                    &&& entries@.len() == log_count(records.len(), skip as nat, len as nat)
                    &&& forall|i: int|
                        0 <= i < entries@.len() ==> log_view(#[trigger] entries@[i])
                            == changeset_entry(records[records.len() - 2 - skip - i], cur)
                },
            },
    {
        let current = match current {
            Ok(c) => c,
            Err(e) => return Err(e),
        };
        let output = match output {
            Ok(o) => o,
            Err(e) => return Err(e),
        };
        let cur_fields = split(current.as_str(), '\x1f');
        let cur = piece_at(&cur_fields, 1);
        let records = split(output.as_str(), '\x1e');
        let ghost rs = split_spec(output@, '\x1e');
        let n = records.len();
        let mut entries: Vec<LogEntry> = Vec::new();
        if n > skip + 1 {
            let count = if n - skip - 1 < len {
                n - skip - 1
            } else {
                len
            };
            let mut i: usize = 0;
            while i < count
                invariant
                    n == rs.len(),
                    views(records@) == rs,
                    n > skip + 1,
                    count <= n - skip - 1,
                    i <= count,
                    entries@.len() == i,
                    forall|j: int|
                        0 <= j < i ==> log_view(#[trigger] entries@[j]) == changeset_entry(
                            rs[n - 2 - skip - j],
                            cur@,
                        ),
                decreases count - i,
            {
                let record = records[n - 2 - skip - i].as_str();
                let ps = splitn(record, 5, '\x1f');
                let first = piece_at(&ps, 0);
                let hash = trim(first.as_str());
                let graph = if str_equal(hash.as_str(), cur.as_str()) {
                    "*".to_owned()
                } else {
                    " ".to_owned()
                };
                let entry = LogEntry {
                    graph,
                    hash,
                    date: piece_at(&ps, 1),
                    author: piece_at(&ps, 2),
                    refs: piece_at(&ps, 3),
                    message: piece_at(&ps, 4),
                };
                assert(log_view(entry) =~= changeset_entry(rs[n - 2 - skip - i], cur@));
                entries.push(entry);
                i += 1;
            }
        }
        Ok(entries)
    }

    /// The command that switches to a revision.
    pub fn checkout(&self, revision: &str) -> (res: ProcessCommand)
        ensures
            command_view(res) == cm(seq!["switch"@, revision@]),
    {
        cm_command(args2("switch", revision))
    }

    /// The command that merges a revision.
    pub fn merge(&self, revision: &str) -> (res: ProcessCommand)
        ensures
            command_view(res) == cm(seq!["merge"@, "--merge"@, revision@]),
    {
        cm_command(args3("merge", "--merge", revision))
    }

    /// Fetching runs nothing.
    pub fn fetch(&self) -> (res: ProcessPlan)
        ensures
            plan_view(res).len() == 0,
    {
        ProcessPlan { stages: Vec::new() }
    }

    /// The command that updates the workspace.
    pub fn pull(&self) -> (res: ProcessCommand)
        ensures
            command_view(res) == cm(seq!["update"@]),
    {
        cm_command(args1("update"))
    }

    /// Pushing runs nothing.
    pub fn push(&self) -> (res: ProcessPlan)
        ensures
            plan_view(res).len() == 0,
    {
        ProcessPlan { stages: Vec::new() }
    }

    /// The command whose output `revision_details` reads.
    pub fn revision_details_command(&self, revision: &str) -> (res: ProcessCommand)
        ensures
            command_view(res) == cm(
                seq![
                    "log"@,
                    revision@,
                    "--csformat={comment}\x1f{items}"@,
                    "--itemformat={shortstatus}\x1f{path}\x1f"@,
                ],
            ),
    {
        cm_command(
            args4(
                "log",
                revision,
                "--csformat={comment}\x1f{items}",
                "--itemformat={shortstatus}\x1f{path}\x1f",
            ),
        )
    }

    /// The details of a revision: the first field is the message, then status and name pairs.
    pub fn revision_details(&self, output: BackendResult<String>) -> (res: BackendResult<RevisionInfo>)
        ensures
            match output {
                Ok(o) => res matches Ok(info) && info.message@ == split_spec(o@, '\x1f')[0]
                    && entries_view(info.entries@) == item_entries(split_spec(o@, '\x1f').skip(1)),
                Err(e) => res == Err::<RevisionInfo, String>(e),
            },
    {
        let output = match output {
            Ok(o) => o,
            Err(e) => return Err(e),
        };
        let ps = split(output.as_str(), '\x1f');
        let ghost pv = split_spec(output@, '\x1f');
        proof {
            lemma_split_nonempty(output@, '\x1f');
        }
        let message = ps[0].clone();
        let mut entries: Vec<RevisionEntry> = Vec::new();
        let mut i: usize = 1;
        assert(entries_view(entries@) + item_entries(pv.skip(1)) =~= item_entries(pv.skip(1)));
        loop
            invariant
                views(ps@) == pv,
                1 <= i <= ps@.len(),
                entries_view(entries@) + item_entries(pv.skip(i as int)) == item_entries(
                    pv.skip(1),
                ),
            ensures
                entries_view(entries@) == item_entries(pv.skip(1)),
            decreases ps@.len() - i,
        {
            let ghost rest = pv.skip(i as int);
            if i >= ps.len() - 1 {
                assert(item_entries(rest) =~= Seq::<(bool, Seq<char>, FileStatus)>::empty());
                assert(entries_view(entries@) + Seq::<(bool, Seq<char>, FileStatus)>::empty()
                    =~= entries_view(entries@));
                break;
            }
            let code = ps[i].as_str();
            let status = if str_equal(code, "A") {
                FileStatus::Added
            } else if str_equal(code, "D") {
                FileStatus::Deleted
            } else if str_equal(code, "M") {
                FileStatus::Renamed
            } else if str_equal(code, "C") {
                FileStatus::Modified
            } else {
                assert(item_entries(rest) =~= Seq::<(bool, Seq<char>, FileStatus)>::empty());
                assert(entries_view(entries@) + Seq::<(bool, Seq<char>, FileStatus)>::empty()
                    =~= entries_view(entries@));
                break;
            };
            let name = ps[i + 1].clone();
            let ghost before = entries_view(entries@);
            entries.push(RevisionEntry::new(name, status));
            assert(rest.skip(2) == pv.skip(i + 2));
            assert(item_entries(rest) == seq![(false, pv[i + 1], status)] + item_entries(
                rest.skip(2),
            ));
            assert(entries_view(entries@) + item_entries(pv.skip(i + 2)) =~= before
                + item_entries(rest));
            i += 2;
        }
        Ok(RevisionInfo { message, entries })
    }

    /// The commands whose outputs `branches` reads: the header, then the branch names.
    pub fn branches_commands(&self) -> (res: (ProcessCommand, ProcessCommand))
        ensures
            command_view(res.0) == cm(seq!["status"@, "--header"@]),
            command_view(res.1) == cm(
                seq!["find"@, "branch"@, "--nototal"@, "--format={name}"@],
            ),
    {
        (
            cm_command(args2("status", "--header")),
            cm_command(args4("find", "branch", "--nototal", "--format={name}")),
        )
    }

    /// The branches, one per line, checked out where the name is the part of the header before
    /// its first `@`; the first failed output is the error.
    pub fn branches(&self, header: BackendResult<String>, output: BackendResult<String>) -> (res: BackendResult<Vec<BranchEntry>>)
        ensures
            match (header, output) {
                (Err(e), _) => res == Err::<Vec<BranchEntry>, String>(e),
                (Ok(_), Err(e)) => res == Err::<Vec<BranchEntry>, String>(e),
                (Ok(h), Ok(o)) => res matches Ok(bs) && bs@.len() == lines_spec(o@).len()
                    && forall|i: int|
                    0 <= i < bs@.len() ==> (#[trigger] bs@[i]).name@ == lines_spec(o@)[i]
                        && bs@[i].checked_out == (lines_spec(o@)[i] == split_spec(h@, '@')[0]),
            },
    {
        let header = match header {
            Ok(h) => h,
            Err(e) => return Err(e),
        };
        let output = match output {
            Ok(o) => o,
            Err(e) => return Err(e),
        };
        let hs = split(header.as_str(), '@');
        proof {
            lemma_split_nonempty(header@, '@');
        }
        let current = hs[0].as_str();
        let ls = lines(output.as_str());
        let ghost lv = lines_spec(output@);
        let mut res: Vec<BranchEntry> = Vec::new();
        let mut i: usize = 0;
        while i < ls.len()
            invariant
                i <= ls@.len(),
                views(ls@) == lv,
                current@ == split_spec(header@, '@')[0],
                res@.len() == i,
                forall|j: int|
                    0 <= j < i ==> (#[trigger] res@[j]).name@ == lv[j] && res@[j].checked_out == (
                    lv[j] == current@),
            decreases ls.len() - i,
        {
            let name = ls[i].clone();
            let checked_out = str_equal(name.as_str(), current);
            res.push(
                BranchEntry {
                    name,
                    upstream_name: String::new(),
                    tracking_status: String::new(),
                    checked_out,
                },
            );
            i += 1;
        }
        Ok(res)
    }

    /// The command that creates a branch.
    pub fn new_branch(&self, name: &str) -> (res: ProcessCommand)
        ensures
            command_view(res) == cm(seq!["branch"@, "create"@, name@]),
    {
        cm_command(args3("branch", "create", name))
    }

    /// The command that deletes a branch.
    pub fn delete_branch(&self, name: &str) -> (res: ProcessCommand)
        ensures
            command_view(res) == cm(seq!["branch"@, "delete"@, name@]),
    {
        cm_command(args3("branch", "delete", name))
    }

    /// The command whose output `tags` reads.
    pub fn tags_command(&self) -> (res: ProcessCommand)
        ensures
            command_view(res) == cm(seq!["find"@, "label"@, "--nototal"@, "--format={name}"@]),
    {
        cm_command(args4("find", "label", "--nototal", "--format={name}"))
    }

    /// The labels read from the output of `tags_command`: one per line.
    pub fn tags(&self, output: BackendResult<String>) -> (res: BackendResult<Vec<TagEntry>>)
        ensures
            match output {
                Ok(o) => res matches Ok(ts) && ts@.map_values(|t: TagEntry| t.name@)
                    == lines_spec(o@),
                Err(e) => res == Err::<Vec<TagEntry>, String>(e),
            },
    {
        match output {
            Ok(o) => Ok(tags_of_lines(o.as_str())),
            Err(e) => Err(e),
        }
    }

    /// The command that creates a label.
    pub fn new_tag(&self, name: &str) -> (res: ProcessCommand)
        ensures
            command_view(res) == cm(seq!["label"@, "create"@, name@]),
    {
        cm_command(args3("label", "create", name))
    }

    /// The command that deletes a label.
    pub fn delete_tag(&self, name: &str) -> (res: ProcessCommand)
        ensures
            command_view(res) == cm(seq!["label"@, "delete"@, name@]),
    {
        cm_command(args3("label", "delete", name))
    }
}

/// The stages that resolve conflicts: a merge keeping one side for all (no entries), a
/// checkout of the named unmerged files (run with `git`), or nothing.
pub open spec fn resolve_stages(entries: Seq<RevisionEntry>, keep: Seq<char>, side: Seq<char>) -> Seq<Seq<(Seq<char>, Seq<Seq<char>>)>> {
    if entries.len() == 0 {
        seq![seq![cm(seq!["merge"@, "--merge"@, keep])]]
    } else if names_with(entries, StatusFilter::Unmerged).len() == 0 {
        Seq::empty()
    } else {
        seq![
            seq![
                (
                    "git"@,
                    seq!["checkout"@, "."@, side, "--"@] + names_with(
                        entries,
                        StatusFilter::Unmerged,
                    ),
                ),
            ],
        ]
    }
}

fn resolve(entries: &[RevisionEntry], keep: &str, side: &str) -> (res: ProcessPlan)
    ensures
        plan_view(res) == resolve_stages(entries@, keep@, side@),
{
    let mut commands: Vec<ProcessCommand> = Vec::new();
    if entries.len() == 0 {
        commands.push(cm_command(args3("merge", "--merge", keep)));
    } else if any_with(entries, StatusFilter::Unmerged) {
        let mut args = args4("checkout", ".", side, "--");
        push_names_with(&mut args, entries, StatusFilter::Unmerged);
        commands.push(command("git", args));
    }
    let res = serial_plan(commands);
    assert(plan_view(res) =~~= resolve_stages(entries@, keep@, side@));
    res
}

} // verus!
