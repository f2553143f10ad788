use vstd::prelude::*;

use crate::backend::{
    any_with, append_strings, args1, args2, args3, args4, args5, branch_of_line,
    branches_of_lines, command, command_view, entries_view, log_entries, log_fields, logs_view,
    names_with, plan_view, push_names_with, serial_plan, tags_of_lines, BackendResult,
    BranchEntry, FileStatus, LogEntry, ProcessCommand, ProcessPlan, RevisionEntry, RevisionInfo,
    StatusFilter, StatusInfo, TagEntry,
};
use crate::text::{
    decimal, lines, lines_spec, piece_at, piece_or_empty, splitn, splitn_spec, str_equal, trim,
    trim_spec, usize_to_string, views,
};

verus! {

/// The Mercurial backend.
pub struct Hg;

/// The status that a Mercurial status code stands for, if it is one Mercurial uses.
pub open spec fn hg_status_code(s: Seq<char>) -> Option<FileStatus> {
    if s == "?"@ {
        Some(FileStatus::Untracked)
    } else if s == "M"@ {
        Some(FileStatus::Modified)
    } else if s == "A"@ {
        Some(FileStatus::Added)
    } else if s == "R"@ {
        Some(FileStatus::Deleted)
    } else if s == "!"@ {
        Some(FileStatus::Missing)
    } else if s == "I"@ {
        Some(FileStatus::Ignored)
    } else if s == "C"@ {
        Some(FileStatus::Clean)
    } else {
        None
    }
}

/// Mercurial's status codes and what they mean (`hg help status`): `M` modified, `A` added,
/// `R` removed, `C` clean, `!` missing, `?` not tracked, `I` ignored. Each status a file gets
/// comes from exactly its one code, and no code gives a status Mercurial does not report.
pub proof fn lemma_hg_codes_follow_the_docs(s: Seq<char>)
    ensures
        hg_status_code(s) == Some(FileStatus::Modified) <==> s == seq!['M'],
        hg_status_code(s) == Some(FileStatus::Added) <==> s == seq!['A'],
        hg_status_code(s) == Some(FileStatus::Deleted) <==> s == seq!['R'],
        hg_status_code(s) == Some(FileStatus::Clean) <==> s == seq!['C'],
        hg_status_code(s) == Some(FileStatus::Missing) <==> s == seq!['!'],
        hg_status_code(s) == Some(FileStatus::Untracked) <==> s == seq!['?'],
        hg_status_code(s) == Some(FileStatus::Ignored) <==> s == seq!['I'],
        hg_status_code(s) is Some <==> (s.len() == 1 && (s[0] == 'M' || s[0] == 'A' || s[0] == 'R'
            || s[0] == 'C' || s[0] == '!' || s[0] == '?' || s[0] == 'I')),
{
    reveal_strlit("M");
    reveal_strlit("A");
    reveal_strlit("R");
    reveal_strlit("C");
    reveal_strlit("!");
    reveal_strlit("?");
    reveal_strlit("I");
    assert("M"@ =~= seq!['M']);
    assert("A"@ =~= seq!['A']);
    assert("R"@ =~= seq!['R']);
    assert("C"@ =~= seq!['C']);
    assert("!"@ =~= seq!['!']);
    assert("?"@ =~= seq!['?']);
    assert("I"@ =~= seq!['I']);
    if s.len() == 1 {
        assert(s =~= seq![s[0]]);
    }
}

/// The status named by a Mercurial status code; it must be one Mercurial uses.
pub fn parse_file_status(s: &str) -> (res: FileStatus)
    requires
        hg_status_code(s@) is Some,
    ensures
        hg_status_code(s@) == Some(res),
{
    if str_equal(s, "?") {
        FileStatus::Untracked
    } else if str_equal(s, "M") {
        FileStatus::Modified
    } else if str_equal(s, "A") {
        FileStatus::Added
    } else if str_equal(s, "R") {
        FileStatus::Deleted
    } else if str_equal(s, "!") {
        FileStatus::Missing
    } else if str_equal(s, "I") {
        FileStatus::Ignored
    } else {
        FileStatus::Clean
    }
}

/// The code and the name of an `hg status` line: before the first space, trimmed, and after it.
pub open spec fn status_line_parts(line: Seq<char>) -> (Seq<char>, Seq<char>) {
    let ps = splitn_spec(line, ' ', 2);
    (trim_spec(piece_or_empty(ps, 0)), piece_or_empty(ps, 1))
}

/// Whether every line of an `hg status` output starts with a status code.
pub open spec fn status_lines_readable(output: Seq<char>) -> bool {
    forall|i: int|
        0 <= i < lines_spec(output).len() ==> (#[trigger] hg_status_code(
            status_line_parts(lines_spec(output)[i]).0,
        )) is Some
}

/// Whether `s` is a status code Mercurial uses.
pub fn is_status_code(s: &str) -> (res: bool)
    ensures
        res == (hg_status_code(s@) is Some),
{
    str_equal(s, "?") || str_equal(s, "M") || str_equal(s, "A") || str_equal(s, "R")
        || str_equal(s, "!") || str_equal(s, "I") || str_equal(s, "C")
}

/// Whether every line of an `hg status` output starts with a status code, as `status` needs.
pub fn status_output_readable(output: &str) -> (res: bool)
    ensures
        res == status_lines_readable(output@),
{
    let ls = lines(output);
    let ghost lv = lines_spec(output@);
    let mut i: usize = 0;
    while i < ls.len()
        invariant
            i <= ls@.len(),
            views(ls@) == lv,
            lv == lines_spec(output@),
            forall|j: int|
                0 <= j < i ==> (#[trigger] hg_status_code(status_line_parts(lv[j]).0)) is Some,
        decreases ls.len() - i,
    {
        let ps = splitn(ls[i].as_str(), 2, ' ');
        let code = piece_at(&ps, 0);
        let code = trim(code.as_str());
        assert(code@ == status_line_parts(lv[i as int]).0);
        if !is_status_code(code.as_str()) {
            return false;
        }
        i += 1;
    }
    true
}

/// The file entry of an `hg status` line.
pub open spec fn status_line_entry(line: Seq<char>) -> (bool, Seq<char>, FileStatus) {
    let (code, name) = status_line_parts(line);
    (
        false,
        name,
        match hg_status_code(code) {
            Some(s) => s,
            None => FileStatus::Clean,
        },
    )
}

/// The file entries of an `hg status` output, one per line.
pub fn status_entries(output: &str) -> (res: Vec<RevisionEntry>)
    requires
        status_lines_readable(output@),
    ensures
        entries_view(res@) == lines_spec(output@).map_values(
            |l: Seq<char>| status_line_entry(l),
        ),
{
    let ls = lines(output);
    let ghost lv = lines_spec(output@);
    let mut res: Vec<RevisionEntry> = Vec::new();
    let mut i: usize = 0;
    while i < ls.len()
        invariant
            i <= ls@.len(),
            views(ls@) == lv,
            lv == lines_spec(output@),
            status_lines_readable(output@),
            entries_view(res@) == lv.take(i as int).map_values(|l: Seq<char>| status_line_entry(l)),
        decreases ls.len() - i,
    {
        let ps = splitn(ls[i].as_str(), 2, ' ');
        let code = piece_at(&ps, 0);
        let code = trim(code.as_str());
        proof {
            assert(hg_status_code(status_line_parts(lv[i as int]).0) is Some);
        }
        let status = parse_file_status(code.as_str());
        let name = piece_at(&ps, 1);
        let ghost before = entries_view(res@);
        res.push(RevisionEntry::new(name, status));
        assert(entries_view(res@) =~= before.push(status_line_entry(lv[i as int])));
        assert(lv.take(i + 1).map_values(|l: Seq<char>| status_line_entry(l)) =~= lv.take(
            i as int,
        ).map_values(|l: Seq<char>| status_line_entry(l)).push(status_line_entry(lv[i as int])));
        i += 1;
    }
    assert(lv.take(lv.len() as int) == lv);
    res
}

/// An `hg` command with the given arguments, as plain values.
pub open spec fn hg(args: Seq<Seq<char>>) -> (Seq<char>, Seq<Seq<char>>) {
    ("hg"@, args)
}

fn hg_command(args: Vec<String>) -> (res: ProcessCommand)
    ensures
        command_view(res) == hg(views(args@)),
{
    command("hg", args)
}

/// The `hg log` template: graph, node, date, author, refs and description between unit
/// separators.
pub open spec fn log_template() -> Seq<char> {
    "\x1f{node|short}\x1f{date|shortdate}\x1f{author|person}\x1f{ifeq(phase,'secret','(secret) ','')}{ifeq(phase,'draft','(draft) ','')}{if(topics,'[{topics}] ')}{tags % '{tag} '}{branch}\x1f{desc}"@
}

impl Hg {
    /// The command that finds the root of the repository.
    pub fn root_command() -> (res: ProcessCommand)
        ensures
            command_view(res) == hg(seq!["root"@]),
    {
        hg_command(args1("root"))
    }

    /// The repository whose root `hg root` printed, if it succeeded.
    pub fn try_new(output: BackendResult<String>) -> (res: Option<(String, Self)>)
        ensures
            match output {
                Ok(o) => res matches Some((root, _)) && root@ == trim_spec(o@),
                Err(_) => res is None,
            },
    {
        match output {
            Ok(o) => Some((trim(o.as_str()), Hg)),
            Err(_) => None,
        }
    }

    /// The commands whose outputs `status` reads: the summary, then the status.
    pub fn status_commands(&self) -> (res: (ProcessCommand, ProcessCommand))
        ensures
            command_view(res.0) == hg(seq!["summary"@]),
            command_view(res.1) == hg(seq!["status"@]),
    {
        (hg_command(args1("summary")), hg_command(args1("status")))
    }

    /// The working copy status: the first line of the summary is the header and every line of
    /// the status names a file; the first failed output is the error.
    pub fn status(&self, summary: BackendResult<String>, status: BackendResult<String>) -> (res: BackendResult<StatusInfo>)
        requires
            status matches Ok(s) ==> status_lines_readable(s@),
        ensures
            match (summary, status) {
                (Err(e), _) => res == Err::<StatusInfo, String>(e),
                (Ok(_), Err(e)) => res == Err::<StatusInfo, String>(e),
                (Ok(h), Ok(s)) => res matches Ok(info) && info.header@ == piece_or_empty(
                    lines_spec(h@),
                    0,
                ) && entries_view(info.entries@) == lines_spec(s@).map_values(
                    |l: Seq<char>| status_line_entry(l),
                ),
            },
    {
        let summary = match summary {
            Ok(h) => h,
            Err(e) => return Err(e),
        };
        let status = match status {
            Ok(s) => s,
            Err(e) => return Err(e),
        };
        let header_lines = lines(summary.as_str());
        let header = piece_at(&header_lines, 0);
        let entries = status_entries(status.as_str());
        Ok(StatusInfo { header, entries })
    }

    /// The plan that commits: everything with additions and removals (no entries), or else the
    /// missing or deleted files are removed and the untracked added together before the commit.
    pub fn commit(&self, message: &str, entries: &[RevisionEntry]) -> (res: ProcessPlan)
        ensures
            entries@.len() == 0 ==> plan_view(res) == seq![
                seq![hg(seq!["commit"@, "--addremove"@, "-m"@, message@])],
            ],
            entries@.len() > 0 ==> plan_view(res) == seq![
                seq![
                    hg(seq!["remove"@] + names_with(entries@, StatusFilter::MissingOrDeleted)),
                    hg(seq!["add"@] + names_with(entries@, StatusFilter::Untracked)),
                ],
                seq![hg(seq!["commit"@, "-m"@, message@])],
            ],
    {
        if entries.len() == 0 {
            let mut commands: Vec<ProcessCommand> = Vec::new();
            commands.push(hg_command(args4("commit", "--addremove", "-m", message)));
            let res = serial_plan(commands);
            assert(plan_view(res) =~~= seq![
                seq![hg(seq!["commit"@, "--addremove"@, "-m"@, message@])],
            ]);
            return res;
        }
        let mut remove = args1("remove");
        push_names_with(&mut remove, entries, StatusFilter::MissingOrDeleted);
        let mut add = args1("add");
        push_names_with(&mut add, entries, StatusFilter::Untracked);
        let mut first: Vec<ProcessCommand> = Vec::new();
        first.push(hg_command(remove));
        first.push(hg_command(add));
        let mut second: Vec<ProcessCommand> = Vec::new();
        second.push(hg_command(args3("commit", "-m", message)));
        let mut stages: Vec<Vec<ProcessCommand>> = Vec::new();
        stages.push(first);
        stages.push(second);
        let res = ProcessPlan { stages };
        assert(plan_view(res) =~~= seq![
            seq![
                hg(seq!["remove"@] + names_with(entries@, StatusFilter::MissingOrDeleted)),
                hg(seq!["add"@] + names_with(entries@, StatusFilter::Untracked)),
            ],
            seq![hg(seq!["commit"@, "-m"@, message@])],
        ]);
        res
    }

    /// The plan that discards changes: everything (no entries), or else the untracked files are
    /// purged and the others reverted together.
    pub fn discard(&self, entries: &[RevisionEntry]) -> (res: ProcessPlan)
        ensures
            entries@.len() == 0 ==> plan_view(res) == seq![
                seq![hg(seq!["revert"@, "-C"@, "--all"@])],
                seq![hg(seq!["purge"@])],
            ],
            entries@.len() > 0 ==> plan_view(res) == seq![
                seq![
                    hg(seq!["purge"@] + names_with(entries@, StatusFilter::Untracked)),
                    hg(seq!["revert"@, "-C"@] + names_with(entries@, StatusFilter::NotUntracked)),
                ],
            ],
    {
        if entries.len() == 0 {
            let mut commands: Vec<ProcessCommand> = Vec::new();
            commands.push(hg_command(args3("revert", "-C", "--all")));
            commands.push(hg_command(args1("purge")));
            let res = serial_plan(commands);
            assert(plan_view(res) =~~= seq![
                seq![hg(seq!["revert"@, "-C"@, "--all"@])],
                seq![hg(seq!["purge"@])],
            ]);
            return res;
        }
        let mut purge = args1("purge");
        push_names_with(&mut purge, entries, StatusFilter::Untracked);
        let mut revert = args2("revert", "-C");
        push_names_with(&mut revert, entries, StatusFilter::NotUntracked);
        let mut first: Vec<ProcessCommand> = Vec::new();
        first.push(hg_command(purge));
        first.push(hg_command(revert));
        let mut stages: Vec<Vec<ProcessCommand>> = Vec::new();
        stages.push(first);
        let res = ProcessPlan { stages };
        assert(plan_view(res) =~~= seq![
            seq![
                hg(seq!["purge"@] + names_with(entries@, StatusFilter::Untracked)),
                hg(seq!["revert"@, "-C"@] + names_with(entries@, StatusFilter::NotUntracked)),
            ],
        ]);
        res
    }

    /// The command that shows a diff of the named files (all when none are named) in the
    /// working copy or in a revision.
    pub fn diff(&self, revision: Option<&str>, entries: &[RevisionEntry]) -> (res: ProcessCommand)
        ensures
            command_view(res) == hg(
                match revision {
                    Some(r) => if entries@.len() == 0 {
                        seq!["diff"@, "--change"@, r@]
                    } else {
                        seq!["diff"@, "--change"@, r@, "--"@] + names_with(
                            entries@,
                            StatusFilter::All,
                        )
                    },
                    None => if entries@.len() == 0 {
                        seq!["diff"@]
                    } else {
                        seq!["diff"@, "--"@] + names_with(entries@, StatusFilter::All)
                    },
                },
            ),
    {
        match revision {
            Some(revision) => {
                if entries.len() == 0 {
                    hg_command(args3("diff", "--change", revision))
                } else {
                    let mut args = args4("diff", "--change", revision, "--");
                    push_names_with(&mut args, entries, StatusFilter::All);
                    hg_command(args)
                }
            },
            None => {
                if entries.len() == 0 {
                    hg_command(args1("diff"))
                } else {
                    let mut args = args2("diff", "--");
                    push_names_with(&mut args, entries, StatusFilter::All);
                    hg_command(args)
                }
            },
        }
    }

    /// The plan that resolves conflicts with the local side: all of them (no entries), the
    /// named unmerged files, or nothing when none of the named files is unmerged.
    pub fn resolve_taking_ours(&self, entries: &[RevisionEntry]) -> (res: ProcessPlan)
        ensures
            plan_view(res) == resolve_stages(entries@, "internal:local"@),
    {
        resolve(entries, "internal:local")
    }

    /// The plan that resolves conflicts with the other side, as `resolve_taking_ours` does.
    pub fn resolve_taking_theirs(&self, entries: &[RevisionEntry]) -> (res: ProcessPlan)
        ensures
            plan_view(res) == resolve_stages(entries@, "internal:other"@),
    {
        resolve(entries, "internal:other")
    }

    /// The command that lists the first `skip + len` log lines with the graph.
    pub fn log_command(&self, skip: usize, len: usize) -> (res: ProcessCommand)
        requires
            skip + len <= usize::MAX,
        ensures
            command_view(res) == hg(
                seq![
                    "log"@,
                    "--config"@,
                    "experimental.graphshorten=True"@,
                    "--graph"@,
                    "--template"@,
                    log_template(),
                    "--limit"@,
                    decimal((skip + len) as nat),
                ],
            ),
    {
        let limit = usize_to_string(skip + len);
        let mut args = args5(
            "log",
            "--config",
            "experimental.graphshorten=True",
            "--graph",
            "--template",
        );
        let tail = args3(
            "\x1f{node|short}\x1f{date|shortdate}\x1f{author|person}\x1f{ifeq(phase,'secret','(secret) ','')}{ifeq(phase,'draft','(draft) ','')}{if(topics,'[{topics}] ')}{tags % '{tag} '}{branch}\x1f{desc}",
            "--limit",
            limit.as_str(),
        );
        append_strings(&mut args, tail);
        assert(views(args@) =~= seq![
            "log"@,
            "--config"@,
            "experimental.graphshorten=True"@,
            "--graph"@,
            "--template"@,
            log_template(),
            "--limit"@,
            decimal((skip + len) as nat),
        ]);
        hg_command(args)
    }

    /// The log read from the output of `log_command`: one entry per line, its fields between
    /// unit separators; the first index is always 0.
    pub fn log(&self, output: BackendResult<String>) -> (res: BackendResult<(usize, Vec<LogEntry>)>)
        ensures
            match output {
                Ok(o) => res matches Ok((first, entries)) && first == 0 && logs_view(entries@)
                    == lines_spec(o@).map_values(|l: Seq<char>| log_fields(l, '\x1f')),
                Err(e) => res == Err::<(usize, Vec<LogEntry>), String>(e),
            },
    {
        match output {
            Ok(o) => Ok((0, log_entries(o.as_str(), '\x1f'))),
            Err(e) => Err(e),
        }
    }

    /// The command that updates to a revision.
    pub fn checkout(&self, revision: &str) -> (res: ProcessCommand)
        ensures
            command_view(res) == hg(seq!["update"@, revision@]),
    {
        hg_command(args2("update", revision))
    }

    /// The command that merges a revision.
    pub fn merge(&self, revision: &str) -> (res: ProcessCommand)
        ensures
            command_view(res) == hg(seq!["merge"@, revision@]),
    {
        hg_command(args2("merge", revision))
    }

    /// Fetching is pulling.
    pub fn fetch(&self) -> (res: ProcessCommand)
        ensures
            command_view(res) == hg(seq!["pull"@]),
    {
        self.pull()
    }

    /// The command that pulls.
    pub fn pull(&self) -> (res: ProcessCommand)
        ensures
            command_view(res) == hg(seq!["pull"@]),
    {
        hg_command(args1("pull"))
    }

    /// The command that pushes, new branches too.
    pub fn push(&self) -> (res: ProcessCommand)
        ensures
            command_view(res) == hg(seq!["push"@, "--new-branch"@]),
    {
        hg_command(args2("push", "--new-branch"))
    }

    /// The commands whose outputs `revision_details` reads: the description, then the status.
    pub fn revision_details_commands(&self, revision: &str) -> (res: (ProcessCommand, ProcessCommand))
        ensures
            command_view(res.0) == hg(seq!["log"@, "--rev"@, revision@, "--template"@, "{desc}"@]),
            command_view(res.1) == hg(seq!["status"@, "--change"@, revision@]),
    {
        (
            hg_command(args5("log", "--rev", revision, "--template", "{desc}")),
            hg_command(args3("status", "--change", revision)),
        )
    }

    /// The details of a revision: its description, trimmed, and one file per status line; the
    /// first failed output is the error.
    pub fn revision_details(&self, message: BackendResult<String>, status: BackendResult<String>) -> (res: BackendResult<RevisionInfo>)
        requires
            status matches Ok(s) ==> status_lines_readable(s@),
        ensures
            match (message, status) {
                (Err(e), _) => res == Err::<RevisionInfo, String>(e),
                (Ok(_), Err(e)) => res == Err::<RevisionInfo, String>(e),
                (Ok(m), Ok(s)) => res matches Ok(info) && info.message@ == trim_spec(m@)
                    && entries_view(info.entries@) == lines_spec(s@).map_values(
                    |l: Seq<char>| status_line_entry(l),
                ),
            },
    {
        let message = match message {
            Ok(m) => trim(m.as_str()),
            Err(e) => return Err(e),
        };
        let status = match status {
            Ok(s) => s,
            Err(e) => return Err(e),
        };
        let entries = status_entries(status.as_str());
        Ok(RevisionInfo { message, entries })
    }

    /// The command whose output `branches` reads.
    pub fn branches_command(&self) -> (res: ProcessCommand)
        ensures
            command_view(res) == hg(seq!["branches"@, "--template"@, "{branch}\x1f#\\n"@]),
    {
        hg_command(args3("branches", "--template", "{branch}\x1f#\\n"))
    }

    /// The branches read from the output of `branches_command`: one per line, checked out when
    /// `*` follows the unit separator.
    pub fn branches(&self, output: BackendResult<String>) -> (res: BackendResult<Vec<BranchEntry>>)
        ensures
            match output {
                Ok(o) => res matches Ok(bs) && bs@.len() == lines_spec(o@).len() && forall|i: int|
                    0 <= i < bs@.len() ==> ((#[trigger] bs@[i]).name@, bs@[i].checked_out)
                        == branch_of_line(lines_spec(o@)[i], '\x1f') && forall|i: int| 0 <= i < bs@.len()
                    ==> (#[trigger] bs@[i]).upstream_name@.len() == 0 && bs@[i].tracking_status@.len() == 0,
                Err(e) => res == Err::<Vec<BranchEntry>, String>(e),
            },
    {
        match output {
            Ok(o) => Ok(branches_of_lines(o.as_str(), '\x1f')),
            Err(e) => Err(e),
        }
    }

    /// The command that starts a branch.
    pub fn new_branch(&self, name: &str) -> (res: ProcessCommand)
        ensures
            command_view(res) == hg(seq!["branch"@, name@]),
    {
        hg_command(args2("branch", name))
    }

    /// The command whose output is the current changeset, to come back to.
    pub fn identify_command(&self) -> (res: ProcessCommand)
        ensures
            command_view(res) == hg(seq!["identify"@, "--num"@]),
    {
        hg_command(args2("identify", "--num"))
    }

    /// The plan that closes a branch: update to it, commit closing it, and update back to
    /// `changeset` (the output of `identify_command`).
    pub fn delete_branch(&self, name: &str, changeset: &str) -> (res: ProcessPlan)
        ensures
            plan_view(res) == seq![
                seq![hg(seq!["update"@, name@])],
                seq![hg(seq!["commit"@, "-m"@, "close branch"@, "--close-branch"@])],
                seq![hg(seq!["update"@, changeset@])],
            ],
    {
        let mut commands: Vec<ProcessCommand> = Vec::new();
        commands.push(self.checkout(name));
        commands.push(hg_command(args4("commit", "-m", "close branch", "--close-branch")));
        commands.push(self.checkout(changeset));
        let res = serial_plan(commands);
        assert(plan_view(res) =~~= seq![
            seq![hg(seq!["update"@, name@])],
            seq![hg(seq!["commit"@, "-m"@, "close branch"@, "--close-branch"@])],
            seq![hg(seq!["update"@, changeset@])],
        ]);
        res
    }

    /// The command whose output `tags` reads.
    pub fn tags_command(&self) -> (res: ProcessCommand)
        ensures
            command_view(res) == hg(seq!["tags"@, "--template"@, "{tag}\\n"@]),
    {
        hg_command(args3("tags", "--template", "{tag}\\n"))
    }

    /// The tags read from the output of `tags_command`: one per line.
    pub fn tags(&self, output: BackendResult<String>) -> (res: BackendResult<Vec<TagEntry>>)
        ensures
            match output {
                Ok(o) => res matches Ok(ts) && ts@.map_values(|t: TagEntry| t.name@)
                    == lines_spec(o@),
                Err(e) => res == Err::<Vec<TagEntry>, String>(e),
            },
    {
        match output {
            Ok(o) => Ok(tags_of_lines(o.as_str())),
            Err(e) => Err(e),
        }
    }

    /// The command that tags the current revision.
    pub fn new_tag(&self, name: &str) -> (res: ProcessCommand)
        ensures
            command_view(res) == hg(seq!["tag"@, "--force"@, name@]),
    {
        hg_command(args3("tag", "--force", name))
    }

    /// The command that removes a tag.
    pub fn delete_tag(&self, name: &str) -> (res: ProcessCommand)
        ensures
            command_view(res) == hg(seq!["tag"@, "--remove"@, name@]),
    {
        hg_command(args3("tag", "--remove", name))
    }
}

/// The stages that resolve conflicts with the tool `tool`.
pub open spec fn resolve_stages(entries: Seq<RevisionEntry>, tool: Seq<char>) -> Seq<Seq<(Seq<char>, Seq<Seq<char>>)>> {
    if entries.len() == 0 {
        seq![seq![hg(seq!["resolve"@, "--all"@, "--tool"@, tool])]]
    } else if names_with(entries, StatusFilter::Unmerged).len() == 0 {
        Seq::empty()
    } else {
        seq![
            seq![
                hg(
                    seq!["resolve"@, "--tool"@, tool, "--"@] + names_with(
                        entries,
                        StatusFilter::Unmerged,
                    ),
                ),
            ],
        ]
    }
}

fn resolve(entries: &[RevisionEntry], tool: &str) -> (res: ProcessPlan)
    ensures
        plan_view(res) == resolve_stages(entries@, tool@),
{
    let mut commands: Vec<ProcessCommand> = Vec::new();
    if entries.len() == 0 {
        commands.push(hg_command(args4("resolve", "--all", "--tool", tool)));
    } else if any_with(entries, StatusFilter::Unmerged) {
        let mut args = args4("resolve", "--tool", tool, "--");
        push_names_with(&mut args, entries, StatusFilter::Unmerged);
        commands.push(hg_command(args));
    }
    let res = serial_plan(commands);
    assert(plan_view(res) =~~= resolve_stages(entries@, tool@));
    res
}

} // verus!
