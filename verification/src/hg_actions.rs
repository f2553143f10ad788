use vstd::prelude::*;

use crate::backend::{args1, args2, args3, args4, args5, command, command_view, commands_view, plan_view, serial_plan,
    BackendResult, ProcessCommand, ProcessPlan};
use crate::select::{Entry, State};
use crate::text::{chars_of, decimal, lines_spec, split, split_spec, str_equal, string_of, trim, trim_spec,
    usize_to_string, views};
use crate::version_control_actions::{first_line, kept_entries, listed_entries, listing_readable, parallel_plan,
    push_arg, push_owned_arg, push_selected_names, selected_names, single};
use crate::git_actions::files_of;

verus! {

/// The state a Mercurial status letter stands for: copied for any other text.
pub open spec fn hg_state(s: Seq<char>) -> State {
    if s == "?"@ {
        State::Untracked
    } else if s == "M"@ {
        State::Modified
    } else if s == "A"@ {
        State::Added
    } else if s == "R"@ {
        State::Deleted
    } else if s == "!"@ {
        State::Missing
    } else if s == "I"@ {
        State::Ignored
    } else if s == "C"@ {
        State::Clean
    } else {
        State::Copied
    }
}

/// The state a Mercurial status letter stands for.
pub fn str_to_state(s: &str) -> (res: State)
    ensures
        res == hg_state(s@),
{
    if str_equal(s, "?") {
        State::Untracked
    } else if str_equal(s, "M") {
        State::Modified
    } else if str_equal(s, "A") {
        State::Added
    } else if str_equal(s, "R") {
        State::Deleted
    } else if str_equal(s, "!") {
        State::Missing
    } else if str_equal(s, "I") {
        State::Ignored
    } else if str_equal(s, "C") {
        State::Clean
    } else {
        State::Copied
    }
}

/// A Mercurial command line as values.
pub open spec fn hg(args: Seq<Seq<char>>) -> (Seq<char>, Seq<Seq<char>>) {
    ("hg"@, args)
}

/// The Mercurial actions, run in the repository at `current_dir`.
pub struct HgActions {
    pub current_dir: String,
}

/// The log template: topics, node, branch, bookmarks, tags, author and first line.
pub open spec fn log_template() -> Seq<char> {
    "{label('green', if(topics, '[{topics}]'))} {label(ifeq(phase, 'secret', 'yellow', ifeq(phase, 'draft', 'yellow', 'red')), node|short)}{ifeq(branch, 'default', '', label('green', ' ({branch})'))}{bookmarks % ' {bookmark}{ifeq(bookmark, active, '*')}{bookmark}'}{label('yellow', tags % ' {tag}')} {label('magenta', author|person)} {desc|firstline|strip}"@
}

/// The tasks of a commit of the selected files: each missing or deleted file is removed and
/// each untracked file added, in order.
pub open spec fn commit_prep(entries: Seq<Entry>) -> Seq<(Seq<char>, Seq<Seq<char>>)>
    decreases entries.len(),
{
    if entries.len() == 0 {
        seq![]
    } else {
        let rest = commit_prep(entries.drop_last());
        let e = entries.last();
        if !e.selected {
            rest
        } else {
            match e.state {
                State::Missing | State::Deleted => rest.push(hg(seq!["remove"@, e.filename@])),
                State::Untracked => rest.push(hg(seq!["add"@, e.filename@])),
                _ => rest,
            }
        }
    }
}

/// The names of the selected untracked files, in order.
pub open spec fn untracked_selected(entries: Seq<Entry>) -> Seq<Seq<char>>
    decreases entries.len(),
{
    if entries.len() == 0 {
        seq![]
    } else if entries.last().selected && entries.last().state == State::Untracked {
        untracked_selected(entries.drop_last()).push(entries.last().filename@)
    } else {
        untracked_selected(entries.drop_last())
    }
}

/// The names of the selected files that are not untracked, in order.
pub open spec fn versioned_selected(entries: Seq<Entry>) -> Seq<Seq<char>>
    decreases entries.len(),
{
    if entries.len() == 0 {
        seq![]
    } else if entries.last().selected && entries.last().state != State::Untracked {
        versioned_selected(entries.drop_last()).push(entries.last().filename@)
    } else {
        versioned_selected(entries.drop_last())
    }
}

/// The tasks that revert the selected files: each untracked one purged, then the others
/// reverted in one command when there are any.
pub open spec fn revert_tasks(entries: Seq<Entry>) -> Seq<(Seq<char>, Seq<Seq<char>>)> {
    Seq::new(untracked_selected(entries).len(), |k: int| hg(seq!["purge"@, untracked_selected(entries)[k]])) + (
    if versioned_selected(entries).len() > 0 {
        seq![hg(seq!["revert"@, "-C"@, "--color"@, "always"@] + versioned_selected(entries))]
    } else {
        seq![]
    })
}

impl HgActions {
    /// The program the actions run.
    pub fn executable_name(&self) -> (res: &'static str)
        ensures
            res@ == "hg"@,
    {
        "hg"
    }

    /// The directory the actions run in.
    pub fn current_dir(&self) -> (res: &str)
        ensures
            res@ == self.current_dir@,
    {
        self.current_dir.as_str()
    }

    /// Moves to the root `hg root` printed on its first line; fails with its error.
    pub fn set_root(&mut self, output: BackendResult<String>) -> (res: BackendResult<()>)
        requires
            output matches Ok(o) ==> lines_spec(o@).len() > 0,
        ensures
            match output {
                Ok(o) => res is Ok && final(self).current_dir@ == lines_spec(o@)[0],
                Err(e) => res == Err::<(), String>(e) && final(self).current_dir == old(self).current_dir,
            },
    {
        match output {
            Ok(o) => {
                match first_line(o.as_str()) {
                    Some(dir) => self.current_dir = dir,
                    None => {},
                }
                Ok(())
            },
            Err(e) => Err(e),
        }
    }

    /// The root of the repository.
    pub fn get_root(&self) -> (res: &str)
        ensures
            res@ == self.current_dir@,
    {
        self.current_dir.as_str()
    }

    /// The files of a status listing (`hg status`, or `hg status --change` for a revision):
    /// the lines longer than one byte, the first letter the state and the rest the name;
    /// a failed command gives its error.
    pub fn get_current_changed_files(&self, output: BackendResult<String>) -> (res: BackendResult<Vec<Entry>>)
        requires
            output matches Ok(o) ==> listing_readable(o@, '\n', 1, 1),
        ensures
            match output {
                Ok(o) => res matches Ok(v) && files_of(v@) == listed_entries(o@, '\n', 1, 1, |s: Seq<char>| hg_state(s))
                    && forall|k: int| 0 <= k < v@.len() ==> !(#[trigger] v@[k]).selected,
                Err(e) => res == Err::<Vec<Entry>, String>(e),
            },
    {
        match output {
            Ok(o) => {
                let t = trim(o.as_str());
                let raw = split(t.as_str(), '\n');
                let ghost pieces = split_spec(trim_spec(o@), '\n').map_values(|p: Seq<char>| trim_spec(p));
                let mut res: Vec<Entry> = Vec::new();
                let mut i: usize = 0;
                assert(pieces.take(0) == Seq::<Seq<char>>::empty());
                while i < raw.len()
                    invariant
                        i <= raw.len(),
                        views(raw@) == split_spec(trim_spec(o@), '\n'),
                        pieces == split_spec(trim_spec(o@), '\n').map_values(|p: Seq<char>| trim_spec(p)),
                        listing_readable(o@, '\n', 1, 1),
                        files_of(res@) == kept_entries(pieces.take(i as int), 1, 1, |s: Seq<char>| hg_state(s)),
                        forall|j: int| 0 <= j < res@.len() ==> !(#[trigger] res@[j]).selected,
                    decreases raw.len() - i,
                {
                    let piece = trim(raw[i].as_str());
                    assert(piece@ == pieces[i as int]);
                    assert(pieces.take(i as int + 1).drop_last() == pieces.take(i as int));
                    if crate::text::str_byte_len(piece.as_str()) > 1 {
                        let c = chars_of(piece.as_str());
                        let state = str_to_state(string_of(&c, 0, 1).as_str());
                        let filename = trim(string_of(&c, 1, c.len()).as_str());
                        assert(c@.subrange(0, 1) == piece@.take(1));
                        assert(c@.subrange(1, c@.len() as int) == piece@.skip(1));
                        let ghost before = files_of(res@);
                        res.push(Entry { filename, selected: false, state });
                        assert(files_of(res@) == before.push((trim_spec(piece@.skip(1)), hg_state(piece@.take(1)))));
                    }
                    i = i + 1;
                }
                assert(pieces.take(raw.len() as int) == pieces);
                Ok(res)
            },
            Err(e) => Err(e),
        }
    }

    /// The files a revision changed, read from the output of `revision_files_command` as a
    /// status listing is read.
    pub fn get_revision_changed_files(&self, output: BackendResult<String>) -> (res: BackendResult<Vec<Entry>>)
        requires
            output matches Ok(o) ==> listing_readable(o@, '\n', 1, 1),
        ensures
            match output {
                Ok(o) => res matches Ok(v) && files_of(v@) == listed_entries(o@, '\n', 1, 1, |s: Seq<char>| hg_state(s))
                    && forall|k: int| 0 <= k < v@.len() ==> !(#[trigger] v@[k]).selected,
                Err(e) => res == Err::<Vec<Entry>, String>(e),
            },
    {
        self.get_current_changed_files(output)
    }

    /// The command whose output gives the files a revision changed.
    pub fn revision_files_command(&self, target: &str) -> (res: ProcessPlan)
        ensures
            plan_view(res) == seq![seq![hg(seq!["status"@, "--change"@, target@])]],
    {
        single("hg", args3("status", "--change", target))
    }

    /// `hg --version`.
    pub fn version(&self) -> (res: ProcessPlan)
        ensures
            plan_view(res) == seq![seq![hg(seq!["--version"@])]],
    {
        single("hg", args1("--version"))
    }

    /// The summary and the status together, in color.
    pub fn status(&self) -> (res: ProcessPlan)
        ensures
            plan_view(res) == seq![seq![hg(seq!["summary"@, "--color"@, "always"@]), hg(seq!["status"@, "--color"@, "always"@])]],
    {
        let mut commands: Vec<ProcessCommand> = Vec::new();
        commands.push(command("hg", args3("summary", "--color", "always")));
        commands.push(command("hg", args3("status", "--color", "always")));
        let res = parallel_plan(commands);
        assert(plan_view(res) =~~= seq![seq![hg(seq!["summary"@, "--color"@, "always"@]), hg(seq!["status"@, "--color"@, "always"@])]]);
        res
    }

    /// The current revision with its diff.
    pub fn current_export(&self) -> (res: ProcessPlan)
        ensures
            plan_view(res) == seq![seq![hg(seq!["export"@, "--color"@, "always"@])]],
    {
        single("hg", args3("export", "--color", "always"))
    }

    /// The last `count` revisions as a graph.
    pub fn log(&self, count: usize) -> (res: ProcessPlan)
        ensures
            plan_view(res) == seq![seq![hg(seq![
                "log"@,
                "--config"@,
                "experimental.graphshorten=True"@,
                "--graph"@,
                "--template"@,
                log_template(),
                "-l"@,
                decimal(count as nat),
                "--color"@,
                "always"@,
            ])]],
    {
        let mut args = args5("log", "--config", "experimental.graphshorten=True", "--graph", "--template");
        push_arg(&mut args, "{label('green', if(topics, '[{topics}]'))} {label(ifeq(phase, 'secret', 'yellow', ifeq(phase, 'draft', 'yellow', 'red')), node|short)}{ifeq(branch, 'default', '', label('green', ' ({branch})'))}{bookmarks % ' {bookmark}{ifeq(bookmark, active, '*')}{bookmark}'}{label('yellow', tags % ' {tag}')} {label('magenta', author|person)} {desc|firstline|strip}");
        push_arg(&mut args, "-l");
        push_owned_arg(&mut args, usize_to_string(count));
        push_arg(&mut args, "--color");
        push_arg(&mut args, "always");
        assert(views(args@) =~= seq![
            "log"@,
            "--config"@,
            "experimental.graphshorten=True"@,
            "--graph"@,
            "--template"@,
            log_template(),
            "-l"@,
            decimal(count as nat),
            "--color"@,
            "always"@,
        ]);
        single("hg", args)
    }

    /// The diff of all changes.
    pub fn current_diff_all(&self) -> (res: ProcessPlan)
        ensures
            plan_view(res) == seq![seq![hg(seq!["diff"@, "--color"@, "always"@])]],
    {
        single("hg", args3("diff", "--color", "always"))
    }

    /// The diff of the selected files.
    pub fn current_diff_selected(&self, entries: &Vec<Entry>) -> (res: ProcessPlan)
        ensures
            plan_view(res) == seq![seq![hg(seq!["diff"@, "--color"@, "always"@, "--"@] + selected_names(entries@))]],
    {
        let mut args = args4("diff", "--color", "always", "--");
        push_selected_names(&mut args, entries);
        single("hg", args)
    }

    /// The files a revision changed, in color.
    pub fn revision_changes(&self, target: &str) -> (res: ProcessPlan)
        ensures
            plan_view(res) == seq![seq![hg(seq!["status"@, "--change"@, target@, "--color"@, "always"@])]],
    {
        single("hg", args5("status", "--change", target, "--color", "always"))
    }

    /// The diff a revision made.
    pub fn revision_diff_all(&self, target: &str) -> (res: ProcessPlan)
        ensures
            plan_view(res) == seq![seq![hg(seq!["diff"@, "--change"@, target@, "--color"@, "always"@])]],
    {
        single("hg", args5("diff", "--change", target, "--color", "always"))
    }

    /// The diff a revision made to the selected files.
    pub fn revision_diff_selected(&self, target: &str, entries: &Vec<Entry>) -> (res: ProcessPlan)
        ensures
            plan_view(res) == seq![seq![hg(seq!["diff"@, "--change"@, target@, "--color"@, "always"@, "--"@] + selected_names(entries@))]],
    {
        let mut args = args5("diff", "--change", target, "--color", "always");
        push_arg(&mut args, "--");
        assert(views(args@) =~= seq!["diff"@, "--change"@, target@, "--color"@, "always"@, "--"@]);
        push_selected_names(&mut args, entries);
        single("hg", args)
    }

    /// Commits every change, adding and removing files.
    pub fn commit_all(&self, message: &str) -> (res: ProcessPlan)
        ensures
            plan_view(res) == seq![seq![hg(seq!["commit"@, "--addremove"@, "-m"@, message@, "--color"@, "always"@])]],
    {
        let mut args = args4("commit", "--addremove", "-m", message);
        push_arg(&mut args, "--color");
        push_arg(&mut args, "always");
        assert(views(args@) =~= seq!["commit"@, "--addremove"@, "-m"@, message@, "--color"@, "always"@]);
        single("hg", args)
    }

    /// Removes the missing and deleted selected files and adds the untracked ones, then
    /// commits the selected files, one task after the other.
    pub fn commit_selected(&self, message: &str, entries: &Vec<Entry>) -> (res: ProcessPlan)
        ensures
            plan_view(res) == Seq::new(
                commit_prep(entries@).len() + 1,
                |k: int| if k < commit_prep(entries@).len() {
                    seq![commit_prep(entries@)[k]]
                } else {
                    seq![hg(seq!["commit"@, "-m"@, message@, "--color"@, "always"@] + selected_names(entries@))]
                },
            ),
    {
        let mut commands: Vec<ProcessCommand> = Vec::new();
        let mut i: usize = 0;
        assert(entries@.take(0) == Seq::<Entry>::empty());
        while i < entries.len()
            invariant
                i <= entries.len(),
                commands_view(commands@) == commit_prep(entries@.take(i as int)),
            decreases entries.len() - i,
        {
            assert(entries@.take(i as int + 1).drop_last() == entries@.take(i as int));
            let e = &entries[i];
            if e.selected {
                let ghost before = commands_view(commands@);
                match e.state {
                    State::Missing | State::Deleted => {
                        commands.push(command("hg", args2("remove", e.filename.as_str())));
                        assert(commands_view(commands@) == before.push(hg(seq!["remove"@, e.filename@])));
                    },
                    State::Untracked => {
                        commands.push(command("hg", args2("add", e.filename.as_str())));
                        assert(commands_view(commands@) == before.push(hg(seq!["add"@, e.filename@])));
                    },
                    _ => {},
                }
            }
            i = i + 1;
        }
        assert(entries@.take(entries.len() as int) == entries@);
        let ghost prep = commands_view(commands@);
        let mut args = args5("commit", "-m", message, "--color", "always");
        push_selected_names(&mut args, entries);
        let ghost last = (("hg"@), views(args@));
        commands.push(command("hg", args));
        let res = serial_plan(commands);
        assert(plan_view(res) =~~= Seq::new(
            commit_prep(entries@).len() + 1,
            |k: int| if k < commit_prep(entries@).len() {
                seq![commit_prep(entries@)[k]]
            } else {
                seq![hg(seq!["commit"@, "-m"@, message@, "--color"@, "always"@] + selected_names(entries@))]
            },
        )) by {
            assert(commands_view(commands@) == prep.push(last));
        }
        res
    }

    /// Reverts every change, then purges the untracked files.
    pub fn revert_all(&self) -> (res: ProcessPlan)
        ensures
            plan_view(res) == seq![seq![hg(seq!["revert"@, "-C"@, "--all"@])], seq![hg(seq!["purge"@])]],
    {
        let mut commands: Vec<ProcessCommand> = Vec::new();
        commands.push(command("hg", args3("revert", "-C", "--all")));
        commands.push(command("hg", args1("purge")));
        let res = serial_plan(commands);
        assert(plan_view(res) =~~= seq![seq![hg(seq!["revert"@, "-C"@, "--all"@])], seq![hg(seq!["purge"@])]]);
        res
    }

    /// Purges the selected untracked files and reverts the other selected files, together.
    pub fn revert_selected(&self, entries: &Vec<Entry>) -> (res: ProcessPlan)
        ensures
            revert_tasks(entries@).len() > 0 ==> plan_view(res) == seq![revert_tasks(entries@)],
            revert_tasks(entries@).len() == 0 ==> plan_view(res).len() == 0,
    {
        let mut commands: Vec<ProcessCommand> = Vec::new();
        let mut versioned: Vec<String> = Vec::new();
        let mut i: usize = 0;
        assert(entries@.take(0) == Seq::<Entry>::empty());
        while i < entries.len()
            invariant
                i <= entries.len(),
                commands_view(commands@) == Seq::new(
                    untracked_selected(entries@.take(i as int)).len(),
                    |k: int| hg(seq!["purge"@, untracked_selected(entries@.take(i as int))[k]]),
                ),
                views(versioned@) == versioned_selected(entries@.take(i as int)),
            decreases entries.len() - i,
        {
            assert(entries@.take(i as int + 1).drop_last() == entries@.take(i as int));
            let e = &entries[i];
            if e.selected {
                if e.state == State::Untracked {
                    let ghost before = commands_view(commands@);
                    commands.push(command("hg", args2("purge", e.filename.as_str())));
                    assert(commands_view(commands@) == before.push(hg(seq!["purge"@, e.filename@])));
                    assert(untracked_selected(entries@.take(i as int + 1))
                        == untracked_selected(entries@.take(i as int)).push(e.filename@));
                    assert(commands_view(commands@) =~= Seq::new(
                        untracked_selected(entries@.take(i as int + 1)).len(),
                        |k: int| hg(seq!["purge"@, untracked_selected(entries@.take(i as int + 1))[k]]),
                    ));
                } else {
                    push_arg(&mut versioned, e.filename.as_str());
                }
            }
            i = i + 1;
        }
        assert(entries@.take(entries.len() as int) == entries@);
        if versioned.len() > 0 {
            let mut args = args4("revert", "-C", "--color", "always");
            let mut k: usize = 0;
            let ghost a0 = views(args@);
            while k < versioned.len()
                invariant
                    k <= versioned.len(),
                    views(args@) == a0 + views(versioned@).take(k as int),
                decreases versioned.len() - k,
            {
                push_arg(&mut args, versioned[k].as_str());
                assert(views(versioned@).take(k as int + 1) == views(versioned@).take(k as int).push(versioned@[k as int]@));
                k = k + 1;
            }
            assert(views(versioned@).take(versioned.len() as int) == views(versioned@));
            let ghost before = commands_view(commands@);
            commands.push(command("hg", args));
            assert(commands_view(commands@) == before.push(hg(seq!["revert"@, "-C"@, "--color"@, "always"@] + versioned_selected(entries@))));
        }
        assert(commands_view(commands@) =~= revert_tasks(entries@));
        parallel_plan(commands)
    }

    /// Updates to a revision.
    pub fn update(&self, target: &str) -> (res: ProcessPlan)
        ensures
            plan_view(res) == seq![seq![hg(seq!["update"@, target@])]],
    {
        single("hg", args2("update", target))
    }

    /// Merges a revision.
    pub fn merge(&self, target: &str) -> (res: ProcessPlan)
        ensures
            plan_view(res) == seq![seq![hg(seq!["merge"@, target@])]],
    {
        single("hg", args2("merge", target))
    }

    /// The files with conflicts.
    pub fn conflicts(&self) -> (res: ProcessPlan)
        ensures
            plan_view(res) == seq![seq![hg(seq!["resolve"@, "-l"@, "--color"@, "always"@])]],
    {
        single("hg", args4("resolve", "-l", "--color", "always"))
    }

    /// Resolves conflicts taking the other side.
    pub fn take_other(&self) -> (res: ProcessPlan)
        ensures
            plan_view(res) == seq![seq![hg(seq!["resolve"@, "-a"@, "-t"@, "internal:other"@])]],
    {
        single("hg", args4("resolve", "-a", "-t", "internal:other"))
    }

    /// Resolves conflicts taking the local side.
    pub fn take_local(&self) -> (res: ProcessPlan)
        ensures
            plan_view(res) == seq![seq![hg(seq!["resolve"@, "-a"@, "-t"@, "internal:local"@])]],
    {
        single("hg", args4("resolve", "-a", "-t", "internal:local"))
    }

    /// Fetching is pulling.
    pub fn fetch(&self) -> (res: ProcessPlan)
        ensures
            plan_view(res) == seq![seq![hg(seq!["pull"@])]],
    {
        self.pull()
    }

    /// Pulls.
    pub fn pull(&self) -> (res: ProcessPlan)
        ensures
            plan_view(res) == seq![seq![hg(seq!["pull"@])]],
    {
        single("hg", args1("pull"))
    }

    /// Pushes, new branches too.
    pub fn push(&self) -> (res: ProcessPlan)
        ensures
            plan_view(res) == seq![seq![hg(seq!["push"@, "--new-branch"@])]],
    {
        single("hg", args2("push", "--new-branch"))
    }

    /// Creates a tag, replacing one of that name.
    pub fn create_tag(&self, name: &str) -> (res: ProcessPlan)
        ensures
            plan_view(res) == seq![seq![hg(seq!["tag"@, name@, "-f"@])]],
    {
        single("hg", args3("tag", name, "-f"))
    }

    /// The branches, in color.
    pub fn list_branches(&self) -> (res: ProcessPlan)
        ensures
            plan_view(res) == seq![seq![hg(seq!["branches"@, "--color"@, "always"@])]],
    {
        single("hg", args3("branches", "--color", "always"))
    }

    /// Creates a branch.
    pub fn create_branch(&self, name: &str) -> (res: ProcessPlan)
        ensures
            plan_view(res) == seq![seq![hg(seq!["branch"@, name@])]],
    {
        single("hg", args2("branch", name))
    }

    /// The command whose output `close_branch` takes to come back.
    pub fn identify_command(&self) -> (res: ProcessPlan)
        ensures
            plan_view(res) == seq![seq![hg(seq!["identify"@, "--num"@])]],
    {
        single("hg", args2("identify", "--num"))
    }

    /// Closes a branch: updates to it, commits a closing revision, and comes back to the
    /// revision `identify_command` printed, when it succeeded.
    pub fn close_branch(&self, name: &str, changeset: BackendResult<String>) -> (res: ProcessPlan)
        ensures
            changeset is Err ==> plan_view(res) == seq![
                seq![hg(seq!["update"@, name@])],
                seq![hg(seq!["commit"@, "-m"@, "\"close branch\""@, "--close-branch"@])],
            ],
            changeset matches Ok(c) ==> plan_view(res) == seq![
                seq![hg(seq!["update"@, name@])],
                seq![hg(seq!["commit"@, "-m"@, "\"close branch\""@, "--close-branch"@])],
                seq![hg(seq!["update"@, trim_spec(c@)])],
            ],
    {
        let mut commands: Vec<ProcessCommand> = Vec::new();
        commands.push(command("hg", args2("update", name)));
        commands.push(command("hg", args4("commit", "-m", "\"close branch\"", "--close-branch")));
        match changeset {
            Ok(c) => {
                let t = trim(c.as_str());
                commands.push(command("hg", args2("update", t.as_str())));
                let res = serial_plan(commands);
                assert(plan_view(res) =~~= seq![
                    seq![hg(seq!["update"@, name@])],
                    seq![hg(seq!["commit"@, "-m"@, "\"close branch\""@, "--close-branch"@])],
                    seq![hg(seq!["update"@, trim_spec(c@)])],
                ]);
                res
            },
            Err(_) => {
                let res = serial_plan(commands);
                assert(plan_view(res) =~~= seq![
                    seq![hg(seq!["update"@, name@])],
                    seq![hg(seq!["commit"@, "-m"@, "\"close branch\""@, "--close-branch"@])],
                ]);
                res
            },
        }
    }
}

} // verus!
