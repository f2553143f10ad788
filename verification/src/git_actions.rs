use vstd::prelude::*;

use crate::backend::{args1, args2, args3, args4, args5, command, commands_view, plan_view, serial_plan, BackendResult,
    ProcessCommand, ProcessPlan};
use crate::select::{Entry, State};
use crate::text::{chars_of, concat, lines_spec, split, split_spec, str_equal, string_of, trim, trim_spec, usize_to_string,
    decimal, views};
use crate::version_control_actions::{kept_entries, listed_entries, listing_readable, first_line, parallel_plan, push_arg, push_owned_arg, push_selected_names, selected_names, single};

verus! {

/// The state a Git status letter stands for: unmodified for any other text.
pub open spec fn git_state(s: Seq<char>) -> State {
    if s == "?"@ {
        State::Untracked
    } else if s == "M"@ {
        State::Modified
    } else if s == "A"@ {
        State::Added
    } else if s == "D"@ {
        State::Deleted
    } else if s == "R"@ {
        State::Renamed
    } else if s == "C"@ {
        State::Copied
    } else if s == "U"@ {
        State::Unmerged
    } else {
        State::Unmodified
    }
}

/// The state a Git status letter stands for.
pub fn str_to_state(s: &str) -> (res: State)
    ensures
        res == git_state(s@),
{
    if str_equal(s, "?") {
        State::Untracked
    } else if str_equal(s, "M") {
        State::Modified
    } else if str_equal(s, "A") {
        State::Added
    } else if str_equal(s, "D") {
        State::Deleted
    } else if str_equal(s, "R") {
        State::Renamed
    } else if str_equal(s, "C") {
        State::Copied
    } else if str_equal(s, "U") {
        State::Unmerged
    } else {
        State::Unmodified
    }
}

/// The Git actions, run in the repository at `current_dir`.
pub struct GitActions {
    pub current_dir: String,
}

/// A Git command line as values.
pub open spec fn git(args: Seq<Seq<char>>) -> (Seq<char>, Seq<Seq<char>>) {
    ("git"@, args)
}

/// The files of a revision read from the NUL-divided output of `git diff-tree
/// --name-status -z`: trimmed pieces taken in pairs, a state then a file name.
pub open spec fn revision_files(output: Seq<char>) -> Seq<(Seq<char>, State)> {
    let pieces = split_spec(output, '\0');
    Seq::new(pieces.len() / 2, |k: int| (trim_spec(pieces[2 * k + 1]), git_state(trim_spec(pieces[2 * k]))))
}

/// The entries as values: name and state, none selected.
pub open spec fn files_of(entries: Seq<Entry>) -> Seq<(Seq<char>, State)> {
    entries.map_values(|e: Entry| (e.filename@, e.state))
}

impl GitActions {
    /// The program the actions run.
    pub fn executable_name(&self) -> (res: &'static str)
        ensures
            res@ == "git"@,
    {
        "git"
    }

    /// The directory the actions run in.
    pub fn current_dir(&self) -> (res: &str)
        ensures
            res@ == self.current_dir@,
    {
        self.current_dir.as_str()
    }

    /// The command that finds the root of the repository.
    pub fn root_command(&self) -> (res: ProcessPlan)
        ensures
            plan_view(res) == seq![seq![git(seq!["rev-parse"@, "--show-toplevel"@])]],
    {
        single("git", args2("rev-parse", "--show-toplevel"))
    }

    /// Moves to the root the root command printed on its first line; fails with its error.
    pub fn set_root(&mut self, output: BackendResult<String>) -> (res: BackendResult<()>)
        requires
            output matches Ok(o) ==> lines_spec(o@).len() > 0,
        ensures
            match output {
                Ok(o) => res is Ok && final(self).current_dir@ == lines_spec(o@)[0],
                Err(e) => res == Err::<(), String>(e) && final(self).current_dir == old(self).current_dir,
            },
    {
        match output {
            Ok(o) => {
                match first_line(o.as_str()) {
                    Some(dir) => self.current_dir = dir,
                    None => {},
                }
                Ok(())
            },
            Err(e) => Err(e),
        }
    }

    /// The root of the repository.
    pub fn get_root(&self) -> (res: &str)
        ensures
            res@ == self.current_dir@,
    {
        self.current_dir.as_str()
    }

    /// The changed files of the working copy, from the output of `git status -z`: the
    /// NUL-divided records longer than two bytes, the first letter the state and the rest
    /// after two characters the name; a failed command gives its error.
    pub fn get_current_changed_files(&self, output: BackendResult<String>) -> (res: BackendResult<Vec<Entry>>)
        requires
            output matches Ok(o) ==> listing_readable(o@, '\0', 2, 2),
        ensures
            match output {
                Ok(o) => res matches Ok(v) && files_of(v@) == listed_entries(o@, '\0', 2, 2, |s: Seq<char>| git_state(s))
                    && forall|k: int| 0 <= k < v@.len() ==> !(#[trigger] v@[k]).selected,
                Err(e) => res == Err::<Vec<Entry>, String>(e),
            },
    {
        match output {
            Ok(o) => {
                let t = trim(o.as_str());
                let raw = split(t.as_str(), '\0');
                let ghost pieces = split_spec(trim_spec(o@), '\0').map_values(|p: Seq<char>| trim_spec(p));
                let mut res: Vec<Entry> = Vec::new();
                let mut i: usize = 0;
                assert(pieces.take(0) == Seq::<Seq<char>>::empty());
                while i < raw.len()
                    invariant
                        i <= raw.len(),
                        views(raw@) == split_spec(trim_spec(o@), '\0'),
                        pieces == split_spec(trim_spec(o@), '\0').map_values(|p: Seq<char>| trim_spec(p)),
                        listing_readable(o@, '\0', 2, 2),
                        files_of(res@) == kept_entries(pieces.take(i as int), 2, 2, |s: Seq<char>| git_state(s)),
                        forall|j: int| 0 <= j < res@.len() ==> !(#[trigger] res@[j]).selected,
                    decreases raw.len() - i,
                {
                    let piece = trim(raw[i].as_str());
                    assert(piece@ == pieces[i as int]);
                    assert(pieces.take(i as int + 1).drop_last() == pieces.take(i as int));
                    if crate::text::str_byte_len(piece.as_str()) > 2 {
                        let c = chars_of(piece.as_str());
                        let state = str_to_state(string_of(&c, 0, 1).as_str());
                        let filename = trim(string_of(&c, 2, c.len()).as_str());
                        assert(c@.subrange(0, 1) == piece@.take(1));
                        assert(c@.subrange(2, c@.len() as int) == piece@.skip(2));
                        let ghost before = files_of(res@);
                        res.push(Entry { filename, selected: false, state });
                        assert(files_of(res@) == before.push((trim_spec(piece@.skip(2)), git_state(piece@.take(1)))));
                    }
                    i = i + 1;
                }
                assert(pieces.take(raw.len() as int) == pieces);
                Ok(res)
            },
            Err(e) => Err(e),
        }
    }

    /// The files of a revision, from the output of `revision_files_command`; a failed
    /// command gives its error.
    pub fn get_revision_changed_files(&self, output: BackendResult<String>) -> (res: BackendResult<Vec<Entry>>)
        ensures
            match output {
                Ok(o) => res matches Ok(v) && files_of(v@) == revision_files(o@) && forall|k: int| 0 <= k < v@.len()
                    ==> !(#[trigger] v@[k]).selected,
                Err(e) => res == Err::<Vec<Entry>, String>(e),
            },
    {
        match output {
            Ok(o) => {
                let pieces = split(o.as_str(), '\0');
                let ghost pv = views(pieces@);
                let mut res: Vec<Entry> = Vec::new();
                let mut k: usize = 0;
                let n = pieces.len() / 2;
                while k < n
                    invariant
                        k <= n,
                        n == pieces@.len() / 2,
                        pv == views(pieces@),
                        pv == split_spec(o@, '\0'),
                        files_of(res@) == revision_files(o@).take(k as int),
                        forall|j: int| 0 <= j < res@.len() ==> !(#[trigger] res@[j]).selected,
                    decreases n - k,
                {
                    let len = pieces.len();
                    assert(k + k + 1 < len) by (nonlinear_arith)
                        requires
                            k < n,
                            n == len / 2,
                    ;
                    let j: usize = k + k;
                    let state = str_to_state(trim(pieces[j].as_str()).as_str());
                    let filename = trim(pieces[j + 1].as_str());
                    let ghost before = files_of(res@);
                    res.push(Entry { filename, selected: false, state });
                    assert(files_of(res@) == before.push(revision_files(o@)[k as int]));
                    assert(revision_files(o@).take(k as int + 1) == revision_files(o@).take(k as int).push(
                        revision_files(o@)[k as int],
                    ));
                    k = k + 1;
                }
                assert(revision_files(o@).take(n as int) == revision_files(o@));
                Ok(res)
            },
            Err(e) => Err(e),
        }
    }

    /// The command whose output `get_revision_changed_files` reads.
    pub fn revision_files_command(&self, target: &str) -> (res: ProcessPlan)
        ensures
            plan_view(res) == seq![seq![git(seq!["diff-tree"@, "--no-commit-id"@, "--name-status"@, "-z"@, "-r"@, target@])]],
    {
        let mut args = args5("diff-tree", "--no-commit-id", "--name-status", "-z", "-r");
        push_arg(&mut args, target);
        assert(views(args@) =~= seq!["diff-tree"@, "--no-commit-id"@, "--name-status"@, "-z"@, "-r"@, target@]);
        single("git", args)
    }

    /// `git --version`.
    pub fn version(&self) -> (res: ProcessPlan)
        ensures
            plan_view(res) == seq![seq![git(seq!["--version"@])]],
    {
        single("git", args1("--version"))
    }

    /// The status, in color.
    pub fn status(&self) -> (res: ProcessPlan)
        ensures
            plan_view(res) == seq![seq![git(seq!["-c"@, "color.status=always"@, "status"@])]],
    {
        single("git", args3("-c", "color.status=always", "status"))
    }

    /// The current revision with its diff.
    pub fn current_export(&self) -> (res: ProcessPlan)
        ensures
            plan_view(res) == seq![seq![git(seq!["show"@, "--color"@])]],
    {
        single("git", args2("show", "--color"))
    }

    /// The last `count` revisions of all branches as a graph, fields divided by record
    /// separators.
    pub fn log(&self, count: usize) -> (res: ProcessPlan)
        ensures
            plan_view(res) == seq![seq![git(seq![
                "log"@,
                "--all"@,
                "--decorate"@,
                "--oneline"@,
                "--graph"@,
                seq!['-'] + decimal(count as nat),
                "--format=format:%x1e%h%x1e%as%x1e%<(10,trunc)%aN%x1e%D%x1e%s"@,
            ])]],
    {
        let mut args = args5("log", "--all", "--decorate", "--oneline", "--graph");
        let count_str = concat("-", usize_to_string(count).as_str());
        proof {
            reveal_strlit("-");
        }
        assert("-"@ =~= seq!['-']);
        push_owned_arg(&mut args, count_str);
        push_arg(&mut args, "--format=format:%x1e%h%x1e%as%x1e%<(10,trunc)%aN%x1e%D%x1e%s");
        assert(views(args@) =~= seq![
            "log"@,
            "--all"@,
            "--decorate"@,
            "--oneline"@,
            "--graph"@,
            seq!['-'] + decimal(count as nat),
            "--format=format:%x1e%h%x1e%as%x1e%<(10,trunc)%aN%x1e%D%x1e%s"@,
        ]);
        single("git", args)
    }

    /// The diff of all changes.
    pub fn current_diff_all(&self) -> (res: ProcessPlan)
        ensures
            plan_view(res) == seq![seq![git(seq!["diff"@, "--color"@])]],
    {
        single("git", args2("diff", "--color"))
    }

    /// The diff of the selected files.
    pub fn current_diff_selected(&self, entries: &Vec<Entry>) -> (res: ProcessPlan)
        ensures
            plan_view(res) == seq![seq![git(seq!["diff"@, "--color"@, "--"@] + selected_names(entries@))]],
    {
        let mut args = args3("diff", "--color", "--");
        push_selected_names(&mut args, entries);
        single("git", args)
    }

    /// The files a revision changed, in color.
    pub fn revision_changes(&self, target: &str) -> (res: ProcessPlan)
        ensures
            plan_view(res) == seq![seq![git(seq!["diff-tree"@, "--no-commit-id"@, "--name-status"@, "-r"@, target@, "--color"@])]],
    {
        let mut args = args4("diff-tree", "--no-commit-id", "--name-status", "-r");
        push_arg(&mut args, target);
        push_arg(&mut args, "--color");
        assert(views(args@) =~= seq!["diff-tree"@, "--no-commit-id"@, "--name-status"@, "-r"@, target@, "--color"@]);
        single("git", args)
    }

    /// The diff of a revision against its parents.
    pub fn revision_diff_all(&self, target: &str) -> (res: ProcessPlan)
        ensures
            plan_view(res) == seq![seq![git(seq!["diff"@, target@ + "^@"@, target@, "--color"@])]],
    {
        let mut args = args1("diff");
        push_owned_arg(&mut args, concat(target, "^@"));
        push_arg(&mut args, target);
        push_arg(&mut args, "--color");
        assert(views(args@) =~= seq!["diff"@, target@ + "^@"@, target@, "--color"@]);
        single("git", args)
    }

    /// The diff of the selected files of a revision against its parents.
    pub fn revision_diff_selected(&self, target: &str, entries: &Vec<Entry>) -> (res: ProcessPlan)
        ensures
            plan_view(res) == seq![seq![git(seq!["diff"@, "--color"@, target@ + "^@"@, target@, "--"@] + selected_names(entries@))]],
    {
        let mut args = args2("diff", "--color");
        push_owned_arg(&mut args, concat(target, "^@"));
        push_arg(&mut args, target);
        push_arg(&mut args, "--");
        assert(views(args@) =~= seq!["diff"@, "--color"@, target@ + "^@"@, target@, "--"@]);
        push_selected_names(&mut args, entries);
        single("git", args)
    }

    /// Adds every change and commits.
    pub fn commit_all(&self, message: &str) -> (res: ProcessPlan)
        ensures
            plan_view(res) == seq![seq![git(seq!["add"@, "--all"@])], seq![git(seq!["commit"@, "-m"@, message@])]],
    {
        let mut commands: Vec<ProcessCommand> = Vec::new();
        commands.push(command("git", args2("add", "--all")));
        commands.push(command("git", args3("commit", "-m", message)));
        let res = serial_plan(commands);
        assert(plan_view(res) =~~= seq![seq![git(seq!["add"@, "--all"@])], seq![git(seq!["commit"@, "-m"@, message@])]]);
        res
    }

    /// Adds the selected files one after the other, then commits.
    pub fn commit_selected(&self, message: &str, entries: &Vec<Entry>) -> (res: ProcessPlan)
        ensures
            plan_view(res) == Seq::new(selected_names(entries@).len(), |k: int| seq![git(seq!["add"@, "--"@, selected_names(entries@)[k]])]).push(
                seq![git(seq!["commit"@, "-m"@, message@])],
            ),
    {
        let mut names: Vec<String> = Vec::new();
        push_selected_names(&mut names, entries);
        let ghost nv = views(names@);
        let mut commands: Vec<ProcessCommand> = Vec::new();
        let mut k: usize = 0;
        while k < names.len()
            invariant
                k <= names.len(),
                nv == views(names@),
                nv == selected_names(entries@),
                commands@.len() == k,
                forall|j: int| 0 <= j < k ==> crate::backend::command_view(#[trigger] commands@[j]) == git(seq!["add"@, "--"@, nv[j]]),
            decreases names.len() - k,
        {
            commands.push(command("git", args3("add", "--", names[k].as_str())));
            k = k + 1;
        }
        commands.push(command("git", args3("commit", "-m", message)));
        let res = serial_plan(commands);
        assert(plan_view(res) =~~= Seq::new(nv.len(), |k: int| seq![git(seq!["add"@, "--"@, nv[k]])]).push(
            seq![git(seq!["commit"@, "-m"@, message@])],
        ));
        res
    }

    /// Drops every change, then the untracked files.
    pub fn revert_all(&self) -> (res: ProcessPlan)
        ensures
            plan_view(res) == seq![seq![git(seq!["reset"@, "--hard"@])], seq![git(seq!["clean"@, "-df"@])]],
    {
        let mut commands: Vec<ProcessCommand> = Vec::new();
        commands.push(command("git", args2("reset", "--hard")));
        commands.push(command("git", args2("clean", "-df")));
        let res = serial_plan(commands);
        assert(plan_view(res) =~~= seq![seq![git(seq!["reset"@, "--hard"@])], seq![git(seq!["clean"@, "-df"@])]]);
        res
    }

    /// Drops the changes of the selected files together: untracked files are removed,
    /// added files unstaged and removed, others checked out.
    pub fn revert_selected(&self, entries: &Vec<Entry>) -> (res: ProcessPlan)
        ensures
            revert_commands(entries@).len() > 0 ==> plan_view(res) == seq![revert_commands(entries@)],
            revert_commands(entries@).len() == 0 ==> plan_view(res).len() == 0,
    {
        let mut commands: Vec<ProcessCommand> = Vec::new();
        let mut i: usize = 0;
        assert(entries@.take(0) == Seq::<Entry>::empty());
        while i < entries.len()
            invariant
                i <= entries.len(),
                commands_view(commands@) == revert_commands(entries@.take(i as int)),
            decreases entries.len() - i,
        {
            assert(entries@.take(i as int + 1).drop_last() == entries@.take(i as int));
            let e = &entries[i];
            if e.selected {
                let ghost before = commands_view(commands@);
                let c = match e.state {
                    State::Untracked => command("git", args4("clean", "-f", "--", e.filename.as_str())),
                    State::Added => command("git", args4("rm", "-f", "--", e.filename.as_str())),
                    _ => command("git", args3("checkout", "--", e.filename.as_str())),
                };
                commands.push(c);
                assert(commands_view(commands@) == before.push(revert_command(*e)));
            }
            i = i + 1;
        }
        assert(entries@.take(entries.len() as int) == entries@);
        parallel_plan(commands)
    }

    /// Checks out a revision.
    pub fn update(&self, target: &str) -> (res: ProcessPlan)
        ensures
            plan_view(res) == seq![seq![git(seq!["checkout"@, target@])]],
    {
        single("git", args2("checkout", target))
    }

    /// Merges a revision.
    pub fn merge(&self, target: &str) -> (res: ProcessPlan)
        ensures
            plan_view(res) == seq![seq![git(seq!["merge"@, target@])]],
    {
        single("git", args2("merge", target))
    }

    /// The files with conflicts.
    pub fn conflicts(&self) -> (res: ProcessPlan)
        ensures
            plan_view(res) == seq![seq![git(seq!["diff"@, "--name-only"@, "--diff-filter=U"@])]],
    {
        single("git", args3("diff", "--name-only", "--diff-filter=U"))
    }

    /// Resolves conflicts taking the other side.
    pub fn take_other(&self) -> (res: ProcessPlan)
        ensures
            plan_view(res) == seq![seq![git(seq!["checkout"@, "."@, "--theirs"@])]],
    {
        single("git", args3("checkout", ".", "--theirs"))
    }

    /// Resolves conflicts taking the local side.
    pub fn take_local(&self) -> (res: ProcessPlan)
        ensures
            plan_view(res) == seq![seq![git(seq!["checkout"@, "."@, "--ours"@])]],
    {
        single("git", args3("checkout", ".", "--ours"))
    }

    /// Fetches all remotes.
    pub fn fetch(&self) -> (res: ProcessPlan)
        ensures
            plan_view(res) == seq![seq![git(seq!["fetch"@, "--all"@])]],
    {
        single("git", args2("fetch", "--all"))
    }

    /// Pulls all remotes.
    pub fn pull(&self) -> (res: ProcessPlan)
        ensures
            plan_view(res) == seq![seq![git(seq!["pull"@, "--all"@])]],
    {
        single("git", args2("pull", "--all"))
    }

    /// Pushes.
    pub fn push(&self) -> (res: ProcessPlan)
        ensures
            plan_view(res) == seq![seq![git(seq!["push"@])]],
    {
        single("git", args1("push"))
    }

    /// Creates a tag (replacing one of that name), then pushes it.
    pub fn create_tag(&self, name: &str) -> (res: ProcessPlan)
        ensures
            plan_view(res) == seq![seq![git(seq!["tag"@, name@, "-f"@])], seq![git(seq!["push"@, "origin"@, name@])]],
    {
        let mut commands: Vec<ProcessCommand> = Vec::new();
        commands.push(command("git", args3("tag", name, "-f")));
        commands.push(command("git", args3("push", "origin", name)));
        let res = serial_plan(commands);
        assert(plan_view(res) =~~= seq![seq![git(seq!["tag"@, name@, "-f"@])], seq![git(seq!["push"@, "origin"@, name@])]]);
        res
    }

    /// All branches, in color.
    pub fn list_branches(&self) -> (res: ProcessPlan)
        ensures
            plan_view(res) == seq![seq![git(seq!["branch"@, "--all"@, "--color"@])]],
    {
        single("git", args3("branch", "--all", "--color"))
    }

    /// Creates a branch, checks it out, and pushes it upstream.
    pub fn create_branch(&self, name: &str) -> (res: ProcessPlan)
        ensures
            plan_view(res) == seq![
                seq![git(seq!["branch"@, name@])],
                seq![git(seq!["checkout"@, name@])],
                seq![git(seq!["push"@, "--set-upstream"@, "origin"@, name@])],
            ],
    {
        let mut commands: Vec<ProcessCommand> = Vec::new();
        commands.push(command("git", args2("branch", name)));
        commands.push(command("git", args2("checkout", name)));
        commands.push(command("git", args4("push", "--set-upstream", "origin", name)));
        let res = serial_plan(commands);
        assert(plan_view(res) =~~= seq![
            seq![git(seq!["branch"@, name@])],
            seq![git(seq!["checkout"@, name@])],
            seq![git(seq!["push"@, "--set-upstream"@, "origin"@, name@])],
        ]);
        res
    }

    /// Deletes a branch, here and on the remote.
    pub fn close_branch(&self, name: &str) -> (res: ProcessPlan)
        ensures
            plan_view(res) == seq![seq![git(seq!["branch"@, "-d"@, name@])], seq![git(seq!["push"@, "-d"@, "origin"@, name@])]],
    {
        let mut commands: Vec<ProcessCommand> = Vec::new();
        commands.push(command("git", args3("branch", "-d", name)));
        commands.push(command("git", args4("push", "-d", "origin", name)));
        let res = serial_plan(commands);
        assert(plan_view(res) =~~= seq![seq![git(seq!["branch"@, "-d"@, name@])], seq![git(seq!["push"@, "-d"@, "origin"@, name@])]]);
        res
    }
}

/// The command that drops the changes of one file.
pub open spec fn revert_command(e: Entry) -> (Seq<char>, Seq<Seq<char>>) {
    match e.state {
        State::Untracked => git(seq!["clean"@, "-f"@, "--"@, e.filename@]),
        State::Added => git(seq!["rm"@, "-f"@, "--"@, e.filename@]),
        _ => git(seq!["checkout"@, "--"@, e.filename@]),
    }
}

/// The commands that drop the changes of the selected files, in order.
pub open spec fn revert_commands(entries: Seq<Entry>) -> Seq<(Seq<char>, Seq<Seq<char>>)>
    decreases entries.len(),
{
    if entries.len() == 0 {
        seq![]
    } else if entries.last().selected {
        revert_commands(entries.drop_last()).push(revert_command(entries.last()))
    } else {
        revert_commands(entries.drop_last())
    }
}

} // verus!
