use vstd::prelude::*;

use crate::actions::{has_set, Action, Actions, Command};
use crate::text::{concat, split, split_spec, splitn, splitn_spec, views};

verus! {

/// What running an action needs from outside: reading an answer to a prompt, and showing
/// output (an unanswered prompt shows nothing, `Ok(None)`).
pub trait VersionControlIO {
    fn on_in(&mut self) -> Option<String>;

    fn on_out(&mut self, output: Result<Option<&str>, &str>);
}

/// How a command of an action starts: by showing its prompt and reading the answer, or by
/// running its command line at once.
pub enum CommandStart {
    Ask(String),
    Run(String, Vec<String>),
}

/// What an action shows of a command's result: its output, or its error.
pub open spec fn shown_result(result: Result<String, String>) -> Result<Option<Seq<char>>, Seq<char>> {
    match result {
        Ok(o) => Ok(Some(o@)),
        Err(e) => Err(e@),
    }
}

/// How a command starts: a command with a prompt asks first; one without runs the program
/// and arguments of its command line.
pub fn command_start(command: &Command) -> (res: CommandStart)
    ensures
        match command.prompt {
            Some(p) => res matches CommandStart::Ask(q) && q@ == p@,
            None => res matches CommandStart::Run(program, args) && (program@, views(args@))
                == command_parts(command.exec_line@),
        },
{
    match &command.prompt {
        Some(p) => CommandStart::Ask(p.clone()),
        None => {
            let (program, args) = split_command(command.exec_line.as_str());
            CommandStart::Run(program, args)
        },
    }
}

/// What a command with a prompt runs once the prompt is answered: the program and arguments
/// of its command line with the answer in place of its `$`; nothing without an answer.
pub fn command_step(command: &Command, answer: Option<String>) -> (res: Option<(String, Vec<String>)>)
    ensures
        match answer {
            Some(a) => res matches Some((program, args)) && (program@, views(args@)) == command_parts(
                formatted(command.exec_line@, a@),
            ),
            None => res is None,
        },
{
    match answer {
        Some(a) => {
            let line = simple_format(command.exec_line.as_str(), a.as_str());
            Some(split_command(line.as_str()))
        },
        None => None,
    }
}

/// What a command shows at its end: its output or its error once it ran, nothing when its
/// prompt got no answer.
pub fn command_shown(result: Option<Result<String, String>>) -> (res: Result<Option<String>, String>)
    ensures
        match result {
            None => res == Ok::<Option<String>, String>(None),
            Some(r) => match (r, res) {
                (Ok(o), Ok(Some(s))) => s@ == o@,
                (Err(e), Err(s)) => s@ == e@,
                _ => false,
            },
        },
{
    match result {
        None => Ok(None),
        Some(Ok(o)) => Ok(Some(o)),
        Some(Err(e)) => Err(e),
    }
}

/// The actions of the version control system in use, and the directory they run in.
pub struct VersionControl<'a> {
    pub actions: &'a Vec<Action>,
    pub current_dir: &'a str,
}

/// `format` with its first `$` replaced by `arg`; `format` and then `arg` when it has no `$`.
pub open spec fn formatted(format: Seq<char>, arg: Seq<char>) -> Seq<char> {
    let pieces = splitn_spec(format, '$', 2);
    pieces[0] + arg + (if pieces.len() > 1 {
        pieces[1]
    } else {
        seq![]
    })
}

/// `format` with its first `$` replaced by `arg`.
pub fn simple_format(format: &str, arg: &str) -> (res: String)
    ensures
        res@ == formatted(format@, arg@),
{
    let pieces = splitn(format, 2, '$');
    proof {
        crate::text::lemma_splitn_nonempty(format@, '$', 2);
    }
    let mut res = concat(pieces[0].as_str(), arg);
    if pieces.len() > 1 {
        res.append(pieces[1].as_str());
    }
    res
}

/// The program and arguments of a command line: the pieces between spaces, the first the
/// program.
pub open spec fn command_parts(command: Seq<char>) -> (Seq<char>, Seq<Seq<char>>) {
    let pieces = split_spec(command, ' ');
    (pieces[0], pieces.skip(1))
}

/// The program and arguments of a command line.
pub fn split_command(command: &str) -> (res: (String, Vec<String>))
    ensures
        (res.0@, views(res.1@)) == command_parts(command@),
{
    let mut pieces = split(command, ' ');
    proof {
        crate::text::lemma_split_nonempty(command@, ' ');
    }
    let ghost all = views(pieces@);
    let program = pieces.remove(0);
    assert(views(pieces@) == all.skip(1));
    (program, pieces)
}

/// Whether an action of that name is among `actions`.
pub open spec fn has_action(actions: Seq<Action>, name: Seq<char>) -> bool {
    exists|i: int| 0 <= i < actions.len() && (#[trigger] actions[i]).name@ == name
}

impl<'a> VersionControl<'a> {
    /// The git actions, if the sets hold them.
    pub fn find_current(current_dir: &'a str, actions: &'a Actions) -> (res: Result<VersionControl<'a>, ()>)
        ensures
            res is Ok <==> has_set(actions@, "git"@),
            res matches Ok(vc) ==> vc.current_dir == current_dir && exists|i: int|
                0 <= i < actions@.len() && actions@[i].0 == "git"@ && vc.actions@ == actions@[i].1,
    {
        match actions.get("git") {
            Some(set) => Ok(VersionControl { current_dir, actions: set }),
            None => Err(()),
        }
    }

    /// The first action of that name.
    pub fn find_action(&self, name: &str) -> (res: Option<&Action>)
        ensures
            res is Some <==> has_action(self.actions@, name@),
            res matches Some(a) ==> a.name@ == name@,
    {
        let mut i: usize = 0;
        while i < self.actions.len()
            invariant
                i <= self.actions@.len(),
                forall|j: int| 0 <= j < i ==> (#[trigger] self.actions@[j]).name@ != name@,
            decreases self.actions.len() - i,
        {
            if crate::text::str_equal(self.actions[i].name.as_str(), name) {
                return Some(&self.actions[i]);
            }
            i = i + 1;
        }
        None
    }

    /// The commands of the first action of that name, to be run in order in `current_dir`:
    /// each starts as `command_start` says, continues as `command_step` says with the answer
    /// to its prompt, and ends showing what `command_shown` gives. Fails when there is no such
    /// action.
    pub fn run_action(&self, action: &str) -> (res: Result<&'a Vec<Command>, String>)
        ensures
            match res {
                Ok(commands) => exists|i: int|
                    0 <= i < self.actions@.len() && self.actions@[i].name@ == action@ && commands == &self.actions@[i].commands
                        && forall|j: int| 0 <= j < i ==> (#[trigger] self.actions@[j]).name@ != action@,
                Err(e) => !has_action(self.actions@, action@) && e@ == "Could not find action '"@ + action@ + "'."@,
            },
    {
        let actions: &'a Vec<Action> = self.actions;
        let mut i: usize = 0;
        while i < actions.len()
            invariant
                actions == self.actions,
                i <= actions@.len(),
                forall|j: int| 0 <= j < i ==> (#[trigger] actions@[j]).name@ != action@,
            decreases actions.len() - i,
        {
            if crate::text::str_equal(actions[i].name.as_str(), action) {
                return Ok(&actions[i].commands);
            }
            i = i + 1;
        }
        let message = concat(concat("Could not find action '", action).as_str(), "'.");
        proof {
            reveal_strlit("Could not find action '");
            reveal_strlit("'.");
        }
        Err(message)
    }
}

} // verus!
