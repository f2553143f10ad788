use vstd::prelude::*;

use crate::async_process::ChildOutput;
use crate::text::{
    byte_len, chars_for_bytes, chars_in_bytes, chars_of, concat, is_boundary, piece_or_empty, split,
    split_spec, splitn, splitn_spec, str_byte_len, string_of, string_push, views,
};

verus! {

/// What running an action gives.
pub type ActionResult = ChildOutput;

/// The actions the user can run.
#[derive(PartialEq, Eq, Structural, Hash, Clone, Copy, Debug)]
pub enum ActionKind {
    Quit,
    Help,
    Status,
    Log,
    LogCount,
    CurrentFullRevision,
    CurrentDiffAll,
    CurrentDiffSelected,
    RevisionChanges,
    RevisionDiffAll,
    RevisionDiffSelected,
    CommitAll,
    CommitSelected,
    Update,
    Merge,
    RevertAll,
    RevertSelected,
    UnresolvedConflicts,
    MergeTakingOther,
    MergeTakingLocal,
    Fetch,
    Pull,
    Push,
    NewTag,
    ListBranches,
    NewBranch,
    DeleteBranch,
    CustomAction,
}

/// The name shown for an action.
pub open spec fn action_name(kind: ActionKind) -> Seq<char> {
    match kind {
        ActionKind::Quit => "quit"@,
        ActionKind::Help => "help"@,
        ActionKind::Status => "status"@,
        ActionKind::Log => "log"@,
        ActionKind::LogCount => "log count"@,
        ActionKind::CurrentFullRevision => "revision full contents"@,
        ActionKind::CurrentDiffAll => "current diff all"@,
        ActionKind::CurrentDiffSelected => "current diff selected"@,
        ActionKind::RevisionChanges => "revision changes"@,
        ActionKind::RevisionDiffAll => "revision diff all"@,
        ActionKind::RevisionDiffSelected => "revision diff selected"@,
        ActionKind::CommitAll => "commit all"@,
        ActionKind::CommitSelected => "commit selected"@,
        ActionKind::Update => "update/checkout"@,
        ActionKind::Merge => "merge"@,
        ActionKind::RevertAll => "revert all"@,
        ActionKind::RevertSelected => "revert selected"@,
        ActionKind::UnresolvedConflicts => "list unresolved conflicts"@,
        ActionKind::MergeTakingOther => "resolve taking other"@,
        ActionKind::MergeTakingLocal => "resolve taking local"@,
        ActionKind::Fetch => "fetch"@,
        ActionKind::Pull => "pull"@,
        ActionKind::Push => "push"@,
        ActionKind::NewTag => "new tag"@,
        ActionKind::ListBranches => "list branches"@,
        ActionKind::NewBranch => "new branch"@,
        ActionKind::DeleteBranch => "delete branch"@,
        ActionKind::CustomAction => "custom action"@,
    }
}

/// Whether the output of an action has lines to pick from: that of the logs.
pub open spec fn selects_output(kind: ActionKind) -> bool {
    kind == ActionKind::Log || kind == ActionKind::LogCount
}

impl ActionKind {
    /// The name shown for the action.
    pub fn name(self) -> (res: &'static str)
        ensures
            res@ == action_name(self),
    {
        match self {
            ActionKind::Quit => "quit",
            ActionKind::Help => "help",
            ActionKind::Status => "status",
            ActionKind::Log => "log",
            ActionKind::LogCount => "log count",
            ActionKind::CurrentFullRevision => "revision full contents",
            ActionKind::CurrentDiffAll => "current diff all",
            ActionKind::CurrentDiffSelected => "current diff selected",
            ActionKind::RevisionChanges => "revision changes",
            ActionKind::RevisionDiffAll => "revision diff all",
            ActionKind::RevisionDiffSelected => "revision diff selected",
            ActionKind::CommitAll => "commit all",
            ActionKind::CommitSelected => "commit selected",
            ActionKind::Update => "update/checkout",
            ActionKind::Merge => "merge",
            ActionKind::RevertAll => "revert all",
            ActionKind::RevertSelected => "revert selected",
            ActionKind::UnresolvedConflicts => "list unresolved conflicts",
            ActionKind::MergeTakingOther => "resolve taking other",
            ActionKind::MergeTakingLocal => "resolve taking local",
            ActionKind::Fetch => "fetch",
            ActionKind::Pull => "pull",
            ActionKind::Push => "push",
            ActionKind::NewTag => "new tag",
            ActionKind::ListBranches => "list branches",
            ActionKind::NewBranch => "new branch",
            ActionKind::DeleteBranch => "delete branch",
            ActionKind::CustomAction => "custom action",
        }
    }

    /// Whether the output has lines to pick from.
    pub fn can_select_output(self) -> (res: bool)
        ensures
            res == selects_output(self),
    {
        match self {
            ActionKind::Log | ActionKind::LogCount => true,
            _ => false,
        }
    }

    /// The revision a picked output line is about: for the logs, its second field between
    /// record separators.
    pub fn parse_target(self, line: &str) -> (res: Option<String>)
        ensures
            selects_output(self) && split_spec(line@, '\x1e').len() > 1 ==> (res matches Some(t)
                && t@ == split_spec(line@, '\x1e')[1]),
            !(selects_output(self) && split_spec(line@, '\x1e').len() > 1) ==> res is None,
    {
        if self.can_select_output() {
            let parts = split(line, '\x1e');
            if parts.len() > 1 {
                return Some(parts[1].clone());
            }
        }
        None
    }

    /// How a line of the output is drawn on `width` columns. A log line is cut to its first
    /// `width - 1` bytes and drawn field by field, each field in its color and followed by a
    /// space, the fields being split at record separators into at most six; any other line is
    /// drawn as it is. The cut must fall between characters.
    pub fn line_formatter(self, line: &str, width: usize) -> (res: Vec<LinePart>)
        requires
            selects_output(self) ==> width >= 1 && is_boundary(line@, cut_len(line@, width as int)),
        ensures
            res@.len() == formatted_line(self, line@, width as int).len(),
            forall|i: int|
                0 <= i < res@.len() ==> ((#[trigger] res@[i]).text@, res@[i].color)
                    == formatted_line(self, line@, width as int)[i],
    {
        if !self.can_select_output() {
            let mut res: Vec<LinePart> = Vec::new();
            res.push(LinePart { text: line.to_owned(), color: None });
            return res;
        }
        let c = chars_of(line);
        let bytes = str_byte_len(line);
        let cut = if bytes < width - 1 {
            bytes
        } else {
            width - 1
        };
        assert(c@.subrange(0, c@.len() as int) == c@);
        let k = match chars_for_bytes(&c, 0, c.len(), cut) {
            Some(k) => k,
            None => 0,
        };
        assert(c@.subrange(0, k as int) == line@.take(chars_in_bytes(line@, cut as nat)));
        let kept = string_of(&c, 0, k);
        let parts = splitn(kept.as_str(), 6, '\x1e');
        let ghost ps = splitn_spec(kept@, '\x1e', 6);
        let mut res: Vec<LinePart> = Vec::new();
        let mut i: usize = 0;
        while i < parts.len()
            invariant
                i <= parts@.len(),
                views(parts@) == ps,
                ps == splitn_spec(line@.take(chars_in_bytes(line@, cut_len(line@, width as int))), '\x1e', 6),
                res@.len() == i,
                forall|j: int|
                    0 <= j < i ==> ((#[trigger] res@[j]).text@, res@[j].color) == (
                        ps[j] + seq![' '],
                        Some(log_color(j)),
                    ),
            decreases parts.len() - i,
        {
            proof {
                reveal_strlit(" ");
            }
            let text = concat(parts[i].as_str(), " ");
            res.push(LinePart { text, color: Some(log_color_at(i)) });
            i += 1;
        }
        res
    }
}

/// The colors of the fields of a log line.
#[derive(PartialEq, Eq, Structural, Clone, Copy, Debug)]
pub enum LogColor {
    /// The graph and the last field.
    White,
    /// The revision: (211, 153, 33).
    Yellow,
    /// The date: (52, 113, 134).
    Blue,
    /// The author: (137, 151, 29).
    Green,
    /// The references: (251, 73, 47).
    Red,
}

/// The color of field `i` of a log line (six fields at most).
pub open spec fn log_color(i: int) -> LogColor {
    if i == 1 {
        LogColor::Yellow
    } else if i == 2 {
        LogColor::Blue
    } else if i == 3 {
        LogColor::Green
    } else if i == 4 {
        LogColor::Red
    } else {
        LogColor::White
    }
}

fn log_color_at(i: usize) -> (res: LogColor)
    ensures
        res == log_color(i as int),
{
    if i == 1 {
        LogColor::Yellow
    } else if i == 2 {
        LogColor::Blue
    } else if i == 3 {
        LogColor::Green
    } else if i == 4 {
        LogColor::Red
    } else {
        LogColor::White
    }
}

/// A piece of a drawn output line: its text and, on a log line, the color of its field.
pub struct LinePart {
    pub text: String,
    pub color: Option<LogColor>,
}

/// The bytes of a log line kept on `width` columns: at most `width - 1`.
pub open spec fn cut_len(line: Seq<char>, width: int) -> nat {
    if byte_len(line) < width - 1 {
        byte_len(line)
    } else {
        (width - 1) as nat
    }
}

/// The parts a line is drawn in: for a log line, the fields of what is kept of it, each with a
/// space and its color; for any other line, the line itself with no color.
pub open spec fn formatted_line(kind: ActionKind, line: Seq<char>, width: int) -> Seq<(Seq<char>, Option<LogColor>)> {
    if selects_output(kind) {
        let parts = splitn_spec(line.take(chars_in_bytes(line, cut_len(line, width))), '\x1e', 6);
        Seq::new(parts.len(), |i: int| (parts[i] + seq![' '], Some(log_color(i))))
    } else {
        seq![(line, None)]
    }
}

/// The outcome of several results: a success when all succeeded, the outputs each after a
/// line feed.
pub open spec fn aggregate_spec(results: Seq<(bool, Seq<char>)>) -> (bool, Seq<char>)
    decreases results.len(),
{
    if results.len() == 0 {
        (true, Seq::empty())
    } else {
        let prev = aggregate_spec(results.drop_last());
        (prev.0 && results.last().0, prev.1.push('\n') + results.last().1)
    }
}

/// The results as plain values.
pub open spec fn results_view(v: Seq<ChildOutput>) -> Seq<(bool, Seq<char>)> {
    v.map_values(|r: ChildOutput| (r.success, r.output@))
}

/// The outcome of several results, in order.
pub fn aggregate_results(results: Vec<ActionResult>) -> (res: ActionResult)
    ensures
        (res.success, res.output@) == aggregate_spec(results_view(results@)),
{
    let mut all_success = true;
    let mut aggregated = String::new();
    let mut i: usize = 0;
    while i < results.len()
        invariant
            i <= results@.len(),
            (all_success, aggregated@) == aggregate_spec(results_view(results@.take(i as int))),
        decreases results.len() - i,
    {
        assert(results_view(results@.take(i + 1)).drop_last() =~= results_view(
            results@.take(i as int),
        ));
        all_success = all_success && results[i].success;
        string_push(&mut aggregated, '\n');
        aggregated.append(results[i].output.as_str());
        i += 1;
    }
    assert(results@.take(results@.len() as int) == results@);
    ChildOutput { success: all_success, output: aggregated }
}

} // verus!
