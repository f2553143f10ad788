use vstd::prelude::*;

use crate::action::ActionKind;
use crate::custom_actions::CustomAction;
use crate::input::{key_to_char, typed_char, KeyCode, KeyEvent};
use crate::scroll_view::{
    available, content_height_spec, positions_fit, scroll_command, size_fits, updated,
    ScrollCommand, ScrollView,
};
use crate::text::{chars_of, concat, parse_usize, trim, trim_spec, usize_numeral, views};
use crate::tui_util::{HeaderKind, TerminalSize};

verus! {

/// What a key chord leads to.
#[derive(PartialEq, Eq, Structural, Clone, Copy, Debug)]
pub enum HandleChordResult {
    /// The chord was used up: an action ran, or the chord means nothing and is dropped.
    Handled,
    /// The chord is the start of a longer one.
    Unhandled,
    /// The user quits.
    Quit,
}

/// The outcome of a chord: what becomes of it, and the action it runs, if any.
/// Whether a chord is the one key `a`.
pub open spec fn is1(chord: Seq<char>, a: char) -> bool {
    chord.len() == 1 && chord[0] == a
}

/// Whether a chord is the two keys `a` then `b`.
pub open spec fn is2(chord: Seq<char>, a: char, b: char) -> bool {
    chord.len() == 2 && chord[0] == a && chord[1] == b
}

pub open spec fn chord_outcome(chord: Seq<char>) -> (HandleChordResult, Option<ActionKind>) {
    let run = |k: ActionKind| (HandleChordResult::Handled, Some(k));
    let wait = (HandleChordResult::Unhandled, None::<ActionKind>);
    if is1(chord, 'q') {
        (HandleChordResult::Quit, None)
    } else if is1(chord, 'h') {
        run(ActionKind::Help)
    } else if is1(chord, 's') {
        run(ActionKind::Status)
    } else if is1(chord, 'l') {
        wait
    } else if is2(chord, 'l', 'l') {
        run(ActionKind::Log)
    } else if is2(chord, 'l', 'c') {
        run(ActionKind::LogCount)
    } else if is1(chord, 'e') {
        wait
    } else if is2(chord, 'e', 'e') {
        run(ActionKind::CurrentFullRevision)
    } else if is1(chord, 'd') {
        wait
    } else if is2(chord, 'd', 'd') {
        run(ActionKind::CurrentDiffAll)
    } else if is2(chord, 'd', 's') {
        run(ActionKind::CurrentDiffSelected)
    } else if is1(chord, 'D') {
        wait
    } else if is2(chord, 'D', 'C') {
        run(ActionKind::RevisionChanges)
    } else if is2(chord, 'D', 'D') {
        run(ActionKind::RevisionDiffAll)
    } else if is2(chord, 'D', 'S') {
        run(ActionKind::RevisionDiffSelected)
    } else if is1(chord, 'c') {
        wait
    } else if is2(chord, 'c', 'c') {
        run(ActionKind::CommitAll)
    } else if is2(chord, 'c', 's') {
        run(ActionKind::CommitSelected)
    } else if is1(chord, 'u') {
        run(ActionKind::Update)
    } else if is1(chord, 'm') {
        run(ActionKind::Merge)
    } else if is1(chord, 'R') {
        wait
    } else if is2(chord, 'R', 'A') {
        run(ActionKind::RevertAll)
    } else if is1(chord, 'r') {
        wait
    } else if is2(chord, 'r', 's') {
        run(ActionKind::RevertSelected)
    } else if is2(chord, 'r', 'r') {
        run(ActionKind::UnresolvedConflicts)
    } else if is2(chord, 'r', 'o') {
        run(ActionKind::MergeTakingOther)
    } else if is2(chord, 'r', 'l') {
        run(ActionKind::MergeTakingLocal)
    } else if is1(chord, 'f') {
        run(ActionKind::Fetch)
    } else if is1(chord, 'p') {
        run(ActionKind::Pull)
    } else if is1(chord, 'P') {
        run(ActionKind::Push)
    } else if is1(chord, 't') {
        wait
    } else if is2(chord, 't', 'n') {
        run(ActionKind::NewTag)
    } else if is1(chord, 'b') {
        wait
    } else if is2(chord, 'b', 'b') {
        run(ActionKind::ListBranches)
    } else if is2(chord, 'b', 'n') {
        run(ActionKind::NewBranch)
    } else if is2(chord, 'b', 'd') {
        run(ActionKind::DeleteBranch)
    } else if is1(chord, 'x') {
        run(ActionKind::CustomAction)
    } else {
        (HandleChordResult::Handled, None)
    }
}

fn one(chord: &Vec<char>, a: char) -> (res: bool)
    ensures
        res == is1(chord@, a),
{
    if chord.len() == 1 && chord[0] == a {
        true
    } else {
        false
    }
}

fn two(chord: &Vec<char>, a: char, b: char) -> (res: bool)
    ensures
        res == is2(chord@, a, b),
{
    if chord.len() == 2 && chord[0] == a && chord[1] == b {
        true
    } else {
        false
    }
}

/// What the chord typed so far leads to (the table of the help screen).
pub fn handle_key_chord(chord: &Vec<char>) -> (res: (HandleChordResult, Option<ActionKind>))
    ensures
        res == chord_outcome(chord@),
{
    let run = HandleChordResult::Handled;
    let wait = (HandleChordResult::Unhandled, None);
    if one(chord, 'q') {
        (HandleChordResult::Quit, None)
    } else if one(chord, 'h') {
        (run, Some(ActionKind::Help))
    } else if one(chord, 's') {
        (run, Some(ActionKind::Status))
    } else if one(chord, 'l') {
        wait
    } else if two(chord, 'l', 'l') {
        (run, Some(ActionKind::Log))
    } else if two(chord, 'l', 'c') {
        (run, Some(ActionKind::LogCount))
    } else if one(chord, 'e') {
        wait
    } else if two(chord, 'e', 'e') {
        (run, Some(ActionKind::CurrentFullRevision))
    } else if one(chord, 'd') {
        wait
    } else if two(chord, 'd', 'd') {
        (run, Some(ActionKind::CurrentDiffAll))
    } else if two(chord, 'd', 's') {
        (run, Some(ActionKind::CurrentDiffSelected))
    } else if one(chord, 'D') {
        wait
    } else if two(chord, 'D', 'C') {
        (run, Some(ActionKind::RevisionChanges))
    } else if two(chord, 'D', 'D') {
        (run, Some(ActionKind::RevisionDiffAll))
    } else if two(chord, 'D', 'S') {
        (run, Some(ActionKind::RevisionDiffSelected))
    } else if one(chord, 'c') {
        wait
    } else if two(chord, 'c', 'c') {
        (run, Some(ActionKind::CommitAll))
    } else if two(chord, 'c', 's') {
        (run, Some(ActionKind::CommitSelected))
    } else if one(chord, 'u') {
        (run, Some(ActionKind::Update))
    } else if one(chord, 'm') {
        (run, Some(ActionKind::Merge))
    } else if one(chord, 'R') {
        wait
    } else if two(chord, 'R', 'A') {
        (run, Some(ActionKind::RevertAll))
    } else if one(chord, 'r') {
        wait
    } else if two(chord, 'r', 's') {
        (run, Some(ActionKind::RevertSelected))
    } else if two(chord, 'r', 'r') {
        (run, Some(ActionKind::UnresolvedConflicts))
    } else if two(chord, 'r', 'o') {
        (run, Some(ActionKind::MergeTakingOther))
    } else if two(chord, 'r', 'l') {
        (run, Some(ActionKind::MergeTakingLocal))
    } else if one(chord, 'f') {
        (run, Some(ActionKind::Fetch))
    } else if one(chord, 'p') {
        (run, Some(ActionKind::Pull))
    } else if one(chord, 'P') {
        (run, Some(ActionKind::Push))
    } else if one(chord, 't') {
        wait
    } else if two(chord, 't', 'n') {
        (run, Some(ActionKind::NewTag))
    } else if one(chord, 'b') {
        wait
    } else if two(chord, 'b', 'b') {
        (run, Some(ActionKind::ListBranches))
    } else if two(chord, 'b', 'n') {
        (run, Some(ActionKind::NewBranch))
    } else if two(chord, 'b', 'd') {
        (run, Some(ActionKind::DeleteBranch))
    } else if one(chord, 'x') {
        (run, Some(ActionKind::CustomAction))
    } else {
        (HandleChordResult::Handled, None)
    }
}

/// Whether `shortcut` is typed in full at the start of `chord`: each of its characters equals
/// the chord's at that place, a NUL standing for each place past the chord's end.
pub open spec fn chord_completes(shortcut: Seq<char>, chord: Seq<char>) -> bool {
    forall|i: int|
        0 <= i < shortcut.len() ==> shortcut[i] == if i < chord.len() {
            chord[i]
        } else {
            '\0'
        }
}

/// Whether `shortcut` and `chord` agree as far as both go.
pub open spec fn chord_agrees(shortcut: Seq<char>, chord: Seq<char>) -> bool {
    forall|i: int| 0 <= i < shortcut.len() && i < chord.len() ==> shortcut[i] == chord[i]
}

/// What the chord typed after `x` leads to.
#[derive(PartialEq, Eq, Structural, Clone, Copy, Debug)]
pub enum CustomActionMatch {
    /// Run the custom action of that index.
    Run(usize),
    /// Some action may still be typed in full.
    Wait,
    /// No action can match.
    NoMatch,
}

/// The first action whose shortcut the chord completes, else whether any shortcut agrees
/// with the chord so far.
pub open spec fn custom_action_match(shortcuts: Seq<Seq<char>>, chord: Seq<char>) -> CustomActionMatch {
    if exists|i: int| 0 <= i < shortcuts.len() && chord_completes(#[trigger] shortcuts[i], chord) {
        CustomActionMatch::Run(
            choose|i: usize|
                0 <= i < shortcuts.len() && chord_completes(shortcuts[i as int], chord) && forall|
                    j: int,
                | 0 <= j < i ==> !chord_completes(#[trigger] shortcuts[j], chord),
        )
    } else if exists|i: int| 0 <= i < shortcuts.len() && chord_agrees(#[trigger] shortcuts[i], chord) {
        CustomActionMatch::Wait
    } else {
        CustomActionMatch::NoMatch
    }
}

fn completes(shortcut: &Vec<char>, chord: &Vec<char>) -> (res: bool)
    ensures
        res == chord_completes(shortcut@, chord@),
{
    let mut i: usize = 0;
    while i < shortcut.len()
        invariant
            i <= shortcut@.len(),
            forall|j: int|
                0 <= j < i ==> shortcut@[j] == if j < chord@.len() {
                    chord@[j]
                } else {
                    '\0'
                },
        decreases shortcut.len() - i,
    {
        let other = if i < chord.len() {
            chord[i]
        } else {
            '\0'
        };
        if shortcut[i] != other {
            return false;
        }
        i += 1;
    }
    true
}

fn agrees(shortcut: &Vec<char>, chord: &Vec<char>) -> (res: bool)
    ensures
        res == chord_agrees(shortcut@, chord@),
{
    let mut i: usize = 0;
    while i < shortcut.len() && i < chord.len()
        invariant
            i <= shortcut@.len(),
            forall|j: int| 0 <= j < i && j < chord@.len() ==> shortcut@[j] == chord@[j],
        decreases shortcut.len() - i,
    {
        if shortcut[i] != chord[i] {
            return false;
        }
        i += 1;
    }
    true
}

/// The shortcuts of the actions.
pub open spec fn shortcuts(actions: Seq<CustomAction>) -> Seq<Seq<char>> {
    actions.map_values(|a: CustomAction| a.shortcut@)
}

/// What the chord typed after `x` leads to among the custom actions.
pub fn handle_custom_action(actions: &Vec<CustomAction>, chord: &Vec<char>) -> (res: CustomActionMatch)
    ensures
        res == custom_action_match(shortcuts(actions@), chord@),
{
    let ghost sc = shortcuts(actions@);
    let mut i: usize = 0;
    while i < actions.len()
        invariant
            i <= actions@.len(),
            sc == shortcuts(actions@),
            forall|j: int| 0 <= j < i ==> !chord_completes(#[trigger] sc[j], chord@),
        decreases actions.len() - i,
    {
        let s = chars_of(actions[i].shortcut.as_str());
        if completes(&s, chord) {
            proof {
                let w = choose|w: usize|
                    0 <= w < sc.len() && chord_completes(sc[w as int], chord@) && forall|j: int|
                        0 <= j < w ==> !chord_completes(#[trigger] sc[j], chord@);
                assert(chord_completes(sc[i as int], chord@));
                if w < i {
                    assert(!chord_completes(sc[w as int], chord@));
                }
                if w > i {
                    assert(!chord_completes(sc[i as int], chord@));
                }
            }
            return CustomActionMatch::Run(i);
        }
        i += 1;
    }
    let mut k: usize = 0;
    while k < actions.len()
        invariant
            k <= actions@.len(),
            sc == shortcuts(actions@),
            forall|j: int| 0 <= j < actions@.len() ==> !chord_completes(#[trigger] sc[j], chord@),
            forall|j: int| 0 <= j < k ==> !chord_agrees(#[trigger] sc[j], chord@),
        decreases actions.len() - k,
    {
        let s = chars_of(actions[k].shortcut.as_str());
        if agrees(&s, chord) {
            assert(chord_agrees(sc[k as int], chord@));
            return CustomActionMatch::Wait;
        }
        k += 1;
    }
    CustomActionMatch::NoMatch
}

/// What the escape key does to the chord typed so far: an empty chord quits, else the chord
/// is cleared.
pub fn on_cancel(chord: &mut Vec<char>) -> (quit: bool)
    ensures
        quit == (old(chord)@.len() == 0),
        final(chord)@.len() == 0,
{
    if chord.len() == 0 {
        return true;
    }
    chord.clear();
    false
}


/// The number of lines of the help screen's table.
pub const HELP_LINES: usize = 35;

/// A line of the help screen's table: a shortcut and the action it runs, or a blank line
/// (an empty shortcut and no action) between groups.
pub open spec fn help_line(i: int) -> (Seq<char>, Option<ActionKind>) {
    if i == 0 {
        ("h"@, Some(ActionKind::Help))
    } else if i == 1 {
        ("q"@, Some(ActionKind::Quit))
    } else if i == 2 {
        (""@, None)
    } else if i == 3 {
        ("s"@, Some(ActionKind::Status))
    } else if i == 4 {
        ("ll"@, Some(ActionKind::Log))
    } else if i == 5 {
        ("lc"@, Some(ActionKind::LogCount))
    } else if i == 6 {
        ("ee"@, Some(ActionKind::CurrentFullRevision))
    } else if i == 7 {
        ("dd"@, Some(ActionKind::CurrentDiffAll))
    } else if i == 8 {
        ("ds"@, Some(ActionKind::CurrentDiffSelected))
    } else if i == 9 {
        ("DC"@, Some(ActionKind::RevisionChanges))
    } else if i == 10 {
        ("DD"@, Some(ActionKind::RevisionDiffAll))
    } else if i == 11 {
        ("DS"@, Some(ActionKind::RevisionDiffSelected))
    } else if i == 12 {
        (""@, None)
    } else if i == 13 {
        ("cc"@, Some(ActionKind::CommitAll))
    } else if i == 14 {
        ("cs"@, Some(ActionKind::CommitSelected))
    } else if i == 15 {
        ("u"@, Some(ActionKind::Update))
    } else if i == 16 {
        ("m"@, Some(ActionKind::Merge))
    } else if i == 17 {
        ("RA"@, Some(ActionKind::RevertAll))
    } else if i == 18 {
        ("rs"@, Some(ActionKind::RevertSelected))
    } else if i == 19 {
        (""@, None)
    } else if i == 20 {
        ("rr"@, Some(ActionKind::UnresolvedConflicts))
    } else if i == 21 {
        ("ro"@, Some(ActionKind::MergeTakingOther))
    } else if i == 22 {
        ("rl"@, Some(ActionKind::MergeTakingLocal))
    } else if i == 23 {
        (""@, None)
    } else if i == 24 {
        ("f"@, Some(ActionKind::Fetch))
    } else if i == 25 {
        ("p"@, Some(ActionKind::Pull))
    } else if i == 26 {
        ("P"@, Some(ActionKind::Push))
    } else if i == 27 {
        (""@, None)
    } else if i == 28 {
        ("tn"@, Some(ActionKind::NewTag))
    } else if i == 29 {
        (""@, None)
    } else if i == 30 {
        ("bb"@, Some(ActionKind::ListBranches))
    } else if i == 31 {
        ("bn"@, Some(ActionKind::NewBranch))
    } else if i == 32 {
        ("bd"@, Some(ActionKind::DeleteBranch))
    } else if i == 33 {
        (""@, None)
    } else {
        ("x"@, Some(ActionKind::CustomAction))
    }
}

/// The line `i` of the help screen's table.
pub fn help_line_at(i: usize) -> (res: (&'static str, Option<ActionKind>))
    requires
        i < HELP_LINES,
    ensures
        res.0@ == help_line(i as int).0,
        res.1 == help_line(i as int).1,
{
    if i == 0 {
        ("h", Some(ActionKind::Help))
    } else if i == 1 {
        ("q", Some(ActionKind::Quit))
    } else if i == 2 {
        ("", None)
    } else if i == 3 {
        ("s", Some(ActionKind::Status))
    } else if i == 4 {
        ("ll", Some(ActionKind::Log))
    } else if i == 5 {
        ("lc", Some(ActionKind::LogCount))
    } else if i == 6 {
        ("ee", Some(ActionKind::CurrentFullRevision))
    } else if i == 7 {
        ("dd", Some(ActionKind::CurrentDiffAll))
    } else if i == 8 {
        ("ds", Some(ActionKind::CurrentDiffSelected))
    } else if i == 9 {
        ("DC", Some(ActionKind::RevisionChanges))
    } else if i == 10 {
        ("DD", Some(ActionKind::RevisionDiffAll))
    } else if i == 11 {
        ("DS", Some(ActionKind::RevisionDiffSelected))
    } else if i == 12 {
        ("", None)
    } else if i == 13 {
        ("cc", Some(ActionKind::CommitAll))
    } else if i == 14 {
        ("cs", Some(ActionKind::CommitSelected))
    } else if i == 15 {
        ("u", Some(ActionKind::Update))
    } else if i == 16 {
        ("m", Some(ActionKind::Merge))
    } else if i == 17 {
        ("RA", Some(ActionKind::RevertAll))
    } else if i == 18 {
        ("rs", Some(ActionKind::RevertSelected))
    } else if i == 19 {
        ("", None)
    } else if i == 20 {
        ("rr", Some(ActionKind::UnresolvedConflicts))
    } else if i == 21 {
        ("ro", Some(ActionKind::MergeTakingOther))
    } else if i == 22 {
        ("rl", Some(ActionKind::MergeTakingLocal))
    } else if i == 23 {
        ("", None)
    } else if i == 24 {
        ("f", Some(ActionKind::Fetch))
    } else if i == 25 {
        ("p", Some(ActionKind::Pull))
    } else if i == 26 {
        ("P", Some(ActionKind::Push))
    } else if i == 27 {
        ("", None)
    } else if i == 28 {
        ("tn", Some(ActionKind::NewTag))
    } else if i == 29 {
        ("", None)
    } else if i == 30 {
        ("bb", Some(ActionKind::ListBranches))
    } else if i == 31 {
        ("bn", Some(ActionKind::NewBranch))
    } else if i == 32 {
        ("bd", Some(ActionKind::DeleteBranch))
    } else if i == 33 {
        ("", None)
    } else {
        ("x", Some(ActionKind::CustomAction))
    }
}

/// The header a finished action is shown under: waiting while one of its kind still runs,
/// then succeeded or failed after its result.
pub fn result_header_kind(pending: bool, success: bool) -> (res: HeaderKind)
    ensures
        res == (if pending {
            HeaderKind::Waiting
        } else if success {
            HeaderKind::Succeeded
        } else {
            HeaderKind::Error
        }),
{
    if pending {
        HeaderKind::Waiting
    } else if success {
        HeaderKind::Succeeded
    } else {
        HeaderKind::Error
    }
}


/// Every shortcut the help screen lists does what it says: typed as a chord, it runs the
/// action beside it, and `q` quits.
pub proof fn lemma_help_shortcuts_run_their_actions(i: int)
    requires
        0 <= i < HELP_LINES,
        help_line(i).1 is Some,
    ensures
        help_line(i).1 == Some(ActionKind::Quit) ==> chord_outcome(help_line(i).0) == (HandleChordResult::Quit, None::<ActionKind>),
        help_line(i).1 != Some(ActionKind::Quit) ==> chord_outcome(help_line(i).0) == (HandleChordResult::Handled, help_line(i).1),
{
    if i == 0 {
        reveal_strlit("h");
        assert(help_line(i).0 =~= seq!['h']);
    }
    if i == 1 {
        reveal_strlit("q");
        assert(help_line(i).0 =~= seq!['q']);
    }
    if i == 3 {
        reveal_strlit("s");
        assert(help_line(i).0 =~= seq!['s']);
    }
    if i == 4 {
        reveal_strlit("ll");
        assert(help_line(i).0 =~= seq!['l', 'l']);
    }
    if i == 5 {
        reveal_strlit("lc");
        assert(help_line(i).0 =~= seq!['l', 'c']);
    }
    if i == 6 {
        reveal_strlit("ee");
        assert(help_line(i).0 =~= seq!['e', 'e']);
    }
    if i == 7 {
        reveal_strlit("dd");
        assert(help_line(i).0 =~= seq!['d', 'd']);
    }
    if i == 8 {
        reveal_strlit("ds");
        assert(help_line(i).0 =~= seq!['d', 's']);
    }
    if i == 9 {
        reveal_strlit("DC");
        assert(help_line(i).0 =~= seq!['D', 'C']);
    }
    if i == 10 {
        reveal_strlit("DD");
        assert(help_line(i).0 =~= seq!['D', 'D']);
    }
    if i == 11 {
        reveal_strlit("DS");
        assert(help_line(i).0 =~= seq!['D', 'S']);
    }
    if i == 13 {
        reveal_strlit("cc");
        assert(help_line(i).0 =~= seq!['c', 'c']);
    }
    if i == 14 {
        reveal_strlit("cs");
        assert(help_line(i).0 =~= seq!['c', 's']);
    }
    if i == 15 {
        reveal_strlit("u");
        assert(help_line(i).0 =~= seq!['u']);
    }
    if i == 16 {
        reveal_strlit("m");
        assert(help_line(i).0 =~= seq!['m']);
    }
    if i == 17 {
        reveal_strlit("RA");
        assert(help_line(i).0 =~= seq!['R', 'A']);
    }
    if i == 18 {
        reveal_strlit("rs");
        assert(help_line(i).0 =~= seq!['r', 's']);
    }
    if i == 20 {
        reveal_strlit("rr");
        assert(help_line(i).0 =~= seq!['r', 'r']);
    }
    if i == 21 {
        reveal_strlit("ro");
        assert(help_line(i).0 =~= seq!['r', 'o']);
    }
    if i == 22 {
        reveal_strlit("rl");
        assert(help_line(i).0 =~= seq!['r', 'l']);
    }
    if i == 24 {
        reveal_strlit("f");
        assert(help_line(i).0 =~= seq!['f']);
    }
    if i == 25 {
        reveal_strlit("p");
        assert(help_line(i).0 =~= seq!['p']);
    }
    if i == 26 {
        reveal_strlit("P");
        assert(help_line(i).0 =~= seq!['P']);
    }
    if i == 28 {
        reveal_strlit("tn");
        assert(help_line(i).0 =~= seq!['t', 'n']);
    }
    if i == 30 {
        reveal_strlit("bb");
        assert(help_line(i).0 =~= seq!['b', 'b']);
    }
    if i == 31 {
        reveal_strlit("bn");
        assert(help_line(i).0 =~= seq!['b', 'n']);
    }
    if i == 32 {
        reveal_strlit("bd");
        assert(help_line(i).0 =~= seq!['b', 'd']);
    }
    if i == 34 {
        reveal_strlit("x");
        assert(help_line(i).0 =~= seq!['x']);
    }
}

/// What the main loop does after a key.
#[derive(PartialEq, Eq, Structural, Clone, Copy, Debug)]
pub enum ShowStep {
    /// Wait for the next key.
    Continue,
    /// Run an action, then wait for the next key.
    Run(ActionKind),
    /// Leave the program.
    Quit,
}

/// Whether a key cancels: escape, or control and `c`.
pub open spec fn is_cancel_key(key: KeyEvent) -> bool {
    ||| key.code == KeyCode::Esc
    ||| (key.code == KeyCode::Char('c') && key.modifiers.is_control_spec())
}

/// The chord after a key that the view did not take: the key's character joins it, when the
/// key types one.
pub open spec fn extended_chord(chord: Seq<char>, key: KeyEvent) -> Seq<char> {
    match typed_char(key) {
        Some(c) => chord.push(c),
        None => chord,
    }
}

/// One turn of the main loop on a key. A cancel key clears the chord, or quits when no chord
/// was being typed. Any other key goes to the view first; a key that the view does not take
/// extends the chord, and the table of chords decides: an action runs and the chord is
/// cleared, a chord that means nothing is cleared, the start of a longer chord is kept, and
/// `q` quits.
pub fn show_step(view: &mut ScrollView, chord: &mut Vec<char>, key: KeyEvent, size: TerminalSize)
    -> (res: ShowStep)
    requires
        positions_fit(old(view)@),
        size_fits(old(view)@, size),
        scroll_command(key) == ScrollCommand::End && old(view).cursor is Some
            ==> content_height_spec(old(view)@, size.width as int) >= 1,
    ensures
        positions_fit(final(view)@),
        is_cancel_key(key) ==> {
            &&& final(view)@ == old(view)@
            &&& final(chord)@.len() == 0
            &&& res == (if old(chord)@.len() == 0 { ShowStep::Quit } else { ShowStep::Continue })
        },
        !is_cancel_key(key) ==> final(view)@ == updated(old(view)@, key, available(size)).0,
        !is_cancel_key(key) && updated(old(view)@, key, available(size)).1 ==> {
            &&& final(chord)@ == old(chord)@
            &&& res == ShowStep::Continue
        },
        !is_cancel_key(key) && !updated(old(view)@, key, available(size)).1 ==> {
            let typed = extended_chord(old(chord)@, key);
            match chord_outcome(typed) {
                (HandleChordResult::Quit, _) => res == ShowStep::Quit && final(chord)@ == typed,
                (HandleChordResult::Handled, Some(k)) => res == ShowStep::Run(k)
                    && final(chord)@.len() == 0,
                (HandleChordResult::Handled, None) => res == ShowStep::Continue
                    && final(chord)@.len() == 0,
                (HandleChordResult::Unhandled, _) => res == ShowStep::Continue
                    && final(chord)@ == typed,
            }
        },
{
    let cancel = match key.code {
        KeyCode::Esc => true,
        KeyCode::Char(c) => c == 'c' && key.modifiers.is_control(),
        _ => false,
    };
    if cancel {
        if on_cancel(chord) {
            return ShowStep::Quit;
        }
        return ShowStep::Continue;
    }
    if view.update(key, size) {
        return ShowStep::Continue;
    }
    match key_to_char(key) {
        Some(c) => chord.push(c),
        None => {},
    }
    let (outcome, action) = handle_key_chord(chord);
    match outcome {
        HandleChordResult::Quit => ShowStep::Quit,
        HandleChordResult::Handled => {
            chord.clear();
            match action {
                Some(k) => ShowStep::Run(k),
                None => ShowStep::Continue,
            }
        },
        HandleChordResult::Unhandled => ShowStep::Continue,
    }
}

/// The number of logs to show, read from what the user typed, trimmed; anything that is not a
/// number gives the error the screen shows, with the input as typed.
pub fn log_count(input: &str) -> (res: Result<usize, String>)
    ensures
        match usize_numeral(trim_spec(input@)) {
            Some(n) => res == Ok::<usize, String>(n as usize),
            None => res matches Err(e) && e@ == "could not parse a number from "@ + input@,
        },
{
    let trimmed = trim(input);
    match parse_usize(trimmed.as_str()) {
        Some(n) => Ok(n),
        None => Err(concat("could not parse a number from ", input)),
    }
}

/// The arguments of a command, each after a space.
pub open spec fn args_text(args: Seq<Seq<char>>) -> Seq<char>
    decreases args.len(),
{
    if args.len() == 0 {
        Seq::empty()
    } else {
        args_text(args.drop_last()) + seq![' '] + args.last()
    }
}

/// How the list of custom actions shows one: its keys, and then a tab, the program and its
/// arguments.
pub open spec fn custom_action_entry(action: CustomAction) -> (Seq<char>, Seq<char>) {
    (action.shortcut@, seq!['\t'] + action.command@ + args_text(views(action.args@)))
}

/// The list of custom actions that the `x` chord shows, one entry per action in order: the
/// keys, drawn in the entry color, and the rest of the line.
pub fn custom_action_listing(actions: &Vec<CustomAction>) -> (res: Vec<(String, String)>)
    ensures
        res@.len() == actions@.len(),
        forall|k: int|
            0 <= k < actions@.len() ==> ((#[trigger] res@[k]).0@, res@[k].1@)
                == custom_action_entry(actions@[k]),
{
    let mut res: Vec<(String, String)> = Vec::new();
    let mut k: usize = 0;
    while k < actions.len()
        invariant
            k <= actions@.len(),
            res@.len() == k,
            forall|j: int|
                0 <= j < k ==> ((#[trigger] res@[j]).0@, res@[j].1@) == custom_action_entry(
                    actions@[j],
                ),
        decreases actions.len() - k,
    {
        let action = &actions[k];
        let mut rest = concat("\t", action.command.as_str());
        let mut i: usize = 0;
        proof {
            reveal_strlit("\t");
            assert(views(action.args@).take(0) =~= Seq::<Seq<char>>::empty());
        }
        while i < action.args.len()
            invariant
                i <= action.args@.len(),
                rest@ == seq!['\t'] + action.command@ + args_text(views(action.args@).take(i as int)),
            decreases action.args.len() - i,
        {
            proof {
                reveal_strlit(" ");
            }
            let with_space = concat(rest.as_str(), " ");
            rest = concat(with_space.as_str(), action.args[i].as_str());
            assert(views(action.args@).take(i + 1).drop_last() =~= views(action.args@).take(
                i as int,
            ));
            i += 1;
        }
        assert(views(action.args@).take(action.args@.len() as int) =~= views(action.args@));
        res.push((action.shortcut.clone(), rest));
        k += 1;
    }
    res
}

/// What an action asks the user to type before it runs, if anything.
pub open spec fn prompt_of(kind: ActionKind) -> Option<Seq<char>> {
    match kind {
        ActionKind::LogCount => Some("logs to show (ctrl+c to cancel)"@),
        ActionKind::RevisionChanges => Some("show changes from (ctrl+c to cancel)"@),
        ActionKind::RevisionDiffAll => Some("show diff from (ctrl+c to cancel)"@),
        ActionKind::RevisionDiffSelected => Some("show diff from (ctrl+c to cancel)"@),
        ActionKind::CommitAll => Some("commit message (ctrl+c to cancel)"@),
        ActionKind::CommitSelected => Some("commit message (ctrl+c to cancel)"@),
        ActionKind::Update => Some("update to (ctrl+c to cancel)"@),
        ActionKind::Merge => Some("merge with (ctrl+c to cancel)"@),
        ActionKind::NewTag => Some("new tag name (ctrl+c to cancel)"@),
        ActionKind::NewBranch => Some("new branch name (ctrl+c to cancel)"@),
        ActionKind::DeleteBranch => Some("branch to delete (ctrl+c to cancel)"@),
        _ => None,
    }
}

/// The question an action asks before it runs: a revision, a message, a name or a count.
pub fn input_prompt(kind: ActionKind) -> (res: Option<&'static str>)
    ensures
        match res {
            Some(p) => prompt_of(kind) == Some(p@),
            None => prompt_of(kind) is None,
        },
{
    match kind {
        ActionKind::LogCount => Some("logs to show (ctrl+c to cancel)"),
        ActionKind::RevisionChanges => Some("show changes from (ctrl+c to cancel)"),
        ActionKind::RevisionDiffAll => Some("show diff from (ctrl+c to cancel)"),
        ActionKind::RevisionDiffSelected => Some("show diff from (ctrl+c to cancel)"),
        ActionKind::CommitAll => Some("commit message (ctrl+c to cancel)"),
        ActionKind::CommitSelected => Some("commit message (ctrl+c to cancel)"),
        ActionKind::Update => Some("update to (ctrl+c to cancel)"),
        ActionKind::Merge => Some("merge with (ctrl+c to cancel)"),
        ActionKind::NewTag => Some("new tag name (ctrl+c to cancel)"),
        ActionKind::NewBranch => Some("new branch name (ctrl+c to cancel)"),
        ActionKind::DeleteBranch => Some("branch to delete (ctrl+c to cancel)"),
        _ => None,
    }
}

/// Whether an action first has the user select files: the diffs, the commit and the revert
/// of selected files.
pub open spec fn selects_files(kind: ActionKind) -> bool {
    ||| kind == ActionKind::CurrentDiffSelected
    ||| kind == ActionKind::RevisionDiffSelected
    ||| kind == ActionKind::CommitSelected
    ||| kind == ActionKind::RevertSelected
}

/// Whether an action first has the user select files.
pub fn asks_selection(kind: ActionKind) -> (res: bool)
    ensures
        res == selects_files(kind),
{
    match kind {
        ActionKind::CurrentDiffSelected | ActionKind::RevisionDiffSelected
        | ActionKind::CommitSelected | ActionKind::RevertSelected => true,
        _ => false,
    }
}

} // verus!
