use vstd::prelude::*;

use crate::select::Rgb;

verus! {

/// The state of a file offered for adding or removing.
#[derive(PartialEq, Eq, Structural, Clone, Copy, Debug)]
pub enum State {
    Untracked,
    Unmodified,
    Modified,
    Added,
    Deleted,
    Renamed,
    Copied,
    Unmerged,
}

/// The color a state is drawn in.
pub open spec fn color_of(state: State) -> Rgb {
    match state {
        State::Untracked => Rgb { r: 100, g: 180, b: 255 },
        State::Unmodified => Rgb { r: 255, g: 255, b: 255 },
        State::Modified => Rgb { r: 255, g: 200, b: 0 },
        State::Added => Rgb { r: 0, g: 255, b: 0 },
        State::Deleted => Rgb { r: 255, g: 0, b: 0 },
        State::Renamed => Rgb { r: 100, g: 100, b: 255 },
        State::Copied => Rgb { r: 255, g: 0, b: 255 },
        State::Unmerged => Rgb { r: 255, g: 180, b: 100 },
    }
}

impl State {
    /// The color the state is drawn in.
    pub fn color(&self) -> (res: Rgb)
        ensures
            res == color_of(*self),
    {
        match self {
            State::Untracked => Rgb { r: 100, g: 180, b: 255 },
            State::Unmodified => Rgb { r: 255, g: 255, b: 255 },
            State::Modified => Rgb { r: 255, g: 200, b: 0 },
            State::Added => Rgb { r: 0, g: 255, b: 0 },
            State::Deleted => Rgb { r: 255, g: 0, b: 0 },
            State::Renamed => Rgb { r: 100, g: 100, b: 255 },
            State::Copied => Rgb { r: 255, g: 0, b: 255 },
            State::Unmerged => Rgb { r: 255, g: 180, b: 100 },
        }
    }
}

/// A file of the selection list.
pub struct Entry {
    pub filename: String,
    pub selected: bool,
    pub state: State,
}

/// The selection flags of a list of entries.
pub open spec fn flags_of(entries: Seq<Entry>) -> Seq<bool> {
    entries.map_values(|e: Entry| e.selected)
}

/// The names of a list of entries.
pub open spec fn names_of(entries: Seq<Entry>) -> Seq<Seq<char>> {
    entries.map_values(|e: Entry| e.filename@)
}

/// The states of a list of entries.
pub open spec fn states_of(entries: Seq<Entry>) -> Seq<State> {
    entries.map_values(|e: Entry| e.state)
}

/// A key read while the selection list is shown.
#[derive(PartialEq, Eq, Structural, Clone, Copy, Debug)]
pub enum SelectionKey {
    Char(char),
    Ctrl(char),
    Other,
}

/// Whether a key ends the selection.
pub open spec fn ends_selection(key: SelectionKey) -> bool {
    key == SelectionKey::Char('\n') || key == SelectionKey::Ctrl('c')
}

/// Whether the list can take the key: moving needs a file to move over, and toggling needs
/// the cursor on a file.
pub open spec fn key_applies(key: SelectionKey, count: nat, cursor: nat) -> bool {
    &&& key == SelectionKey::Char('j') ==> count > 0 && cursor + 1 <= usize::MAX
    &&& key == SelectionKey::Char('k') ==> count > 0 && cursor + count <= usize::MAX
    &&& key == SelectionKey::Char(' ') ==> cursor < count
}

/// The cursor after a key.
pub open spec fn cursor_after(key: SelectionKey, count: nat, cursor: nat) -> nat {
    if key == SelectionKey::Char('j') {
        (cursor + 1) % count
    } else if key == SelectionKey::Char('k') {
        ((cursor + count - 1) as nat) % count
    } else {
        cursor
    }
}

/// The selection flags after a key: the space bar toggles the file under the cursor, and `a`
/// sets every file to the opposite of the first file.
pub open spec fn flags_after(key: SelectionKey, flags: Seq<bool>, cursor: nat) -> Seq<bool> {
    if key == SelectionKey::Char(' ') {
        flags.update(cursor as int, !flags[cursor as int])
    } else if key == SelectionKey::Char('a') && flags.len() > 0 {
        Seq::new(flags.len(), |i: int| !flags[0])
    } else {
        flags
    }
}

/// Handles one key of the selection list: `j` and `k` move the cursor round the list, the
/// space bar toggles the file under the cursor and `a` toggles them all together; enter and
/// control-c end the selection, which the result reports as `false`, leaving the cursor.
pub fn on_selection_key(entries: &mut Vec<Entry>, cursor: &mut usize, key: SelectionKey) -> (res: bool)
    requires
        ends_selection(key) || key_applies(key, old(entries)@.len(), *old(cursor) as nat),
    ensures
        res == !ends_selection(key),
        names_of(final(entries)@) == names_of(old(entries)@),
        states_of(final(entries)@) == states_of(old(entries)@),
        ends_selection(key) ==> final(entries)@ == old(entries)@ && *final(cursor) == *old(cursor),
        !ends_selection(key) ==> flags_of(final(entries)@) == flags_after(key, flags_of(old(entries)@), *old(cursor) as nat)
            && *final(cursor) == cursor_after(key, old(entries)@.len(), *old(cursor) as nat),
{
    if key == SelectionKey::Char('\n') || key == SelectionKey::Ctrl('c') {
        return false;
    }
    let n = entries.len();
    let index = *cursor;
    if key == SelectionKey::Char('j') {
        *cursor = (index + 1) % n;
    } else if key == SelectionKey::Char('k') {
        *cursor = (index + n - 1) % n;
    } else if key == SelectionKey::Char(' ') {
        let e = Entry {
            filename: entries[index].filename.clone(),
            selected: !entries[index].selected,
            state: entries[index].state,
        };
        entries.set(index, e);
        assert(names_of(entries@) =~= names_of(old(entries)@));
        assert(states_of(entries@) =~= states_of(old(entries)@));
        assert(flags_of(entries@) =~= flags_after(key, flags_of(old(entries)@), index as nat));
    } else if key == SelectionKey::Char('a') && n > 0 {
        let v = !entries[0].selected;
        let mut i: usize = 0;
        while i < n
            invariant
                n == entries.len(),
                n == old(entries)@.len(),
                n > 0,
                i <= n,
                v == !old(entries)@[0].selected,
                names_of(entries@) == names_of(old(entries)@),
                states_of(entries@) == states_of(old(entries)@),
                forall|j: int| 0 <= j < i ==> (#[trigger] entries@[j]).selected == v,
                forall|j: int| i <= j < n ==> (#[trigger] entries@[j]).selected == old(entries)@[j].selected,
            decreases n - i,
        {
            let e = Entry { filename: entries[i].filename.clone(), selected: v, state: entries[i].state };
            let ghost before = entries@;
            entries.set(i, e);
            assert(names_of(entries@) =~= names_of(before));
            assert(states_of(entries@) =~= states_of(before));
            i = i + 1;
        }
        assert(flags_of(entries@) =~= flags_after(key, flags_of(old(entries)@), index as nat));
    }
    true
}


/// Toggling the file under the cursor twice leaves every selection as it was.
pub proof fn lemma_toggle_twice(flags: Seq<bool>, cursor: nat)
    requires
        cursor < flags.len(),
    ensures
        flags_after(SelectionKey::Char(' '), flags_after(SelectionKey::Char(' '), flags, cursor), cursor) == flags,
{
    assert(flags_after(SelectionKey::Char(' '), flags_after(SelectionKey::Char(' '), flags, cursor), cursor) =~= flags);
}

/// Moving down and then up brings the cursor back to a file of the list.
pub proof fn lemma_down_then_up(count: nat, cursor: nat)
    requires
        cursor < count,
    ensures
        cursor_after(SelectionKey::Char('k'), count, cursor_after(SelectionKey::Char('j'), count, cursor)) == cursor,
{
    let down = cursor_after(SelectionKey::Char('j'), count, cursor);
    if cursor + 1 < count {
        assert(down == cursor + 1) by {
            vstd::arithmetic::div_mod::lemma_small_mod((cursor + 1) as nat, count);
        }
        assert(((down + count - 1) as nat) % count == cursor) by {
            vstd::arithmetic::div_mod::lemma_mod_add_multiples_vanish(cursor as int, count as int);
            vstd::arithmetic::div_mod::lemma_small_mod(cursor, count);
        }
    } else {
        assert(down == 0) by {
            vstd::arithmetic::div_mod::lemma_mod_self_0(count as int);
        }
        assert(((down + count - 1) as nat) % count == cursor) by {
            vstd::arithmetic::div_mod::lemma_small_mod((count - 1) as nat, count);
        }
    }
}

} // verus!
