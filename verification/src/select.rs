use vstd::prelude::*;

use crate::input::{key_to_char, typed_char, KeyCode, KeyEvent};
use crate::scroll_view::max_rows;
use crate::text::{chars_of, string_of};
use crate::tui_util::{fuzzy_matches, move_cursor, moved_cursor, scrolled_to, subsequence, AvailableSize};

verus! {

/// The state of a file in the working copy.
#[derive(PartialEq, Eq, Structural, Clone, Copy, Debug)]
pub enum State {
    Untracked,
    Unmodified,
    Modified,
    Added,
    Deleted,
    Renamed,
    Copied,
    Unmerged,
    Missing,
    Ignored,
    Clean,
}

/// A color given by its red, green and blue parts.
#[derive(PartialEq, Eq, Structural, Clone, Copy, Debug)]
pub struct Rgb {
    pub r: u8,
    pub g: u8,
    pub b: u8,
}

/// The color a state is drawn in.
pub open spec fn state_color(state: State) -> Rgb {
    match state {
        State::Untracked => Rgb { r: 100, g: 180, b: 255 },
        State::Unmodified => Rgb { r: 255, g: 255, b: 255 },
        State::Modified => Rgb { r: 255, g: 200, b: 0 },
        State::Added => Rgb { r: 0, g: 255, b: 0 },
        State::Deleted => Rgb { r: 255, g: 0, b: 0 },
        State::Renamed => Rgb { r: 100, g: 100, b: 255 },
        State::Copied => Rgb { r: 255, g: 0, b: 255 },
        State::Unmerged => Rgb { r: 255, g: 180, b: 100 },
        State::Missing => Rgb { r: 255, g: 0, b: 0 },
        State::Ignored => Rgb { r: 255, g: 180, b: 0 },
        State::Clean => Rgb { r: 100, g: 180, b: 255 },
    }
}

/// The name a state is shown by.
pub open spec fn state_name(state: State) -> Seq<char> {
    match state {
        State::Untracked => "Untracked"@,
        State::Unmodified => "Unmodified"@,
        State::Modified => "Modified"@,
        State::Added => "Added"@,
        State::Deleted => "Deleted"@,
        State::Renamed => "Renamed"@,
        State::Copied => "Copied"@,
        State::Unmerged => "Unmerged"@,
        State::Missing => "Missing"@,
        State::Ignored => "Ignored"@,
        State::Clean => "Clean"@,
    }
}

impl State {
    /// The color the state is drawn in.
    pub fn color(&self) -> (res: Rgb)
        ensures
            res == state_color(*self),
    {
        match self {
            State::Untracked => Rgb { r: 100, g: 180, b: 255 },
            State::Unmodified => Rgb { r: 255, g: 255, b: 255 },
            State::Modified => Rgb { r: 255, g: 200, b: 0 },
            State::Added => Rgb { r: 0, g: 255, b: 0 },
            State::Deleted => Rgb { r: 255, g: 0, b: 0 },
            State::Renamed => Rgb { r: 100, g: 100, b: 255 },
            State::Copied => Rgb { r: 255, g: 0, b: 255 },
            State::Unmerged => Rgb { r: 255, g: 180, b: 100 },
            State::Missing => Rgb { r: 255, g: 0, b: 0 },
            State::Ignored => Rgb { r: 255, g: 180, b: 0 },
            State::Clean => Rgb { r: 100, g: 180, b: 255 },
        }
    }

    /// The name the state is shown by.
    pub fn name(&self) -> (res: &'static str)
        ensures
            res@ == state_name(*self),
    {
        match self {
            State::Untracked => "Untracked",
            State::Unmodified => "Unmodified",
            State::Modified => "Modified",
            State::Added => "Added",
            State::Deleted => "Deleted",
            State::Renamed => "Renamed",
            State::Copied => "Copied",
            State::Unmerged => "Unmerged",
            State::Missing => "Missing",
            State::Ignored => "Ignored",
            State::Clean => "Clean",
        }
    }
}

/// A file to pick, with its state and whether it is picked.
#[derive(Clone)]
pub struct Entry {
    pub filename: String,
    pub selected: bool,
    pub state: State,
}

/// The file names of `entries`.
pub open spec fn entry_names(entries: Seq<Entry>) -> Seq<Seq<char>> {
    entries.map_values(|e: Entry| e.filename@)
}

/// Which entries are picked.
pub open spec fn entry_flags(entries: Seq<Entry>) -> Seq<bool> {
    entries.map_values(|e: Entry| e.selected)
}

/// The states of `entries`.
pub open spec fn entry_states(entries: Seq<Entry>) -> Seq<State> {
    entries.map_values(|e: Entry| e.state)
}

/// The positions of the names that match the filter, in order.
pub open spec fn matching(names: Seq<Seq<char>>, filter: Seq<char>) -> Seq<int>
    decreases names.len(),
{
    if names.len() == 0 {
        seq![]
    } else {
        let rest = matching(names.drop_last(), filter);
        if subsequence(filter, names.last()) {
            rest.push(names.len() - 1)
        } else {
            rest
        }
    }
}

/// The state of a picker, as values.
pub struct PickState {
    pub names: Seq<Seq<char>>,
    pub flags: Seq<bool>,
    pub scroll: int,
    pub cursor: int,
    pub filter: Seq<char>,
}

/// The positions of the entries shown: those whose names match the filter.
pub open spec fn shown(s: PickState) -> Seq<int> {
    matching(s.names, s.filter)
}

/// The flags with those of the shown entries set to `v`.
pub open spec fn set_shown(s: PickState, v: bool) -> Seq<bool> {
    Seq::new(s.flags.len(), |i: int| if shown(s).contains(i) { v } else { s.flags[i] })
}

/// The flags with that of the shown entry under the cursor flipped, when there is one.
pub open spec fn toggled(s: PickState) -> Seq<bool> {
    if 0 <= s.cursor < shown(s).len() {
        let i = shown(s)[s.cursor];
        s.flags.update(i, !s.flags[i])
    } else {
        s.flags
    }
}

/// The flags when the picker is confirmed: if nothing is picked, the shown entry under the
/// cursor is, when there is one.
pub open spec fn confirmed(s: PickState) -> Seq<bool> {
    if s.flags.contains(true) {
        s.flags
    } else if 0 <= s.cursor < shown(s).len() {
        s.flags.update(shown(s)[s.cursor], true)
    } else {
        s.flags
    }
}

/// What a key asks of the picker.
#[derive(PartialEq, Eq, Structural, Clone, Copy, Debug)]
pub enum PickCommand {
    Cancel,
    Confirm,
    Down,
    Up,
    PageDown,
    PageUp,
    Home,
    End,
    Toggle,
    ToggleAll,
    DeleteChar,
    ClearFilter,
    Other,
}

/// Which command a key is: the key bindings of the picker, tried in order.
pub open spec fn pick_command(key: KeyEvent) -> PickCommand {
    let ctrl = key.modifiers.is_control_spec();
    match key.code {
        KeyCode::Esc => PickCommand::Cancel,
        KeyCode::Enter => PickCommand::Confirm,
        KeyCode::Down => PickCommand::Down,
        KeyCode::Up => PickCommand::Up,
        KeyCode::PageDown => PickCommand::PageDown,
        KeyCode::PageUp => PickCommand::PageUp,
        KeyCode::Home => PickCommand::Home,
        KeyCode::End => PickCommand::End,
        KeyCode::Backspace => PickCommand::DeleteChar,
        KeyCode::Char(c) => if ctrl && (c == 'c' || c == 'q') {
            PickCommand::Cancel
        } else if ctrl && (c == 'j' || c == 'n') {
            PickCommand::Down
        } else if ctrl && (c == 'k' || c == 'p') {
            PickCommand::Up
        } else if ctrl && c == 'd' {
            PickCommand::PageDown
        } else if ctrl && c == 'u' {
            PickCommand::PageUp
        } else if ctrl && (c == 'g' || c == 'b') {
            PickCommand::Home
        } else if ctrl && c == 'e' {
            PickCommand::End
        } else if c == ' ' {
            PickCommand::Toggle
        } else if ctrl && c == 'a' {
            PickCommand::ToggleAll
        } else if ctrl && c == 'h' {
            PickCommand::DeleteChar
        } else if ctrl && c == 'w' {
            PickCommand::ClearFilter
        } else {
            PickCommand::Other
        },
        _ => PickCommand::Other,
    }
}

/// The picker with the cursor moved by `delta` over the shown entries.
pub open spec fn moved(s: PickState, size: AvailableSize, delta: int) -> PickState {
    let n = shown(s).len() as int;
    if n == 0 {
        PickState { scroll: 0, cursor: 0, ..s }
    } else {
        let c = moved_cursor(s.cursor, n, delta);
        PickState { scroll: scrolled_to(s.scroll, c, size.height as int), cursor: c, ..s }
    }
}

/// The picker after its filter changed: back to the top.
pub open spec fn refiltered(s: PickState, filter: Seq<char>) -> PickState {
    PickState { filter, scroll: 0, cursor: 0, ..s }
}

/// The picker after a key, and whether picking is over.
pub open spec fn picked(s: PickState, key: KeyEvent, size: AvailableSize) -> (PickState, bool) {
    let n = shown(s).len() as int;
    let half = (if n < size.height {
        n
    } else {
        size.height as int
    }) / 2;
    match pick_command(key) {
        PickCommand::Cancel => if s.filter.len() > 0 {
            (refiltered(s, seq![]), false)
        } else {
            (PickState { flags: set_shown(s, false), ..s }, true)
        },
        PickCommand::Confirm => (PickState { flags: confirmed(s), ..s }, true),
        PickCommand::Down => (moved(s, size, 1), false),
        PickCommand::Up => (moved(s, size, -1), false),
        PickCommand::PageDown => (moved(s, size, half), false),
        PickCommand::PageUp => (moved(s, size, -half), false),
        PickCommand::Home => (PickState { scroll: 0, cursor: 0, ..s }, false),
        PickCommand::End => {
            let last = n - size.height;
            (PickState { scroll: if last > 0 {
                last
            } else {
                0
            }, cursor: n - 1, ..s }, false)
        },
        PickCommand::Toggle => (PickState { flags: toggled(s), ..s }, false),
        PickCommand::ToggleAll => {
            let all = forall|k: int| 0 <= k < n ==> #[trigger] s.flags[shown(s)[k]];
            (PickState { flags: set_shown(s, !all), ..s }, false)
        },
        PickCommand::DeleteChar => (
            refiltered(s, if s.filter.len() > 0 {
                s.filter.drop_last()
            } else {
                s.filter
            }),
            false,
        ),
        PickCommand::ClearFilter => (refiltered(s, seq![]), false),
        PickCommand::Other => match typed_char(key) {
            Some(c) => (refiltered(s, s.filter.push(c)), false),
            None => (s, false),
        },
    }
}

/// Confirming ends picking and keeps every pick; when nothing was picked and an entry is
/// under the cursor, that entry is picked, so the picked entries are never none while one is
/// shown. Nothing else changes.
pub proof fn lemma_confirm_picks_the_cursor(s: PickState, key: KeyEvent, size: AvailableSize)
    requires
        pick_fits(s),
        pick_command(key) == PickCommand::Confirm,
    ensures
        picked(s, key, size).1,
        picked(s, key, size).0.flags.len() == s.flags.len(),
        picked(s, key, size).0.names == s.names && picked(s, key, size).0.filter == s.filter
            && picked(s, key, size).0.cursor == s.cursor && picked(s, key, size).0.scroll == s.scroll,
        forall|i: int| 0 <= i < s.flags.len() && s.flags[i] ==> #[trigger] picked(s, key, size).0.flags[i],
        (exists|i: int| 0 <= i < s.flags.len() && s.flags[i]) ==> picked(s, key, size).0.flags == s.flags,
        (forall|i: int| 0 <= i < s.flags.len() ==> !s.flags[i]) && 0 <= s.cursor < shown(s).len() ==> {
            &&& picked(s, key, size).0.flags[shown(s)[s.cursor]]
            &&& forall|i: int|
                0 <= i < s.flags.len() && i != shown(s)[s.cursor] ==> !(#[trigger] picked(s, key, size).0.flags[i])
        },
{
    lemma_matching_bounds(s.names, s.filter);
    if exists|i: int| 0 <= i < s.flags.len() && s.flags[i] {
        let i = choose|i: int| 0 <= i < s.flags.len() && s.flags[i];
        assert(s.flags.contains(true));
    } else {
        assert(!s.flags.contains(true));
    }
}

/// A picker over entries: the user moves a cursor over the entries whose names match a
/// filter, picks some of them and confirms or cancels.
pub struct Select {
    pub entries: Vec<Entry>,
    pub scroll: usize,
    pub cursor: usize,
    pub filter: Vec<char>,
}

impl View for Select {
    type V = PickState;

    open spec fn view(&self) -> PickState {
        PickState {
            names: entry_names(self.entries@),
            flags: entry_flags(self.entries@),
            scroll: self.scroll as int,
            cursor: self.cursor as int,
            filter: self.filter@,
        }
    }
}

/// Whether the picker's positions are in the range it handles.
pub open spec fn pick_fits(s: PickState) -> bool {
    &&& s.names.len() == s.flags.len()
    &&& s.names.len() <= max_rows()
    &&& 0 <= s.scroll <= max_rows()
    &&& 0 <= s.cursor <= max_rows()
}

pub proof fn lemma_matching_bounds(names: Seq<Seq<char>>, filter: Seq<char>)
    ensures
        matching(names, filter).len() <= names.len(),
        forall|k: int| 0 <= k < matching(names, filter).len() ==> 0 <= #[trigger] matching(names, filter)[k] < names.len(),
        forall|k: int, l: int| 0 <= k < l < matching(names, filter).len() ==> matching(names, filter)[k] < matching(names, filter)[l],
        forall|i: int| 0 <= i < names.len() ==> (matching(names, filter).contains(i) <==> subsequence(filter, #[trigger] names[i])),
    decreases names.len(),
{
    if names.len() > 0 {
        let rest = names.drop_last();
        lemma_matching_bounds(rest, filter);
        let m = matching(names, filter);
        let r = matching(rest, filter);
        assert forall|i: int| 0 <= i < names.len() implies (m.contains(i) <==> subsequence(filter, #[trigger] names[i])) by {
            if i < names.len() - 1 {
                assert(rest[i] == names[i]);
                if m.contains(i) {
                    let k = choose|k: int| 0 <= k < m.len() && m[k] == i;
                    if k < r.len() {
                        assert(r[k] == i);
                    }
                }
                if r.contains(i) {
                    let k = choose|k: int| 0 <= k < r.len() && r[k] == i;
                    assert(m[k] == i);
                }
            } else {
                if subsequence(filter, names.last()) {
                    assert(m[m.len() - 1] == i);
                } else {
                    if m.contains(i) {
                        let k = choose|k: int| 0 <= k < m.len() && m[k] == i;
                        assert(r[k] == i);
                    }
                }
            }
        }
    }
}

impl Select {
    /// A picker over `entries` with the cursor on the first, or none when there are no
    /// entries.
    pub fn new(entries: Vec<Entry>) -> (res: Option<Select>)
        ensures
            entries.len() == 0 ==> res is None,
            entries.len() > 0 ==> (res matches Some(s) && s.entries@ == entries@ && s.scroll == 0
                && s.cursor == 0 && s.filter@ == Seq::<char>::empty()),
    {
        if entries.len() == 0 {
            None
        } else {
            Some(Select { entries, scroll: 0, cursor: 0, filter: Vec::new() })
        }
    }

    /// The positions of the entries whose names match the filter.
    pub fn filtered_entries(&self) -> (res: Vec<usize>)
        ensures
            res@.map_values(|i: usize| i as int) == shown(self@),
    {
        let mut res: Vec<usize> = Vec::new();
        let mut i: usize = 0;
        let ghost names = entry_names(self.entries@);
        assert(names.take(0) == Seq::<Seq<char>>::empty());
        while i < self.entries.len()
            invariant
                i <= self.entries.len(),
                names == entry_names(self.entries@),
                res@.map_values(|i: usize| i as int) == matching(names.take(i as int), self.filter@),
            decreases self.entries.len() - i,
        {
            let ghost before = res@;
            assert(names.take(i as int + 1).drop_last() == names.take(i as int));
            assert(names.take(i as int + 1).last() == self.entries[i as int].filename@);
            if fuzzy_matches(self.entries[i].filename.as_str(), self.filter.as_slice()) {
                res.push(i);
                assert(res@.map_values(|i: usize| i as int) == before.map_values(|i: usize| i as int).push(i as int));
            }
            i = i + 1;
        }
        assert(names.take(self.entries.len() as int) == names);
        res
    }

    /// Whether any entry is picked.
    pub fn any_selected(&self) -> (res: bool)
        ensures
            res == self@.flags.contains(true),
    {
        let mut i: usize = 0;
        while i < self.entries.len()
            invariant
                i <= self.entries.len(),
                forall|k: int| 0 <= k < i ==> !(#[trigger] self.entries@[k]).selected,
            decreases self.entries.len() - i,
        {
            if self.entries[i].selected {
                assert(self@.flags[i as int]);
                return true;
            }
            i = i + 1;
        }
        assert forall|k: int| 0 <= k < self@.flags.len() implies !#[trigger] self@.flags[k] by {
            assert(!self.entries@[k].selected);
        }
        false
    }

    /// Sets the pick of the entry at `i`.
    fn set_selected(&mut self, i: usize, v: bool)
        requires
            i < old(self).entries.len(),
        ensures
            final(self)@ == (PickState { flags: old(self)@.flags.update(i as int, v), ..old(self)@ }),
            entry_states(final(self).entries@) == entry_states(old(self).entries@),
    {
        let e = Entry {
            filename: self.entries[i].filename.clone(),
            selected: v,
            state: self.entries[i].state,
        };
        self.entries.set(i, e);
        assert(entry_names(self.entries@) == entry_names(old(self).entries@));
        assert(entry_flags(self.entries@) == entry_flags(old(self).entries@).update(i as int, v));
        assert(entry_states(self.entries@) == entry_states(old(self).entries@));
    }

    /// Sets the pick of every shown entry to `v`.
    fn set_all_shown(&mut self, v: bool)
        requires
            pick_fits(old(self)@),
        ensures
            final(self)@ == (PickState { flags: set_shown(old(self)@, v), ..old(self)@ }),
            entry_states(final(self).entries@) == entry_states(old(self).entries@),
    {
        let idx = self.filtered_entries();
        let ghost s0 = self@;
        let ghost m = shown(s0);
        proof {
            lemma_matching_bounds(s0.names, s0.filter);
        }
        let mut k: usize = 0;
        while k < idx.len()
            invariant
                k <= idx.len(),
                idx@.map_values(|i: usize| i as int) == m,
                m == shown(s0),
                m.len() <= s0.names.len(),
                forall|j: int| 0 <= j < m.len() ==> 0 <= #[trigger] m[j] < s0.names.len(),
                forall|j: int, l: int| 0 <= j < l < m.len() ==> m[j] < m[l],
                self@.names == s0.names,
                self@.filter == s0.filter,
                self@.scroll == s0.scroll,
                self@.cursor == s0.cursor,
                self@.flags.len() == s0.flags.len(),
                s0.names.len() == s0.flags.len(),
                forall|i: int| 0 <= i < s0.flags.len() ==> #[trigger] self@.flags[i] == if m.take(k as int).contains(i) {
                    v
                } else {
                    s0.flags[i]
                },
                entry_states(self.entries@) == entry_states(old(self).entries@),
            decreases idx.len() - k,
        {
            let i = idx[k];
            assert(m[k as int] == i as int);
            self.set_selected(i, v);
            assert forall|j: int| 0 <= j < s0.flags.len() implies #[trigger] self@.flags[j] == if m.take(k as int + 1).contains(j) {
                v
            } else {
                s0.flags[j]
            } by {
                if m.take(k as int + 1).contains(j) && j != i as int {
                    let q = choose|q: int| 0 <= q < k + 1 && #[trigger] m.take(k as int + 1)[q] == j;
                    assert(m.take(k as int)[q] == j);
                }
                if m.take(k as int).contains(j) {
                    let q = choose|q: int| 0 <= q < k && #[trigger] m.take(k as int)[q] == j;
                    assert(m.take(k as int + 1)[q] == j);
                }
                if j == i as int {
                    assert(m.take(k as int + 1)[k as int] == j);
                }
            }
            k = k + 1;
        }
        assert(m.take(idx.len() as int) == m);
        assert(self@.flags == set_shown(s0, v));
    }

    /// Whether every shown entry is picked.
    fn all_shown_selected(&self) -> (res: bool)
        ensures
            res == (forall|k: int| 0 <= k < shown(self@).len() ==> #[trigger] self@.flags[shown(self@)[k]]),
    {
        let idx = self.filtered_entries();
        let ghost m = shown(self@);
        proof {
            lemma_matching_bounds(self@.names, self@.filter);
        }
        let mut k: usize = 0;
        while k < idx.len()
            invariant
                k <= idx.len(),
                idx@.map_values(|i: usize| i as int) == m,
                m == shown(self@),
                forall|j: int| 0 <= j < m.len() ==> 0 <= #[trigger] m[j] < self@.names.len(),
                self@.names.len() == self.entries.len(),
                forall|j: int| 0 <= j < k ==> #[trigger] self@.flags[m[j]],
            decreases idx.len() - k,
        {
            let i = idx[k];
            assert(m[k as int] == i as int);
            if !self.entries[i].selected {
                assert(!self@.flags[m[k as int]]);
                return false;
            }
            k = k + 1;
        }
        true
    }

    /// Handles a key: moves the cursor, picks entries, edits the filter, or ends the picking
    /// (confirmed or canceled). Returns whether the picking is over.
    pub fn on_key(&mut self, key: KeyEvent, available_size: AvailableSize) -> (done: bool)
        requires
            pick_fits(old(self)@),
            available_size.height <= 0xffff,
            shown(old(self)@).len() > 0 && (pick_command(key) == PickCommand::Down || pick_command(key)
                == PickCommand::Up || pick_command(key) == PickCommand::PageDown || pick_command(key)
                == PickCommand::PageUp) ==> old(self).scroll + available_size.height >= 1,
            pick_command(key) == PickCommand::End ==> shown(old(self)@).len() >= 1,
        ensures
            (final(self)@, done) == picked(old(self)@, key, available_size),
            pick_fits(final(self)@),
            entry_states(final(self).entries@) == entry_states(old(self).entries@),
    {
        proof {
            lemma_matching_bounds(self@.names, self@.filter);
        }
        let command = pick_command_of(key);
        match command {
            PickCommand::Cancel => {
                if self.filter.len() > 0 {
                    self.filter = Vec::new();
                    self.cursor = 0;
                    self.scroll = 0;
                    false
                } else {
                    self.set_all_shown(false);
                    true
                }
            },
            PickCommand::Confirm => {
                if !self.any_selected() {
                    let idx = self.filtered_entries();
                    if self.cursor < idx.len() {
                        let i = idx[self.cursor];
                        assert(shown(self@)[self.cursor as int] == i as int);
                        self.set_selected(i, true);
                    }
                }
                true
            },
            PickCommand::Down | PickCommand::Up | PickCommand::PageDown | PickCommand::PageUp => {
                let count = self.filtered_entries().len();
                let delta: i32 = match command {
                    PickCommand::Down => 1,
                    PickCommand::Up => -1,
                    _ => {
                        let height = if count < available_size.height {
                            count
                        } else {
                            available_size.height
                        };
                        if command == PickCommand::PageDown {
                            height as i32 / 2
                        } else {
                            height as i32 / -2
                        }
                    },
                };
                let mut scroll = self.scroll;
                let mut cursor = self.cursor;
                move_cursor(&mut scroll, &mut cursor, available_size, count, delta);
                self.scroll = scroll;
                self.cursor = cursor;
                false
            },
            PickCommand::Home => {
                self.scroll = 0;
                self.cursor = 0;
                false
            },
            PickCommand::End => {
                let count = self.filtered_entries().len();
                let last = count as i32 - available_size.height as i32;
                self.scroll = if last > 0 {
                    last as usize
                } else {
                    0
                };
                self.cursor = count - 1;
                false
            },
            PickCommand::Toggle => {
                let idx = self.filtered_entries();
                if self.cursor < idx.len() {
                    let i = idx[self.cursor];
                    assert(shown(self@)[self.cursor as int] == i as int);
                    let v = !self.entries[i].selected;
                    self.set_selected(i, v);
                }
                false
            },
            PickCommand::ToggleAll => {
                let all = self.all_shown_selected();
                self.set_all_shown(!all);
                false
            },
            PickCommand::DeleteChar => {
                if self.filter.len() > 0 {
                    let last = self.filter.len() - 1;
                    self.filter.remove(last);
                    assert(self.filter@ == old(self).filter@.drop_last());
                }
                self.cursor = 0;
                self.scroll = 0;
                false
            },
            PickCommand::ClearFilter => {
                self.filter = Vec::new();
                self.cursor = 0;
                self.scroll = 0;
                false
            },
            PickCommand::Other => {
                match key_to_char(key) {
                    Some(c) => {
                        self.filter.push(c);
                        self.cursor = 0;
                        self.scroll = 0;
                    },
                    None => {},
                }
                false
            },
        }
    }
}

/// Which command a key is.
pub fn pick_command_of(key: KeyEvent) -> (res: PickCommand)
    ensures
        res == pick_command(key),
{
    let ctrl = key.modifiers.is_control();
    match key.code {
        KeyCode::Esc => PickCommand::Cancel,
        KeyCode::Enter => PickCommand::Confirm,
        KeyCode::Down => PickCommand::Down,
        KeyCode::Up => PickCommand::Up,
        KeyCode::PageDown => PickCommand::PageDown,
        KeyCode::PageUp => PickCommand::PageUp,
        KeyCode::Home => PickCommand::Home,
        KeyCode::End => PickCommand::End,
        KeyCode::Backspace => PickCommand::DeleteChar,
        KeyCode::Char(c) => if ctrl && (c == 'c' || c == 'q') {
            PickCommand::Cancel
        } else if ctrl && (c == 'j' || c == 'n') {
            PickCommand::Down
        } else if ctrl && (c == 'k' || c == 'p') {
            PickCommand::Up
        } else if ctrl && c == 'd' {
            PickCommand::PageDown
        } else if ctrl && c == 'u' {
            PickCommand::PageUp
        } else if ctrl && (c == 'g' || c == 'b') {
            PickCommand::Home
        } else if ctrl && c == 'e' {
            PickCommand::End
        } else if c == ' ' {
            PickCommand::Toggle
        } else if ctrl && c == 'a' {
            PickCommand::ToggleAll
        } else if ctrl && c == 'h' {
            PickCommand::DeleteChar
        } else if ctrl && c == 'w' {
            PickCommand::ClearFilter
        } else {
            PickCommand::Other
        },
        _ => PickCommand::Other,
    }
}


/// The part of a file name drawn in `max_chars` columns: its last `max_chars` characters, or
/// the whole name when it is no longer than that or `max_chars` is zero.
pub open spec fn name_tail(name: Seq<char>, max_chars: int) -> Seq<char> {
    if max_chars == 0 || max_chars >= name.len() {
        name
    } else {
        name.skip(name.len() - max_chars)
    }
}

/// The part of a file name drawn in `max_chars` columns.
pub fn filename_tail(filename: &str, max_chars: usize) -> (res: String)
    ensures
        res@ == name_tail(filename@, max_chars as int),
{
    let c = chars_of(filename);
    let start = if max_chars == 0 || max_chars >= c.len() {
        0
    } else {
        c.len() - max_chars
    };
    assert(c@.subrange(start as int, c@.len() as int) == name_tail(filename@, max_chars as int));
    string_of(&c, start, c.len())
}

} // verus!
