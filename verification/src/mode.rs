use vstd::prelude::*;

use crate::backend::{RevisionEntry, TagEntry};
use crate::select::matching;
use crate::tui_util::fuzzy_matches;
use crate::platform::Key;
use crate::text::{chars_of, is_ws, lines, lines_spec, string_of, views};

pub mod log;
pub mod revision_details;
pub mod status;
pub mod tags;

verus! {

/// The screens of the application.
#[derive(Clone, Debug)]
pub enum ModeKind {
    Status,
    Log,
    RevisionDetails(String),
    Branches,
    Tags,
}

/// The screen shown first.
pub fn default_mode() -> (res: ModeKind)
    ensures
        res == ModeKind::Status,
{
    ModeKind::Status
}

/// Whether a mode is taking text input, so that its keys do not switch screens.
#[derive(PartialEq, Eq, Structural, Clone, Copy, Debug)]
pub struct ModeStatus {
    pub pending_input: bool,
}

/// The name a mode shows in the header, and whether it waits for a reply.
#[derive(Clone, Copy, Debug)]
pub struct HeaderInfo {
    pub name: &'static str,
    pub waiting_response: bool,
}

/// The header of a mode: its name and the help shown on the left and on the right.
#[derive(Clone, Copy, Debug)]
pub struct HeaderTexts {
    pub name: &'static str,
    pub left_help: &'static str,
    pub right_help: &'static str,
}

/// The lines above a list that the screen keeps: the header's and one more.
pub open spec fn reserved_lines() -> int {
    3
}

/// The rows a mode has below the header on a viewport of `height` rows.
pub open spec fn available_rows(height: u16) -> int {
    if height >= 3 {
        height - 3
    } else {
        0
    }
}

/// The rows a mode has below the header on a viewport of `height` rows.
pub fn available_height(height: u16) -> (res: usize)
    ensures
        res == available_rows(height),
{
    if height >= 3 {
        (height - 3) as usize
    } else {
        0
    }
}

/// The position a cursor or scroll moves to under a key, over `len` places and `page` rows
/// per half screen: one down or up, to either end, or half a screen; other keys keep it.
pub open spec fn moved_position(pos: int, len: int, page: int, key: Key) -> int {
    let last = if len > 0 {
        len - 1
    } else {
        0
    };
    match key {
        Key::Down | Key::Ctrl('n') | Key::Char('j') => if pos + 1 < last {
            pos + 1
        } else {
            last
        },
        Key::Up | Key::Ctrl('p') | Key::Char('k') => if pos >= 1 {
            pos - 1
        } else {
            0
        },
        Key::Ctrl('h') | Key::Home => 0,
        Key::Ctrl('e') | Key::End => last,
        Key::Ctrl('d') | Key::PageDown => if pos + page < last {
            pos + page
        } else {
            last
        },
        Key::Ctrl('u') | Key::PageUp => if pos >= page {
            pos - page
        } else {
            0
        },
        _ => pos,
    }
}

/// The position a cursor or scroll moves to under a key.
pub fn move_position(pos: usize, len: usize, page: usize, key: Key) -> (res: usize)
    ensures
        res == moved_position(pos as int, len as int, page as int, key),
{
    let last = if len > 0 {
        len - 1
    } else {
        0
    };
    match key {
        Key::Down | Key::Ctrl('n') | Key::Char('j') => if pos < last {
            pos + 1
        } else {
            last
        },
        Key::Up | Key::Ctrl('p') | Key::Char('k') => if pos >= 1 {
            pos - 1
        } else {
            0
        },
        Key::Ctrl('h') | Key::Home => 0,
        Key::Ctrl('e') | Key::End => last,
        Key::Ctrl('d') | Key::PageDown => {
            let p = pos.saturating_add(page);
            if p < last {
                p
            } else {
                last
            }
        },
        Key::Ctrl('u') | Key::PageUp => if pos >= page {
            pos - page
        } else {
            0
        },
        _ => pos,
    }
}

/// A text a mode shows, scrolled by lines.
pub struct Output {
    pub text: String,
    pub scroll: usize,
}

impl Output {
    /// No text.
    pub fn new() -> (res: Output)
        ensures
            res.text@ == Seq::<char>::empty(),
            res.scroll == 0,
    {
        Output { text: String::new(), scroll: 0 }
    }

    /// Shows `text` from its first line.
    pub fn set(&mut self, text: String)
        ensures
            final(self).text@ == text@,
            final(self).scroll == 0,
    {
        self.text = text;
        self.scroll = 0;
    }

    /// The text shown.
    pub fn text(&self) -> (res: &str)
        ensures
            res@ == self.text@,
    {
        self.text.as_str()
    }

    /// How many lines the text has.
    pub fn line_count(&self) -> (res: usize)
        ensures
            res == lines_spec(self.text@).len(),
    {
        let all = lines(self.text.as_str());
        all.len()
    }

    /// Scrolls the text under a key, half a screen of `available_height` rows at a time.
    pub fn on_key(&mut self, available_height: usize, key: Key)
        ensures
            final(self).text@ == old(self).text@,
            final(self).scroll == moved_position(
                old(self).scroll as int,
                lines_spec(old(self).text@).len() as int,
                available_height as int / 2,
                key,
            ),
    {
        let count = self.line_count();
        self.scroll = move_position(self.scroll, count, available_height / 2, key);
    }

    /// The lines from the scroll on.
    pub fn lines_from_scroll(&self) -> (res: Vec<String>)
        ensures
            views(res@) == lines_spec(self.text@).skip(
                if self.scroll <= lines_spec(self.text@).len() { self.scroll as int } else { lines_spec(self.text@).len() as int },
            ),
    {
        let all = lines(self.text.as_str());
        let ghost ls = views(all@);
        let start = if self.scroll <= all.len() {
            self.scroll
        } else {
            all.len()
        };
        let mut res: Vec<String> = Vec::new();
        let mut i = start;
        while i < all.len()
            invariant
                start <= i <= all.len(),
                ls == views(all@),
                views(res@) == ls.subrange(start as int, i as int),
            decreases all.len() - i,
        {
            res.push(all[i].clone());
            assert(ls.subrange(start as int, i as int + 1) == ls.subrange(start as int, i as int).push(all[i as int]@));
            i = i + 1;
        }
        assert(ls.subrange(start as int, all.len() as int) == ls.skip(start as int));
        res
    }
}

/// The text without its last word: trailing whitespace dropped, then the characters up to
/// the previous whitespace.
pub open spec fn without_last_word(s: Seq<char>) -> Seq<char>
    decreases s.len(),
{
    if s.len() == 0 {
        s
    } else if is_ws(s.last()) {
        without_last_word(s.drop_last())
    } else {
        without_word_tail(s)
    }
}

/// The text without its trailing characters that are not whitespace.
pub open spec fn without_word_tail(s: Seq<char>) -> Seq<char>
    decreases s.len(),
{
    if s.len() == 0 || is_ws(s.last()) {
        s
    } else {
        without_word_tail(s.drop_last())
    }
}

/// The text a line editor holds after a key: a typed character is added, backspace removes
/// the last character, control-w the last word and control-u everything.
pub open spec fn edited(s: Seq<char>, key: Key) -> Seq<char> {
    match key {
        Key::Char(c) => s.push(c),
        Key::Backspace => if s.len() > 0 {
            s.drop_last()
        } else {
            s
        },
        Key::Ctrl('w') => without_last_word(s),
        Key::Ctrl('u') => seq![],
        _ => s,
    }
}

/// A line of text the user types.
pub struct ReadLine {
    pub input: String,
}

proof fn lemma_word_tail_prefix(s: Seq<char>)
    ensures
        without_word_tail(s).len() <= s.len(),
        without_word_tail(s) == s.take(without_word_tail(s).len() as int),
    decreases s.len(),
{
    if s.len() > 0 && !is_ws(s.last()) {
        lemma_word_tail_prefix(s.drop_last());
        assert(s.drop_last().take(without_word_tail(s).len() as int) == s.take(without_word_tail(s).len() as int));
    } else {
        assert(s.take(s.len() as int) == s);
    }
}

proof fn lemma_last_word_prefix(s: Seq<char>)
    ensures
        without_last_word(s).len() <= s.len(),
        without_last_word(s) == s.take(without_last_word(s).len() as int),
    decreases s.len(),
{
    if s.len() == 0 {
        assert(s.take(0) == s);
    } else if is_ws(s.last()) {
        lemma_last_word_prefix(s.drop_last());
        assert(s.drop_last().take(without_last_word(s).len() as int) == s.take(without_last_word(s).len() as int));
    } else {
        lemma_word_tail_prefix(s);
    }
}

impl ReadLine {
    /// An empty line.
    pub fn new() -> (res: ReadLine)
        ensures
            res.input@ == Seq::<char>::empty(),
    {
        ReadLine { input: String::new() }
    }

    /// The text typed.
    pub fn input(&self) -> (res: &str)
        ensures
            res@ == self.input@,
    {
        self.input.as_str()
    }

    /// Empties the line.
    pub fn clear(&mut self)
        ensures
            final(self).input@ == Seq::<char>::empty(),
    {
        self.input = String::new();
    }

    /// Edits the line under a key.
    pub fn on_key(&mut self, key: Key)
        ensures
            final(self).input@ == edited(old(self).input@, key),
    {
        let c = chars_of(self.input.as_str());
        let n = match key {
            Key::Char(_) => c.len(),
            Key::Backspace => if c.len() > 0 {
                c.len() - 1
            } else {
                0
            },
            Key::Ctrl('w') => {
                let mut end = c.len();
                assert(c@.take(end as int) == c@);
                while end > 0 && crate::text::is_whitespace(c[end - 1])
                    invariant
                        end <= c.len(),
                        without_last_word(c@) == without_last_word(c@.take(end as int)),
                    decreases end,
                {
                    assert(c@.take(end as int).drop_last() == c@.take(end as int - 1));
                    end = end - 1;
                }
                while end > 0 && !crate::text::is_whitespace(c[end - 1])
                    invariant
                        end <= c.len(),
                        without_last_word(c@) == without_word_tail(c@.take(end as int)),
                    decreases end,
                {
                    assert(c@.take(end as int).drop_last() == c@.take(end as int - 1));
                    end = end - 1;
                }
                end
            },
            Key::Ctrl('u') => 0,
            _ => c.len(),
        };
        proof {
            assert(c@.take(c@.len() as int) == c@);
            assert(c@.take(0) == Seq::<char>::empty());
        }
        let mut kept = string_of(&c, 0, n);
        match key {
            Key::Char(ch) => {
                crate::text::string_push(&mut kept, ch);
            },
            _ => {},
        }
        self.input = kept;
    }
}

/// What a key asks of the entries of a list: nothing, flip the one at a position, or flip
/// them all.
#[derive(PartialEq, Eq, Structural, Clone, Copy, Debug)]
pub enum SelectMenuAction {
    NoAction,
    Toggle(usize),
    ToggleAll,
}

/// The scroll that keeps `cursor` on a screen of `height` rows (a screen has at least one).
pub open spec fn scroll_to_show(scroll: int, cursor: int, height: int) -> int {
    let h = if height >= 1 {
        height
    } else {
        1
    };
    if cursor < scroll {
        cursor
    } else if cursor >= scroll + h {
        cursor + 1 - h
    } else {
        scroll
    }
}

/// A cursor over a list, and the scroll that keeps it on screen.
pub struct SelectMenu {
    pub cursor: usize,
    pub scroll: usize,
}

impl SelectMenu {
    /// The cursor on the first entry.
    pub fn new() -> (res: SelectMenu)
        ensures
            res.cursor == 0,
            res.scroll == 0,
    {
        SelectMenu { cursor: 0, scroll: 0 }
    }

    /// The entry under the cursor.
    pub fn cursor(&self) -> (res: usize)
        ensures
            res == self.cursor,
    {
        self.cursor
    }

    /// The first entry on screen.
    pub fn scroll(&self) -> (res: usize)
        ensures
            res == self.scroll,
    {
        self.scroll
    }

    /// Puts the cursor on `cursor`.
    pub fn set_cursor(&mut self, cursor: usize)
        ensures
            final(self).cursor == cursor,
            final(self).scroll == old(self).scroll,
    {
        self.cursor = cursor;
    }

    /// Keeps the cursor on one of `len` entries (on the first when there are none).
    pub fn saturate_cursor(&mut self, len: usize)
        ensures
            final(self).cursor == (if len == 0 {
                0
            } else if old(self).cursor < len {
                old(self).cursor as int
            } else {
                len - 1
            }),
            final(self).scroll == old(self).scroll,
    {
        if len == 0 {
            self.cursor = 0;
        } else if self.cursor >= len {
            self.cursor = len - 1;
        }
    }

    /// Follows the removal of the entry at `index`: an entry above the cursor moves it up.
    pub fn on_remove_entry(&mut self, index: usize)
        ensures
            final(self).cursor == (if index < old(self).cursor {
                old(self).cursor - 1
            } else {
                old(self).cursor as int
            }),
            final(self).scroll == old(self).scroll,
    {
        if index < self.cursor {
            self.cursor = self.cursor - 1;
        }
    }

    /// Puts the cursor on `cursor` after the list was filtered, and scrolls so that it shows
    /// on a screen of `available_height` rows.
    pub fn fix_cursor_on_filter(&mut self, cursor: usize, available_height: usize)
        ensures
            final(self).cursor == cursor,
            final(self).scroll == scroll_to_show(old(self).scroll as int, cursor as int, available_height as int),
    {
        let h = if available_height >= 1 {
            available_height
        } else {
            1
        };
        self.cursor = cursor;
        if self.cursor < self.scroll {
            self.scroll = self.cursor;
        } else if self.cursor - self.scroll >= h {
            self.scroll = self.cursor - (h - 1);
        }
    }

    /// Moves the cursor over `entries_len` entries under a key, on a screen of
    /// `available_height` rows, and says what the key asks of the entries: space flips the
    /// one under the cursor, control-a flips all.
    pub fn on_key(&mut self, entries_len: usize, available_height: usize, key: Key) -> (res: SelectMenuAction)
        ensures
            final(self).cursor == moved_position(
                old(self).cursor as int,
                entries_len as int,
                available_height as int / 2,
                key,
            ),
            final(self).scroll == scroll_to_show(
                old(self).scroll as int,
                final(self).cursor as int,
                available_height as int,
            ),
            res == (match key {
                Key::Char(' ') => SelectMenuAction::Toggle(final(self).cursor),
                Key::Ctrl('a') => SelectMenuAction::ToggleAll,
                _ => SelectMenuAction::NoAction,
            }),
    {
        let cursor = move_position(self.cursor, entries_len, available_height / 2, key);
        self.fix_cursor_on_filter(cursor, available_height);
        match key {
            Key::Char(' ') => SelectMenuAction::Toggle(self.cursor),
            Key::Ctrl('a') => SelectMenuAction::ToggleAll,
            _ => SelectMenuAction::NoAction,
        }
    }
}


/// The selected entries, in order.
pub open spec fn selected_entries(v: Seq<RevisionEntry>) -> Seq<RevisionEntry>
    decreases v.len(),
{
    if v.len() == 0 {
        seq![]
    } else if v.last().selected {
        selected_entries(v.drop_last()).push(v.last())
    } else {
        selected_entries(v.drop_last())
    }
}

/// The entries that are not selected, in order.
pub open spec fn unselected_entries(v: Seq<RevisionEntry>) -> Seq<RevisionEntry>
    decreases v.len(),
{
    if v.len() == 0 {
        seq![]
    } else if v[0].selected {
        unselected_entries(v.drop_first())
    } else {
        seq![v[0]] + unselected_entries(v.drop_first())
    }
}

/// How many entries are selected.
pub open spec fn selected_count(v: Seq<RevisionEntry>) -> int
    decreases v.len(),
{
    if v.len() == 0 {
        0
    } else {
        (if v[0].selected {
            1int
        } else {
            0int
        }) + selected_count(v.drop_first())
    }
}

/// The entries with the one at `i` flipped, when there is one.
pub open spec fn toggled_at(v: Seq<RevisionEntry>, i: int) -> Seq<RevisionEntry> {
    if 0 <= i < v.len() {
        v.update(i, RevisionEntry { selected: !v[i].selected, ..v[i] })
    } else {
        v
    }
}

/// The entries all selected, or all not selected.
pub open spec fn all_set(v: Seq<RevisionEntry>, selected: bool) -> Seq<RevisionEntry> {
    Seq::new(v.len(), |i: int| RevisionEntry { selected, ..v[i] })
}

/// Whether every entry is selected.
pub open spec fn all_selected(v: Seq<RevisionEntry>) -> bool {
    forall|i: int| 0 <= i < v.len() ==> (#[trigger] v[i]).selected
}

/// The entries after a list action: a flip of one entry, or of all of them (all selected
/// unless all already were).
pub open spec fn after_action(v: Seq<RevisionEntry>, action: SelectMenuAction) -> Seq<RevisionEntry> {
    match action {
        SelectMenuAction::NoAction => v,
        SelectMenuAction::Toggle(i) => toggled_at(v, i as int),
        SelectMenuAction::ToggleAll => all_set(v, !all_selected(v)),
    }
}

/// The cursor after the selected entries above it are removed.
pub open spec fn cursor_after_removal(v: Seq<RevisionEntry>, cursor: int) -> int {
    let m = if cursor < v.len() {
        cursor
    } else {
        v.len() as int
    };
    cursor - selected_count(v.take(m))
}

proof fn lemma_selected_count_bounds(v: Seq<RevisionEntry>)
    ensures
        0 <= selected_count(v) <= v.len(),
        unselected_entries(v).len() == v.len() - selected_count(v),
        selected_count(v) == 0 ==> unselected_entries(v) == v,
    decreases v.len(),
{
    if v.len() > 0 {
        lemma_selected_count_bounds(v.drop_first());
        if selected_count(v) == 0 {
            assert(seq![v[0]] + v.drop_first() == v);
        }
    }
}

/// The selected entries of `entries`, copied.
pub fn get_selected_entries(entries: &Vec<RevisionEntry>) -> (res: Vec<RevisionEntry>)
    ensures
        res@ == selected_entries(entries@),
{
    let mut res: Vec<RevisionEntry> = Vec::new();
    let mut i: usize = 0;
    assert(entries@.take(0) == Seq::<RevisionEntry>::empty());
    while i < entries.len()
        invariant
            i <= entries.len(),
            res@ == selected_entries(entries@.take(i as int)),
        decreases entries.len() - i,
    {
        assert(entries@.take(i as int + 1).drop_last() == entries@.take(i as int));
        if entries[i].selected {
            res.push(entries[i].copy());
        }
        i = i + 1;
    }
    assert(entries@.take(entries.len() as int) == entries@);
    res
}

/// Removes the selected entries (all of them when none is selected) and keeps the cursor on
/// the entry it was on.
pub fn remove_selected_entries(entries: &mut Vec<RevisionEntry>, select: &mut SelectMenu)
    ensures
        selected_count(old(entries)@) == 0 ==> final(entries)@ == Seq::<RevisionEntry>::empty() && final(select).cursor == 0,
        selected_count(old(entries)@) > 0 ==> final(entries)@ == unselected_entries(old(entries)@) && final(select).cursor
            == cursor_after_removal(old(entries)@, old(select).cursor as int),
        final(select).scroll == old(select).scroll,
{
    let ghost v = entries@;
    let ghost c0 = select.cursor as int;
    let ghost m = if c0 < v.len() {
        c0
    } else {
        v.len() as int
    };
    let previous_len = entries.len();
    let mut i = entries.len();
    proof {
        lemma_selected_count_bounds(v);
        assert(v.skip(v.len() as int) == Seq::<RevisionEntry>::empty());
        assert(v.take(v.len() as int) == v);
    }
    while i > 0
        invariant
            i <= v.len(),
            previous_len == v.len(),
            entries@ == v.take(i as int) + unselected_entries(v.skip(i as int)),
            select.cursor == c0 - (if (i as int) < m {
                selected_count(v.subrange(i as int, m))
            } else {
                0
            }),
            select.scroll == old(select).scroll,
            m == (if c0 < v.len() {
                c0
            } else {
                v.len() as int
            }),
        decreases i,
    {
        let j = i - 1;
        proof {
            assert(v.skip(j as int).drop_first() == v.skip(i as int));
            assert(v.skip(j as int)[0] == v[j as int]);
            if (j as int) < m {
                assert(v.subrange(j as int, m).drop_first() == v.subrange(i as int, m));
                assert(v.subrange(j as int, m)[0] == v[j as int]);
                lemma_selected_count_bounds(v.subrange(i as int, m));
                if (i as int) == m {
                    assert(v.subrange(i as int, m) == Seq::<RevisionEntry>::empty());
                }
                assert(selected_count(v.subrange(j as int, m)) == (if v[j as int].selected {
                    1int
                } else {
                    0int
                }) + selected_count(v.subrange(i as int, m)));
                assert(select.cursor > j);
            } else {
                assert(select.cursor == c0);
                assert(j >= c0);
            }
        }
        if entries[j].selected {
            entries.remove(j);
            select.on_remove_entry(j);
            assert(entries@ == v.take(j as int) + unselected_entries(v.skip(j as int)));
        } else {
            assert(entries@ == v.take(j as int) + unselected_entries(v.skip(j as int)));
        }
        i = j;
    }
    proof {
        assert(v.skip(0) == v);
        assert(v.take(0) + unselected_entries(v) == unselected_entries(v));
        if m > 0 {
            assert(v.subrange(0, m) == v.take(m));
        } else {
            assert(v.take(0) == Seq::<RevisionEntry>::empty());
        }
    }
    if entries.len() == previous_len {
        entries.clear();
        select.set_cursor(0);
    }
}

/// Applies a list action to the entries.
pub fn apply_action(entries: &mut Vec<RevisionEntry>, action: SelectMenuAction)
    ensures
        final(entries)@ == after_action(old(entries)@, action),
{
    match action {
        SelectMenuAction::NoAction => {},
        SelectMenuAction::Toggle(i) => {
            if i < entries.len() {
                let e = RevisionEntry {
                    selected: !entries[i].selected,
                    name: entries[i].name.clone(),
                    status: entries[i].status.copy(),
                };
                entries.set(i, e);
            }
        },
        SelectMenuAction::ToggleAll => {
            let mut all = true;
            let mut k: usize = 0;
            while k < entries.len()
                invariant
                    k <= entries.len(),
                    all == (forall|j: int| 0 <= j < k ==> (#[trigger] entries@[j]).selected),
                decreases entries.len() - k,
            {
                all = all && entries[k].selected;
                k = k + 1;
            }
            let ghost v = entries@;
            let mut k: usize = 0;
            while k < entries.len()
                invariant
                    k <= entries.len(),
                    entries@.len() == v.len(),
                    all == all_selected(v),
                    forall|j: int| 0 <= j < k ==> #[trigger] entries@[j] == (RevisionEntry { selected: !all, ..v[j] }),
                    forall|j: int| k <= j < v.len() ==> #[trigger] entries@[j] == v[j],
                decreases entries.len() - k,
            {
                let e = RevisionEntry { selected: !all, name: entries[k].name.clone(), status: entries[k].status.copy() };
                entries.set(k, e);
                k = k + 1;
            }
            assert(entries@ == all_set(v, !all));
        },
    }
}


/// The names of the tags.
pub open spec fn tag_names(v: Seq<TagEntry>) -> Seq<Seq<char>> {
    v.map_values(|t: TagEntry| t.name@)
}

/// The position of `index` among the visible indices, when it is one of them.
pub open spec fn position_of(visible: Seq<usize>, index: usize) -> int {
    choose|k: int| 0 <= k < visible.len() && visible[k] == index
}

/// A filter on a list: the text typed, whether it takes the keys, and the positions of the
/// entries it lets through.
pub struct Filter {
    pub text: Vec<char>,
    pub focus: bool,
    pub visible: Vec<usize>,
}

impl Filter {
    /// An empty filter without focus, letting nothing through until it filters a list.
    pub fn new() -> (res: Filter)
        ensures
            res.text@.len() == 0,
            !res.focus,
            res.visible@.len() == 0,
    {
        Filter { text: Vec::new(), focus: false, visible: Vec::new() }
    }

    /// Whether the filter takes the keys.
    pub fn has_focus(&self) -> (res: bool)
        ensures
            res == self.focus,
    {
        self.focus
    }

    /// Whether a filter text is set.
    pub fn is_filtering(&self) -> (res: bool)
        ensures
            res == (self.text@.len() > 0),
    {
        self.text.len() > 0
    }

    /// Gives the keys to the filter.
    pub fn enter(&mut self)
        ensures
            final(self).focus,
            final(self).text == old(self).text,
            final(self).visible == old(self).visible,
    {
        self.focus = true;
    }

    /// Empties the filter and takes the keys back from it.
    pub fn clear(&mut self)
        ensures
            final(self).text@.len() == 0,
            !final(self).focus,
            final(self).visible == old(self).visible,
    {
        self.text = Vec::new();
        self.focus = false;
    }

    /// Edits the filter text under a key; submitting or canceling gives the keys back.
    pub fn on_key(&mut self, key: Key)
        ensures
            final(self).text@ == edited(old(self).text@, key),
            final(self).focus == (old(self).focus && !crate::platform::submits(key) && !crate::platform::cancels(key)),
            final(self).visible == old(self).visible,
    {
        let mut line = ReadLine { input: string_of(&self.text, 0, self.text.len()) };
        assert(self.text@.subrange(0, self.text@.len() as int) == self.text@);
        line.on_key(key);
        self.text = chars_of(line.input.as_str());
        if key.is_submit() || key.is_cancel() {
            self.focus = false;
        }
    }

    /// The positions of the entries the filter lets through.
    pub fn visible_indices(&self) -> (res: &Vec<usize>)
        ensures
            res@ == self.visible@,
    {
        &self.visible
    }

    /// The position of the entry shown at `i`, if one is.
    pub fn get_visible_index(&self, i: usize) -> (res: Option<usize>)
        ensures
            i < self.visible@.len() ==> res == Some(self.visible@[i as int]),
            i >= self.visible@.len() ==> res is None,
    {
        if i < self.visible.len() {
            Some(self.visible[i])
        } else {
            None
        }
    }

    /// Lets through the tags whose names match the filter text, and returns where the entry
    /// shown at `cursor` is shown now (the top when it is not shown any more).
    pub fn filter(&mut self, entries: &Vec<TagEntry>, cursor: usize) -> (res: usize)
        ensures
            final(self).text == old(self).text,
            final(self).focus == old(self).focus,
            final(self).visible@.map_values(|i: usize| i as int) == matching(tag_names(entries@), old(self).text@),
            ({
                let previous = if cursor < old(self).visible@.len() {
                    Some(old(self).visible@[cursor as int])
                } else {
                    None
                };
                match previous {
                    Some(p) => if final(self).visible@.contains(p) {
                        res < final(self).visible@.len() && final(self).visible@[res as int] == p
                    } else {
                        res == 0
                    },
                    None => res == 0,
                }
            }),
    {
        let previous = self.get_visible_index(cursor);
        let mut visible: Vec<usize> = Vec::new();
        let ghost names = tag_names(entries@);
        let mut i: usize = 0;
        assert(names.take(0) == Seq::<Seq<char>>::empty());
        while i < entries.len()
            invariant
                i <= entries.len(),
                names == tag_names(entries@),
                visible@.map_values(|i: usize| i as int) == matching(names.take(i as int), self.text@),
                forall|k: int| 0 <= k < visible@.len() ==> visible@[k] < i,
            decreases entries.len() - i,
        {
            let ghost before = visible@;
            assert(names.take(i as int + 1).drop_last() == names.take(i as int));
            assert(names.take(i as int + 1).last() == entries@[i as int].name@);
            if fuzzy_matches(entries[i].name.as_str(), self.text.as_slice()) {
                visible.push(i);
                assert(visible@.map_values(|i: usize| i as int) == before.map_values(|i: usize| i as int).push(i as int));
            }
            i = i + 1;
        }
        assert(names.take(entries.len() as int) == names);
        self.visible = visible;
        match previous {
            Some(p) => {
                let mut k: usize = 0;
                while k < self.visible.len()
                    invariant
                        k <= self.visible.len(),
                        forall|j: int| 0 <= j < k ==> self.visible@[j] != p,
                        self.text == old(self).text,
                        self.focus == old(self).focus,
                        self.visible@.map_values(|i: usize| i as int) == matching(tag_names(entries@), old(self).text@),
                        previous == Some(p),
                        previous == (if cursor < old(self).visible@.len() {
                            Some(old(self).visible@[cursor as int])
                        } else {
                            None
                        }),
                    decreases self.visible.len() - k,
                {
                    if self.visible[k] == p {
                        return k;
                    }
                    k = k + 1;
                }
                0
            },
            None => 0,
        }
    }

    /// Follows the removal of the entry at `index`: it is not shown any more, and the entries
    /// after it move up by one.
    pub fn on_remove_entry(&mut self, index: usize)
        ensures
            final(self).text == old(self).text,
            final(self).focus == old(self).focus,
            final(self).visible@ == removed_index(old(self).visible@, index),
    {
        let mut visible: Vec<usize> = Vec::new();
        let mut k: usize = 0;
        while k < self.visible.len()
            invariant
                k <= self.visible.len(),
                visible@ == removed_index(self.visible@.take(k as int), index),
            decreases self.visible.len() - k,
        {
            assert(self.visible@.take(k as int + 1).drop_last() == self.visible@.take(k as int));
            let v = self.visible[k];
            if v < index {
                visible.push(v);
            } else if v > index {
                visible.push(v - 1);
            }
            k = k + 1;
        }
        assert(self.visible@.take(self.visible@.len() as int) == self.visible@);
        self.visible = visible;
    }
}

/// The visible positions after the entry at `index` is removed.
pub open spec fn removed_index(visible: Seq<usize>, index: usize) -> Seq<usize>
    decreases visible.len(),
{
    if visible.len() == 0 {
        seq![]
    } else {
        let rest = removed_index(visible.drop_last(), index);
        let v = visible.last();
        if v < index {
            rest.push(v)
        } else if v > index {
            rest.push((v - 1) as usize)
        } else {
            rest
        }
    }
}

} // verus!
