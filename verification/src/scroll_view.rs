use vstd::prelude::*;

use crate::action::ActionKind;
use crate::input::{key_to_char, typed_char, KeyCode, KeyEvent};
use crate::text::{byte_len, lines, lines_spec, str_byte_len, views};
use crate::tui_util::{
    fuzzy_matches, move_cursor, moved_cursor, scrolled_to, subsequence, AvailableSize,
    TerminalSize,
};

verus! {

/// The most rows a view handles: positions stay well inside the range of `i32`.
pub open spec fn max_rows() -> int {
    0x3fff_0000
}

/// The lines of `lines` that match the filter, in order.
pub open spec fn matching_lines(lines: Seq<Seq<char>>, filter: Seq<char>) -> Seq<Seq<char>>
    decreases lines.len(),
{
    if lines.len() == 0 {
        seq![]
    } else {
        let rest = matching_lines(lines.drop_last(), filter);
        if subsequence(filter, lines.last()) {
            rest.push(lines.last())
        } else {
            rest
        }
    }
}

/// The rows a line of `len` bytes takes on a screen `width` bytes wide (rounded up).
pub open spec fn rows_of(len: int, width: int) -> int {
    len / width + (if len % width == 0 {
        0int
    } else {
        1int
    })
}

/// The rows that `lines` take on a screen `width` bytes wide.
pub open spec fn row_count(lines: Seq<Seq<char>>, width: int) -> int
    decreases lines.len(),
{
    if lines.len() == 0 {
        0
    } else {
        row_count(lines.drop_last(), width) + rows_of(byte_len(lines.last()) as int, width)
    }
}

/// The state of a scroll view, as values.
pub struct ScrollState {
    pub action_kind: ActionKind,
    pub content: Seq<char>,
    pub scroll: int,
    pub cursor: Option<int>,
    pub is_filtering: bool,
    pub filter: Seq<char>,
}

/// The lines shown: those of the content that match the filter.
pub open spec fn shown_lines(s: ScrollState) -> Seq<Seq<char>> {
    matching_lines(lines_spec(s.content), s.filter)
}

/// The height of the content: its lines when they are selectable, else its rows.
pub open spec fn content_height_spec(s: ScrollState, width: int) -> int {
    if s.cursor is Some {
        shown_lines(s).len() as int
    } else {
        row_count(shown_lines(s), width)
    }
}

/// The view scrolled by `delta`: the cursor moves when there is one, else the scroll moves,
/// staying between zero and the last screenful.
pub open spec fn scrolled(s: ScrollState, size: AvailableSize, delta: int) -> ScrollState {
    let h = content_height_spec(s, size.width as int);
    match s.cursor {
        Some(c) => if h == 0 {
            ScrollState { scroll: 0, cursor: Some(0), ..s }
        } else {
            let c2 = moved_cursor(c, h, delta);
            ScrollState { scroll: scrolled_to(s.scroll, c2, size.height as int), cursor: Some(c2), ..s }
        },
        None => {
            let target = s.scroll + delta;
            let last = h - size.height;
            let v = if target < last {
                target
            } else {
                last
            };
            ScrollState { scroll: if v > 0 {
                v
            } else {
                0
            }, ..s }
        },
    }
}

/// The view after its filter changed: back to the top.
pub open spec fn filter_changed(s: ScrollState) -> ScrollState {
    ScrollState {
        scroll: 0,
        cursor: match s.cursor {
            Some(_) => Some(0),
            None => None,
        },
        ..s
    }
}

/// What a key asks of a scroll view.
#[derive(PartialEq, Eq, Structural, Clone, Copy, Debug)]
pub enum ScrollCommand {
    Down,
    Up,
    PageDown,
    PageUp,
    Home,
    End,
    ToggleFilter,
    DeleteChar,
    ClearFilter,
    Cancel,
    Other,
}

/// Which command a key is: the key bindings of the view, tried in order.
pub open spec fn scroll_command(key: KeyEvent) -> ScrollCommand {
    let ctrl = key.modifiers.is_control_spec();
    match key.code {
        KeyCode::Char(c) => if ctrl && (c == 'j' || c == 'n') {
            ScrollCommand::Down
        } else if c == '\n' {
            ScrollCommand::Down
        } else if ctrl && (c == 'k' || c == 'p') {
            ScrollCommand::Up
        } else if ctrl && c == 'd' {
            ScrollCommand::PageDown
        } else if ctrl && c == 'u' {
            ScrollCommand::PageUp
        } else if ctrl && (c == 'g' || c == 'b') {
            ScrollCommand::Home
        } else if ctrl && c == 'e' {
            ScrollCommand::End
        } else if (ctrl && c == 'f') || c == '/' {
            ScrollCommand::ToggleFilter
        } else if ctrl && c == 'h' {
            ScrollCommand::DeleteChar
        } else if ctrl && c == 'w' {
            ScrollCommand::ClearFilter
        } else if ctrl && c == 'c' {
            ScrollCommand::Cancel
        } else {
            ScrollCommand::Other
        },
        KeyCode::Down | KeyCode::Enter => ScrollCommand::Down,
        KeyCode::Up => ScrollCommand::Up,
        KeyCode::PageDown => ScrollCommand::PageDown,
        KeyCode::PageUp => ScrollCommand::PageUp,
        KeyCode::Home => ScrollCommand::Home,
        KeyCode::End => ScrollCommand::End,
        KeyCode::Backspace => ScrollCommand::DeleteChar,
        KeyCode::Esc => ScrollCommand::Cancel,
        _ => ScrollCommand::Other,
    }
}

/// The view after a key, and whether the key was handled (the view is then drawn again).
pub open spec fn updated(s: ScrollState, key: KeyEvent, size: AvailableSize) -> (ScrollState, bool) {
    match scroll_command(key) {
        ScrollCommand::Down => (scrolled(s, size, 1), true),
        ScrollCommand::Up => (scrolled(s, size, -1), true),
        ScrollCommand::PageDown => (scrolled(s, size, size.height as int / 2), true),
        ScrollCommand::PageUp => (scrolled(s, size, -(size.height as int / 2)), true),
        ScrollCommand::Home => (filter_changed(s), true),
        ScrollCommand::End => {
            let h = content_height_spec(s, size.width as int);
            let last = h - size.height;
            (
                ScrollState {
                    scroll: if last > 0 {
                        last
                    } else {
                        0
                    },
                    cursor: match s.cursor {
                        Some(_) => Some(h - 1),
                        None => None,
                    },
                    ..s
                },
                true,
            )
        },
        ScrollCommand::ToggleFilter => (
            filter_changed(ScrollState { is_filtering: !s.is_filtering, ..s }),
            true,
        ),
        ScrollCommand::DeleteChar => (
            filter_changed(
                ScrollState {
                    filter: if s.filter.len() > 0 {
                        s.filter.drop_last()
                    } else {
                        s.filter
                    },
                    ..s
                },
            ),
            true,
        ),
        ScrollCommand::ClearFilter => (filter_changed(ScrollState { filter: seq![], ..s }), true),
        ScrollCommand::Cancel => if s.is_filtering {
            (filter_changed(ScrollState { is_filtering: false, filter: seq![], ..s }), true)
        } else {
            (s, false)
        },
        ScrollCommand::Other => match typed_char(key) {
            Some(c) => if s.is_filtering {
                (filter_changed(ScrollState { filter: s.filter.push(c), ..s }), true)
            } else {
                (s, false)
            },
            None => (s, false),
        },
    }
}

/// The view after its content is replaced: another kind of action starts at the top, with a
/// cursor when its lines can be selected; the same kind keeps its place as far as it can.
pub open spec fn with_content(s: ScrollState, content: Seq<char>, kind: ActionKind, size: AvailableSize) -> ScrollState {
    let fresh = ScrollState { content, is_filtering: false, filter: seq![], ..s };
    if s.action_kind != kind {
        ScrollState {
            scroll: 0,
            cursor: if crate::action::selects_output(kind) {
                Some(0)
            } else {
                None
            },
            action_kind: kind,
            ..fresh
        }
    } else {
        scrolled(fresh, size, 0)
    }
}

/// The size left for content on a terminal.
pub open spec fn available(ts: TerminalSize) -> AvailableSize {
    AvailableSize { width: ts.width as usize, height: (ts.height - 2) as usize }
}

/// A scrollable view of an action's output, with a cursor when its lines can be selected and
/// a filter on its lines.
pub struct ScrollView {
    pub action_kind: ActionKind,
    pub content: String,
    pub scroll: usize,
    pub cursor: Option<usize>,
    pub is_filtering: bool,
    pub filter: Vec<char>,
}

impl View for ScrollView {
    type V = ScrollState;

    open spec fn view(&self) -> ScrollState {
        ScrollState {
            action_kind: self.action_kind,
            content: self.content@,
            scroll: self.scroll as int,
            cursor: match self.cursor {
                Some(c) => Some(c as int),
                None => None,
            },
            is_filtering: self.is_filtering,
            filter: self.filter@,
        }
    }
}

/// Whether the positions of a view are in the range it handles.
pub open spec fn positions_fit(s: ScrollState) -> bool {
    &&& 0 <= s.scroll <= max_rows()
    &&& s.cursor matches Some(c) ==> 0 <= c <= max_rows()
}

/// Whether a terminal of size `ts` can show the view without a fault: the rows of its
/// content are counted on a width of at least one, a cursor has a row to be on, and the
/// content's height is in the range the view handles.
pub open spec fn size_fits(s: ScrollState, ts: TerminalSize) -> bool {
    &&& ts.height >= 2
    &&& s.cursor is None ==> ts.width >= 1
    &&& s.cursor is Some ==> s.scroll + ts.height - 2 >= 1
    &&& content_height_spec(s, ts.width as int) <= max_rows()
}

proof fn lemma_matching_len(lines: Seq<Seq<char>>, filter: Seq<char>)
    ensures
        matching_lines(lines, filter).len() <= lines.len(),
    decreases lines.len(),
{
    if lines.len() > 0 {
        lemma_matching_len(lines.drop_last(), filter);
    }
}

proof fn lemma_row_count_mono(lines: Seq<Seq<char>>, i: int, width: int)
    requires
        0 <= i <= lines.len(),
        width >= 1,
    ensures
        0 <= row_count(lines.take(i), width) <= row_count(lines, width),
    decreases lines.len(),
{
    if lines.len() > 0 {
        if i == lines.len() {
            assert(lines.take(i) == lines);
            lemma_row_count_mono(lines.drop_last(), i - 1, width);
            assert(lines.drop_last().take(i - 1) == lines.drop_last());
        } else {
            lemma_row_count_mono(lines.drop_last(), i, width);
            assert(lines.drop_last().take(i) == lines.take(i));
        }
        assert(rows_of(byte_len(lines.last()) as int, width) >= 0) by (nonlinear_arith)
            requires
                width >= 1,
        ;
    }
}

impl ScrollView {
    /// An empty view, for no action yet.
    pub fn new() -> (res: ScrollView)
        ensures
            res.action_kind == ActionKind::Quit,
            res.content@ == Seq::<char>::empty(),
            res.scroll == 0,
            res.cursor is None,
            !res.is_filtering,
            res.filter@ == Seq::<char>::empty(),
    {
        ScrollView {
            action_kind: ActionKind::Quit,
            content: String::new(),
            scroll: 0,
            cursor: None,
            is_filtering: false,
            filter: Vec::new(),
        }
    }

    /// The line under the cursor, when the lines can be selected.
    pub fn cursor(&self) -> (res: Option<usize>)
        ensures
            res == self.cursor,
    {
        self.cursor
    }

    /// The lines of the content that match the filter.
    pub fn filtered_lines(&self) -> (res: Vec<String>)
        ensures
            views(res@) == shown_lines(self@),
    {
        let all = lines(self.content.as_str());
        let ghost all_lines = views(all@);
        let mut res: Vec<String> = Vec::new();
        let mut i: usize = 0;
        assert(all_lines.take(0) == Seq::<Seq<char>>::empty());
        while i < all.len()
            invariant
                i <= all.len(),
                all_lines == views(all@),
                all_lines == lines_spec(self.content@),
                views(res@) == matching_lines(all_lines.take(i as int), self.filter@),
            decreases all.len() - i,
        {
            let ghost before = res@;
            assert(all_lines.take(i as int + 1).drop_last() == all_lines.take(i as int));
            assert(all_lines.take(i as int + 1).last() == all[i as int]@);
            if fuzzy_matches(all[i].as_str(), self.filter.as_slice()) {
                res.push(all[i].clone());
                assert(views(res@) == views(before).push(all[i as int]@));
            }
            i = i + 1;
        }
        assert(all_lines.take(all.len() as int) == all_lines);
        res
    }

    /// How many rows the content takes: its matching lines when they can be selected, else
    /// the screen rows those lines fill at the available width.
    pub fn content_height(&self, available_size: AvailableSize) -> (res: usize)
        requires
            self.cursor is None ==> available_size.width >= 1,
            content_height_spec(self@, available_size.width as int) <= max_rows(),
        ensures
            res == content_height_spec(self@, available_size.width as int),
    {
        let shown = self.filtered_lines();
        proof {
            lemma_matching_len(lines_spec(self.content@), self.filter@);
        }
        if self.cursor.is_some() {
            return shown.len();
        }
        let width = available_size.width;
        let ghost w = width as int;
        let ghost ls = views(shown@);
        let mut total: usize = 0;
        let mut i: usize = 0;
        assert(ls.take(0) == Seq::<Seq<char>>::empty());
        while i < shown.len()
            invariant
                i <= shown.len(),
                width >= 1,
                w == width as int,
                ls == views(shown@),
                ls == shown_lines(self@),
                row_count(ls, w) <= max_rows(),
                total == row_count(ls.take(i as int), w),
            decreases shown.len() - i,
        {
            let len = str_byte_len(shown[i].as_str());
            proof {
                assert(ls.take(i as int + 1).drop_last() == ls.take(i as int));
                assert(ls.take(i as int + 1).last() == shown[i as int]@);
                lemma_row_count_mono(ls, i as int + 1, w);
            }
            let q = len / width;
            let r: usize = if len % width == 0 {
                0
            } else {
                1
            };
            assert(total + q + r == row_count(ls.take(i as int + 1), w));
            let rows = q + r;
            total = total + rows;
            i = i + 1;
        }
        assert(ls.take(shown.len() as int) == ls);
        total
    }

    /// Moves the cursor, or else the scroll, by `delta`.
    fn scroll(&mut self, available_size: AvailableSize, delta: i32)
        requires
            positions_fit(old(self)@),
            -0x8000 <= delta <= 0x7fff,
            available_size.height <= 0xffff,
            old(self).cursor is None ==> available_size.width >= 1,
            old(self).cursor is Some ==> old(self).scroll + available_size.height >= 1,
            content_height_spec(old(self)@, available_size.width as int) <= max_rows(),
        ensures
            final(self)@ == scrolled(old(self)@, available_size, delta as int),
            positions_fit(final(self)@),
    {
        let content_height = self.content_height(available_size);
        match self.cursor {
            Some(c) => {
                let mut cursor = c;
                let mut scroll = self.scroll;
                move_cursor(&mut scroll, &mut cursor, available_size, content_height, delta);
                self.scroll = scroll;
                self.cursor = Some(cursor);
            },
            None => {
                let target = self.scroll as i32 + delta;
                let last = content_height as i32 - available_size.height as i32;
                let v = if target < last {
                    target
                } else {
                    last
                };
                self.scroll = if v > 0 {
                    v as usize
                } else {
                    0
                };
            },
        }
    }

    /// Back to the top after the filter changed.
    fn on_filter_changed(&mut self)
        ensures
            final(self)@ == filter_changed(old(self)@),
    {
        self.scroll = 0;
        self.cursor = match self.cursor {
            Some(_) => Some(0),
            None => None,
        };
    }

    /// Replaces the content with an action's output.
    pub fn set_content(&mut self, content: &str, action_kind: ActionKind, terminal_size: TerminalSize)
        requires
            positions_fit(old(self)@),
            old(self).action_kind == action_kind ==> size_fits(
                ScrollState { content: content@, is_filtering: false, filter: seq![], ..old(self)@ },
                terminal_size,
            ),
        ensures
            final(self)@ == with_content(old(self)@, content@, action_kind, available(terminal_size)),
            positions_fit(final(self)@),
    {
        self.content = content.to_owned();
        self.is_filtering = false;
        self.filter = Vec::new();
        if self.action_kind != action_kind {
            self.scroll = 0;
            self.cursor = if action_kind.can_select_output() {
                Some(0)
            } else {
                None
            };
            self.action_kind = action_kind;
        } else {
            let available_size = AvailableSize::from_temrinal_size(terminal_size);
            self.scroll(available_size, 0);
        }
    }

    /// Handles a key: moves through the content, or edits the filter. Returns whether the key
    /// was handled, in which case the view is to be drawn again.
    pub fn update(&mut self, key_event: KeyEvent, terminal_size: TerminalSize) -> (res: bool)
        requires
            positions_fit(old(self)@),
            size_fits(old(self)@, terminal_size),
            scroll_command(key_event) == ScrollCommand::End && old(self).cursor is Some
                ==> content_height_spec(old(self)@, terminal_size.width as int) >= 1,
        ensures
            (final(self)@, res) == updated(old(self)@, key_event, available(terminal_size)),
            positions_fit(final(self)@),
    {
        let available_size = AvailableSize::from_temrinal_size(terminal_size);
        let command = command_of(key_event);
        match command {
            ScrollCommand::Down => {
                self.scroll(available_size, 1);
                true
            },
            ScrollCommand::Up => {
                self.scroll(available_size, -1);
                true
            },
            ScrollCommand::PageDown => {
                let half = available_size.height as i32 / 2;
                self.scroll(available_size, half);
                true
            },
            ScrollCommand::PageUp => {
                let half = available_size.height as i32 / -2;
                self.scroll(available_size, half);
                true
            },
            ScrollCommand::Home => {
                self.on_filter_changed();
                true
            },
            ScrollCommand::End => {
                let content_height = self.content_height(available_size);
                let last = content_height as i32 - available_size.height as i32;
                self.scroll = if last > 0 {
                    last as usize
                } else {
                    0
                };
                self.cursor = match self.cursor {
                    Some(_) => Some(content_height - 1),
                    None => None,
                };
                true
            },
            ScrollCommand::ToggleFilter => {
                self.is_filtering = !self.is_filtering;
                self.on_filter_changed();
                true
            },
            ScrollCommand::DeleteChar => {
                if self.filter.len() > 0 {
                    let last = self.filter.len() - 1;
                    self.filter.remove(last);
                    assert(self.filter@ == old(self).filter@.drop_last());
                }
                self.on_filter_changed();
                true
            },
            ScrollCommand::ClearFilter => {
                self.filter = Vec::new();
                self.on_filter_changed();
                true
            },
            ScrollCommand::Cancel => {
                if self.is_filtering {
                    self.is_filtering = false;
                    self.filter = Vec::new();
                    self.on_filter_changed();
                    true
                } else {
                    false
                }
            },
            ScrollCommand::Other => {
                match key_to_char(key_event) {
                    Some(c) => {
                        if self.is_filtering {
                            self.filter.push(c);
                            self.on_filter_changed();
                            true
                        } else {
                            false
                        }
                    },
                    None => false,
                }
            },
        }
    }

    /// The lines on screen: the matching lines from the scroll on, at most `height` of them.
    /// The line at index `k` is the `scroll + k`-th matching line.
    pub fn visible_lines(&self, height: usize) -> (res: Vec<String>)
        ensures
            views(res@) == shown_lines(self@).skip(
                if self.scroll <= shown_lines(self@).len() { self.scroll as int } else { shown_lines(self@).len() as int },
            ).take(
                if self.scroll + height <= shown_lines(self@).len() { height as int } else {
                    if self.scroll <= shown_lines(self@).len() { shown_lines(self@).len() - self.scroll } else { 0 }
                },
            ),
    {
        let shown = self.filtered_lines();
        let ghost ls = views(shown@);
        let start = if self.scroll <= shown.len() {
            self.scroll
        } else {
            shown.len()
        };
        let end = if height <= shown.len() - start {
            start + height
        } else {
            shown.len()
        };
        let mut res: Vec<String> = Vec::new();
        let mut i: usize = start;
        while i < end
            invariant
                start <= i <= end <= shown.len(),
                ls == views(shown@),
                views(res@) == ls.subrange(start as int, i as int),
            decreases end - i,
        {
            res.push(shown[i].clone());
            assert(ls.subrange(start as int, i as int + 1) == ls.subrange(start as int, i as int).push(shown[i as int]@));
            i = i + 1;
        }
        assert(ls.subrange(start as int, end as int) == ls.skip(start as int).take(end - start));
        res
    }
}

impl Default for ScrollView {
    fn default() -> (res: ScrollView)
        ensures
            res.action_kind == ActionKind::Quit,
            res.content@ == Seq::<char>::empty(),
            res.scroll == 0,
            res.cursor is None,
            !res.is_filtering,
            res.filter@ == Seq::<char>::empty(),
    {
        ScrollView::new()
    }
}

/// Which command a key is.
pub fn command_of(key: KeyEvent) -> (res: ScrollCommand)
    ensures
        res == scroll_command(key),
{
    let ctrl = key.modifiers.is_control();
    match key.code {
        KeyCode::Char(c) => if ctrl && (c == 'j' || c == 'n') {
            ScrollCommand::Down
        } else if c == '\n' {
            ScrollCommand::Down
        } else if ctrl && (c == 'k' || c == 'p') {
            ScrollCommand::Up
        } else if ctrl && c == 'd' {
            ScrollCommand::PageDown
        } else if ctrl && c == 'u' {
            ScrollCommand::PageUp
        } else if ctrl && (c == 'g' || c == 'b') {
            ScrollCommand::Home
        } else if ctrl && c == 'e' {
            ScrollCommand::End
        } else if (ctrl && c == 'f') || c == '/' {
            ScrollCommand::ToggleFilter
        } else if ctrl && c == 'h' {
            ScrollCommand::DeleteChar
        } else if ctrl && c == 'w' {
            ScrollCommand::ClearFilter
        } else if ctrl && c == 'c' {
            ScrollCommand::Cancel
        } else {
            ScrollCommand::Other
        },
        KeyCode::Down | KeyCode::Enter => ScrollCommand::Down,
        KeyCode::Up => ScrollCommand::Up,
        KeyCode::PageDown => ScrollCommand::PageDown,
        KeyCode::PageUp => ScrollCommand::PageUp,
        KeyCode::Home => ScrollCommand::Home,
        KeyCode::End => ScrollCommand::End,
        KeyCode::Backspace => ScrollCommand::DeleteChar,
        KeyCode::Esc => ScrollCommand::Cancel,
        _ => ScrollCommand::Other,
    }
}

} // verus!
