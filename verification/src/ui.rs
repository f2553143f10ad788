use vstd::prelude::*;

use crate::mode::{Filter, Output, ReadLine, SelectMenu};
use crate::backend::{FileStatus, LogEntry, RevisionEntry, TagEntry};
use crate::text::{chars_of, lines, lines_spec, string_of, string_push, utf8, views};

verus! {

/// The lines the header takes.
pub const HEADER_LINE_COUNT: usize = 2;

/// The lines a screen keeps besides its content: the header's and one more.
pub const RESERVED_LINES_COUNT: usize = 3;

/// The colors of the terminal's palette that the screens use.
#[derive(PartialEq, Eq, Structural, Clone, Copy, Debug)]
pub enum Color {
    Black,
    DarkRed,
    DarkGreen,
    DarkYellow,
    DarkBlue,
    DarkMagenta,
    DarkGray,
    White,
}

/// The number of a color in the palette, in ASCII digits.
pub open spec fn color_code(color: Color) -> Seq<u8> {
    match color {
        Color::Black => seq![0x30u8],
        Color::DarkRed => seq![0x31u8],
        Color::DarkGreen => seq![0x32u8],
        Color::DarkYellow => seq![0x33u8],
        Color::DarkBlue => seq![0x34u8],
        Color::DarkMagenta => seq![0x35u8],
        Color::DarkGray => seq![0x38u8],
        Color::White => seq![0x31u8, 0x35u8],
    }
}

/// `ESC [ 0 K`: clears the rest of the line.
pub open spec fn clear_line_code() -> Seq<u8> {
    seq![0x1bu8, 0x5bu8, 0x30u8, 0x4bu8]
}

/// `ESC [ 0 J`: clears the rest of the screen.
pub open spec fn clear_end_code() -> Seq<u8> {
    seq![0x1bu8, 0x5bu8, 0x30u8, 0x4au8]
}

/// `ESC [ 0 ; 0 H`: moves the cursor to the top left corner.
pub open spec fn cursor_zero_code() -> Seq<u8> {
    seq![0x1bu8, 0x5bu8, 0x30u8, 0x3bu8, 0x30u8, 0x48u8]
}

/// `ESC [ 1 E`: moves the cursor to the start of the next line.
pub open spec fn next_line_code() -> Seq<u8> {
    seq![0x1bu8, 0x5bu8, 0x31u8, 0x45u8]
}

/// `ESC [ 4 8 ; 5 ; code m`: sets the background color.
pub open spec fn background_code(color: Color) -> Seq<u8> {
    seq![0x1bu8, 0x5bu8, 0x34u8, 0x38u8, 0x3bu8, 0x35u8, 0x3bu8] + color_code(color) + seq![0x6du8]
}

/// `ESC [ 3 8 ; 5 ; code m`: sets the foreground color.
pub open spec fn foreground_code(color: Color) -> Seq<u8> {
    seq![0x1bu8, 0x5bu8, 0x33u8, 0x38u8, 0x3bu8, 0x35u8, 0x3bu8] + color_code(color) + seq![0x6du8]
}

/// Appends the code that clears the rest of the line.
pub fn clear_until_new_line(buf: &mut Vec<u8>)
    ensures
        final(buf)@ == old(buf)@ + clear_line_code(),
{
    buf.push(0x1b);
    buf.push(0x5b);
    buf.push(0x30);
    buf.push(0x4b);
    assert(buf@ == old(buf)@ + clear_line_code());
}

/// Appends the code that clears the rest of the screen.
pub fn clear_to_end(buf: &mut Vec<u8>)
    ensures
        final(buf)@ == old(buf)@ + clear_end_code(),
{
    buf.push(0x1b);
    buf.push(0x5b);
    buf.push(0x30);
    buf.push(0x4a);
    assert(buf@ == old(buf)@ + clear_end_code());
}

/// Appends the code that moves the cursor to the top left corner.
pub fn move_cursor_to_zero(buf: &mut Vec<u8>)
    ensures
        final(buf)@ == old(buf)@ + cursor_zero_code(),
{
    buf.push(0x1b);
    buf.push(0x5b);
    buf.push(0x30);
    buf.push(0x3b);
    buf.push(0x30);
    buf.push(0x48);
    assert(buf@ == old(buf)@ + cursor_zero_code());
}

/// Appends the code that moves the cursor to the next line.
pub fn move_cursor_to_next_line(buf: &mut Vec<u8>)
    ensures
        final(buf)@ == old(buf)@ + next_line_code(),
{
    buf.push(0x1b);
    buf.push(0x5b);
    buf.push(0x31);
    buf.push(0x45);
    assert(buf@ == old(buf)@ + next_line_code());
}

/// Appends the digits of a color.
fn push_color_code(buf: &mut Vec<u8>, color: Color)
    ensures
        final(buf)@ == old(buf)@ + color_code(color),
{
    match color {
        Color::Black => buf.push(0x30),
        Color::DarkRed => buf.push(0x31),
        Color::DarkGreen => buf.push(0x32),
        Color::DarkYellow => buf.push(0x33),
        Color::DarkBlue => buf.push(0x34),
        Color::DarkMagenta => buf.push(0x35),
        Color::DarkGray => buf.push(0x38),
        Color::White => {
            buf.push(0x31);
            buf.push(0x35);
        },
    }
    assert(buf@ == old(buf)@ + color_code(color));
}

/// Appends the code that sets the background color.
pub fn set_background_color(buf: &mut Vec<u8>, color: Color)
    ensures
        final(buf)@ == old(buf)@ + background_code(color),
{
    buf.push(0x1b);
    buf.push(0x5b);
    buf.push(0x34);
    buf.push(0x38);
    buf.push(0x3b);
    buf.push(0x35);
    buf.push(0x3b);
    let ghost mid = buf@;
    push_color_code(buf, color);
    buf.push(0x6d);
    assert(buf@ == old(buf)@ + background_code(color));
}

/// Appends the code that sets the foreground color.
pub fn set_foreground_color(buf: &mut Vec<u8>, color: Color)
    ensures
        final(buf)@ == old(buf)@ + foreground_code(color),
{
    buf.push(0x1b);
    buf.push(0x5b);
    buf.push(0x33);
    buf.push(0x38);
    buf.push(0x3b);
    buf.push(0x35);
    buf.push(0x3b);
    push_color_code(buf, color);
    buf.push(0x6d);
    assert(buf@ == old(buf)@ + foreground_code(color));
}

/// Appends bytes.
pub fn push_bytes(buf: &mut Vec<u8>, bytes: &[u8])
    ensures
        final(buf)@ == old(buf)@ + bytes@,
{
    let mut i: usize = 0;
    while i < bytes.len()
        invariant
            i <= bytes@.len(),
            buf@ == old(buf)@ + bytes@.take(i as int),
        decreases bytes.len() - i,
    {
        buf.push(bytes[i]);
        assert(bytes@.take(i as int + 1) == bytes@.take(i as int).push(bytes@[i as int]));
        i = i + 1;
    }
    assert(bytes@.take(bytes@.len() as int) == bytes@);
}

/// Appends the UTF-8 bytes of a text.
pub fn push_str(buf: &mut Vec<u8>, s: &str)
    ensures
        final(buf)@ == old(buf)@ + utf8(s@),
{
    push_bytes(buf, s.as_bytes());
}

/// Appends `n` spaces.
pub fn push_spaces(buf: &mut Vec<u8>, n: usize)
    ensures
        final(buf)@ == old(buf)@ + Seq::new(n as nat, |i: int| 0x20u8),
{
    let mut i: usize = 0;
    while i < n
        invariant
            i <= n,
            buf@ == old(buf)@ + Seq::new(i as nat, |k: int| 0x20u8),
        decreases n - i,
    {
        buf.push(0x20);
        i = i + 1;
        assert(buf@ == old(buf)@ + Seq::new(i as nat, |k: int| 0x20u8));
    }
}

/// The screens the header lists, with the keys that switch to them.
pub open spec fn mode_tabs() -> Seq<(Seq<char>, u8)> {
    seq![("status"@, 0x73u8), ("log"@, 0x6cu8), ("branches"@, 0x62u8), ("tags"@, 0x74u8)]
}

/// The screen and key of the `i`-th tab.
fn mode_tab(i: usize) -> (res: (&'static str, u8))
    requires
        i < 4,
    ensures
        res.0@ == mode_tabs()[i as int].0,
        res.1 == mode_tabs()[i as int].1,
{
    match i {
        0 => ("status", 0x73),
        1 => ("log", 0x6c),
        2 => ("branches", 0x62),
        _ => ("tags", 0x74),
    }
}

/// The bytes of a tab: `[key]name `.
pub open spec fn tab_bytes(tab: (Seq<char>, u8)) -> Seq<u8> {
    seq![0x5bu8, tab.1, 0x5du8] + utf8(tab.0) + seq![0x20u8]
}

/// The bytes of a run of tabs.
pub open spec fn tabs_bytes(tabs: Seq<(Seq<char>, u8)>) -> Seq<u8>
    decreases tabs.len(),
{
    if tabs.len() == 0 {
        seq![]
    } else {
        tabs_bytes(tabs.drop_last()) + tab_bytes(tabs.last())
    }
}

/// The position of the current screen among the tabs, if it is one of them.
pub open spec fn current_tab(name: Seq<char>) -> Option<int> {
    if mode_tabs()[0].0 == name {
        Some(0)
    } else if mode_tabs()[1].0 == name {
        Some(1)
    } else if mode_tabs()[2].0 == name {
        Some(2)
    } else if mode_tabs()[3].0 == name {
        Some(3)
    } else {
        None
    }
}

/// The tabs but the one at `current` (all of them when `current` is past the last).
pub open spec fn tabs_except(current: int) -> Seq<(Seq<char>, u8)> {
    if 0 <= current < 4 {
        mode_tabs().take(current) + mode_tabs().skip(current + 1)
    } else {
        mode_tabs()
    }
}

/// The tabs other than the current screen's, in order.
pub open spec fn other_tabs(name: Seq<char>) -> Seq<(Seq<char>, u8)> {
    match current_tab(name) {
        Some(i) => tabs_except(i),
        None => tabs_except(4),
    }
}

/// The tabs but the one at `current`, among the first `i`.
pub open spec fn tabs_except_upto(current: int, i: int) -> Seq<(Seq<char>, u8)> {
    if current < i {
        mode_tabs().take(current) + mode_tabs().subrange(current + 1, i)
    } else {
        mode_tabs().take(i)
    }
}

/// `n`, or the largest `usize` when it is larger.
pub open spec fn capped(n: int) -> int {
    if n > usize::MAX {
        usize::MAX as int
    } else {
        n
    }
}

/// The position of the current screen among the tabs, or 4 when it is none of them.
fn find_current_tab(current_mode_name: &str) -> (res: usize)
    ensures
        res <= 4,
        res < 4 ==> current_tab(current_mode_name@) == Some(res as int),
        res == 4 ==> current_tab(current_mode_name@) is None,
{
    let mut i: usize = 0;
    while i < 4
        invariant
            i <= 4,
            forall|k: int| 0 <= k < i ==> mode_tabs()[k].0 != current_mode_name@,
        decreases 4 - i,
    {
        let (tab, _) = mode_tab(i);
        if crate::text::str_equal(tab, current_mode_name) {
            return i;
        }
        i = i + 1;
    }
    4
}

/// The bytes the tabs but the one at `current` take, capped.
fn tabs_len(current: usize) -> (res: usize)
    requires
        current <= 4,
    ensures
        res == capped(tabs_bytes(tabs_except(current as int)).len() as int),
{
    let mut len: usize = 0;
    let mut i: usize = 0;
    while i < 4
        invariant
            i <= 4,
            current <= 4,
            len == capped(tabs_bytes(tabs_except_upto(current as int, i as int)).len() as int),
        decreases 4 - i,
    {
        let (tab, _) = mode_tab(i);
        proof {
            let t = tabs_except_upto(current as int, i as int);
            let t2 = tabs_except_upto(current as int, i as int + 1);
            if i != current {
                assert(t2 == t.push(mode_tabs()[i as int]));
                assert(t2.drop_last() == t);
                assert(tabs_bytes(t2).len() == tabs_bytes(t).len() + utf8(mode_tabs()[i as int].0).len() + 4);
            } else {
                assert(t2 == t);
            }
        }
        if i != current {
            let n = crate::text::str_byte_len(tab);
            let l1 = len.saturating_add(n);
            assert(l1 == capped(tabs_bytes(tabs_except_upto(current as int, i as int)).len() + n));
            len = l1.saturating_add(4);
        }
        i = i + 1;
    }
    assert(tabs_except_upto(current as int, 4) == tabs_except(current as int));
    len
}

/// Appends the tabs but the one at `current`.
fn push_tabs(buf: &mut Vec<u8>, current: usize)
    requires
        current <= 4,
    ensures
        final(buf)@ == old(buf)@ + tabs_bytes(tabs_except(current as int)),
{
    let mut i: usize = 0;
    while i < 4
        invariant
            i <= 4,
            current <= 4,
            buf@ == old(buf)@ + tabs_bytes(tabs_except_upto(current as int, i as int)),
        decreases 4 - i,
    {
        let (tab, key) = mode_tab(i);
        proof {
            let t = tabs_except_upto(current as int, i as int);
            let t2 = tabs_except_upto(current as int, i as int + 1);
            if i != current {
                assert(t2 == t.push(mode_tabs()[i as int]));
                assert(t2.drop_last() == t);
            } else {
                assert(t2 == t);
            }
        }
        if i != current {
            let ghost b0 = buf@;
            buf.push(0x5b);
            buf.push(key);
            buf.push(0x5d);
            push_str(buf, tab);
            buf.push(0x20);
            assert(buf@ == b0 + tab_bytes(mode_tabs()[i as int]));
        }
        i = i + 1;
    }
    assert(tabs_except_upto(current as int, 4) == tabs_except(current as int));
}

/// Appends the help texts cut to fit `available` bytes, with spaces between them.
fn push_help(buf: &mut Vec<u8>, left: &[u8], right: &[u8], available: usize)
    requires
        available <= 0xffff,
    ensures
        ({
            let (l, r) = fitted_help(left@, right@, available as int);
            final(buf)@ == old(buf)@ + l + Seq::new((1 + available - l.len() - r.len()) as nat, |i: int| 0x20u8) + r
        }),
{
    let (left_len, right_len) = if left.len() > available {
        (available, 0)
    } else if right.len() > available - left.len() {
        (left.len(), available - left.len())
    } else {
        (left.len(), right.len())
    };
    let ghost fitted = fitted_help(left@, right@, available as int);
    assert(fitted.0 == left@.take(left_len as int));
    assert(fitted.1 == right@.take(right_len as int));
    push_bytes(buf, slice_prefix(left, left_len));
    push_spaces(buf, 1 + available - left_len - right_len);
    push_bytes(buf, slice_prefix(right, right_len));
}

/// The first `n` bytes.
fn slice_prefix(bytes: &[u8], n: usize) -> (res: &[u8])
    requires
        n <= bytes@.len(),
    ensures
        res@ == bytes@.take(n as int),
{
    let (a, _) = bytes.split_at(n);
    a
}

/// `width - used`, or zero.
pub open spec fn saturating_sub(width: int, used: int) -> int {
    if width > used {
        width - used
    } else {
        0
    }
}

/// The two help texts cut to fit `available` bytes: the left one first, the right one
/// shortened from its end.
pub open spec fn fitted_help(left: Seq<u8>, right: Seq<u8>, available: int) -> (Seq<u8>, Seq<u8>) {
    if left.len() > available {
        (left.take(available), seq![])
    } else if left.len() + right.len() > available {
        (left, right.take(right.len() - (left.len() + right.len() - available)))
    } else {
        (left, right)
    }
}

/// The start of the header: the spinner, then the current screen's name.
pub open spec fn title_bytes(name: Seq<char>, spinner: u8) -> Seq<u8> {
    cursor_zero_code() + background_code(Color::Black) + foreground_code(Color::DarkYellow) + seq![
        0x20u8,
        spinner,
        0x20u8,
    ] + background_code(Color::DarkYellow) + foreground_code(Color::Black) + seq![0x20u8] + utf8(name) + seq![
        0x20u8,
    ] + background_code(Color::Black) + foreground_code(Color::DarkYellow)
}

/// The rest of the header's first line: spaces, then the tabs of the other screens at the
/// right of a line `width` columns wide.
pub open spec fn tab_line_bytes(name: Seq<char>, width: int) -> Seq<u8> {
    let tabs = other_tabs(name);
    let used = (tabs_bytes(tabs).len() + 5 + utf8(name).len()) as int;
    Seq::new(saturating_sub(width, used) as nat, |i: int| 0x20u8) + tabs_bytes(tabs)
}

/// The help line: the left help, spaces, and the right help, cut to `width - 1` bytes.
pub open spec fn help_bytes(left: Seq<u8>, right: Seq<u8>, width: int) -> Seq<u8> {
    let available = saturating_sub(width, 1);
    let (l, r) = fitted_help(left, right, available);
    l + Seq::new((1 + available - l.len() - r.len()) as nat, |i: int| 0x20u8) + r
}

/// The header: the spinner and the current screen's name, then the other screens' tabs at
/// the right of the first line; on the second line the left help and the right help at the
/// right, both cut to the width.
pub open spec fn header_bytes(name: Seq<char>, left: Seq<u8>, right: Seq<u8>, spinner: u8, width: int) -> Seq<u8> {
    title_bytes(name, spinner) + tab_line_bytes(name, width) + clear_line_code() + next_line_code()
        + background_code(Color::DarkYellow) + foreground_code(Color::Black) + help_bytes(left, right, width)
        + next_line_code() + background_code(Color::Black) + foreground_code(Color::White)
}

/// The bytes that draw one character of a line: a tab as four spaces.
pub open spec fn char_bytes(c: char) -> Seq<u8> {
    if c == '\t' {
        seq![0x20u8, 0x20u8, 0x20u8, 0x20u8]
    } else {
        utf8(seq![c])
    }
}

/// The columns one character of a line takes.
pub open spec fn char_width(c: char) -> int {
    if c == '\t' {
        4
    } else {
        1
    }
}

/// Drawing the characters `cs` from column `x` with `count` rows so far on a screen `width`
/// columns wide: the bytes, the column reached and the rows counted (one more each time the
/// column reaches the width, which wraps it).
pub open spec fn line_drawn(cs: Seq<char>, x: int, count: int, width: int) -> (Seq<u8>, int, int)
    decreases cs.len(),
{
    if cs.len() == 0 {
        (seq![], x, count)
    } else {
        let x1 = x + char_width(cs[0]);
        let (x2, c2) = if x1 >= width {
            (x1 - width, count + 1)
        } else {
            (x1, count)
        };
        let rest = line_drawn(cs.drop_first(), x2, c2, width);
        (char_bytes(cs[0]) + rest.0, rest.1, rest.2)
    }
}

/// Drawing lines from `count` rows: each line, then a clear to its end and a new line; it
/// stops once the rows fill all but one row of the `height`.
pub open spec fn lines_drawn(ls: Seq<Seq<char>>, count: int, width: int, height: int) -> (Seq<u8>, int)
    decreases ls.len(),
{
    if ls.len() == 0 {
        (seq![], count)
    } else {
        let d = line_drawn(ls[0], 0, count, width);
        let c = d.2 + 1;
        let bytes = d.0 + clear_line_code() + next_line_code();
        if c + 1 >= height {
            (bytes, c)
        } else {
            let rest = lines_drawn(ls.drop_first(), c, width, height);
            (bytes + rest.0, rest.1)
        }
    }
}

/// The text of a filter drawn in `available` columns: all of it, or its last `available + 1`
/// characters when it is longer, and whether it was cut.
pub open spec fn filter_shown(text: Seq<char>, available: int) -> (Seq<char>, bool) {
    if text.len() > available {
        (text.skip(text.len() - available - 1), true)
    } else {
        (text, false)
    }
}

/// Appends the start of the header.
fn push_title(buf: &mut Vec<u8>, name: &str, spinner: u8)
    ensures
        final(buf)@ == old(buf)@ + title_bytes(name@, spinner),
{
    move_cursor_to_zero(buf);
    set_background_color(buf, Color::Black);
    set_foreground_color(buf, Color::DarkYellow);
    buf.push(0x20);
    buf.push(spinner);
    buf.push(0x20);
    set_background_color(buf, Color::DarkYellow);
    set_foreground_color(buf, Color::Black);
    buf.push(0x20);
    push_str(buf, name);
    buf.push(0x20);
    set_background_color(buf, Color::Black);
    set_foreground_color(buf, Color::DarkYellow);
    assert(buf@ == old(buf)@ + title_bytes(name@, spinner));
}

/// Appends the rest of the header's first line.
fn push_tab_line(buf: &mut Vec<u8>, name: &str, width: usize)
    requires
        width <= 0xffff,
    ensures
        final(buf)@ == old(buf)@ + tab_line_bytes(name@, width as int),
{
    let current = find_current_tab(name);
    let tabs_len = tabs_len(current);
    let name_len = crate::text::str_byte_len(name);
    let used = tabs_len.saturating_add(5).saturating_add(name_len);
    let spacer = if width > used {
        width - used
    } else {
        0
    };
    assert(tabs_except(current as int) == other_tabs(name@));
    push_spaces(buf, spacer);
    push_tabs(buf, current);
    assert(buf@ == old(buf)@ + tab_line_bytes(name@, width as int));
}

/// What draws the screens: the bytes written so far and the size of the viewport.
pub struct Drawer {
    pub buf: Vec<u8>,
    pub viewport_size: (u16, u16),
}

proof fn lemma_line_drawn_count(cs: Seq<char>, x: int, count: int, width: int)
    ensures
        count <= line_drawn(cs, x, count, width).2 <= count + cs.len(),
    decreases cs.len(),
{
    if cs.len() > 0 {
        let x1 = x + char_width(cs[0]);
        let (x2, c2) = if x1 >= width {
            (x1 - width, count + 1)
        } else {
            (x1, count)
        };
        lemma_line_drawn_count(cs.drop_first(), x2, c2, width);
    }
}

/// The bytes of texts written one after another.
pub open spec fn written(texts: Seq<Seq<char>>) -> Seq<u8>
    decreases texts.len(),
{
    if texts.len() == 0 {
        Seq::empty()
    } else {
        written(texts.drop_last()) + utf8(texts.last())
    }
}

proof fn lemma_written_prefix(bufs: Seq<Seq<u8>>, texts: Seq<Seq<char>>, n: int)
    requires
        bufs.len() == texts.len() + 1,
        bufs[0] == Seq::<u8>::empty(),
        forall|i: int| 0 <= i < texts.len() ==> #[trigger] bufs[i + 1] == bufs[i] + utf8(texts[i]),
        0 <= n <= texts.len(),
    ensures
        bufs[n] == written(texts.take(n)),
    decreases n,
{
    if n == 0 {
        assert(texts.take(0) =~= Seq::<Seq<char>>::empty());
    } else {
        lemma_written_prefix(bufs, texts, n - 1);
        assert(texts.take(n).drop_last() =~= texts.take(n - 1));
        assert(bufs[(n - 1) + 1] == bufs[n - 1] + utf8(texts[n - 1]));
    }
}

/// A run of writes on a new drawer: where `drawers[0]` is what `Drawer::new` made and each
/// `drawers[i + 1]` is the drawer after writing `texts[i]` with `Drawer::str`, the buffer that
/// `take_buf` hands out at the end holds exactly the bytes of the texts, in order; nothing of
/// the buffer the drawer was made with is left.
pub proof fn lemma_run_of_writes(drawers: Seq<Drawer>, texts: Seq<Seq<char>>)
    requires
        drawers.len() == texts.len() + 1,
        drawers[0].buf@ == Seq::<u8>::empty(),
        forall|i: int|
            0 <= i < texts.len() ==> #[trigger] drawers[i + 1].buf@ == drawers[i].buf@ + utf8(
                texts[i],
            ),
    ensures
        drawers.last().buf@ == written(texts),
{
    let bufs = Seq::new(drawers.len(), |i: int| drawers[i].buf@);
    assert forall|i: int| 0 <= i < texts.len() implies #[trigger] bufs[i + 1] == bufs[i] + utf8(
        texts[i],
    ) by {
        assert(drawers[i + 1].buf@ == drawers[i].buf@ + utf8(texts[i]));
    }
    lemma_written_prefix(bufs, texts, texts.len() as int);
    assert(texts.take(texts.len() as int) =~= texts);
}

impl Drawer {
    /// A drawer that writes into `buf`, emptied first.
    pub fn new(buf: Vec<u8>, viewport_size: (u16, u16)) -> (res: Drawer)
        ensures
            res.buf@ == Seq::<u8>::empty(),
            res.viewport_size == viewport_size,
    {
        let mut buf = buf;
        buf.clear();
        Drawer { buf, viewport_size }
    }

    /// The bytes written.
    pub fn take_buf(self) -> (res: Vec<u8>)
        ensures
            res@ == self.buf@,
    {
        self.buf
    }

    /// Clears the screen below, on black.
    pub fn clear_to_bottom(&mut self)
        ensures
            final(self).buf@ == old(self).buf@ + background_code(Color::Black) + clear_end_code(),
            final(self).viewport_size == old(self).viewport_size,
    {
        set_background_color(&mut self.buf, Color::Black);
        clear_to_end(&mut self.buf);
    }

    /// Writes a text.
    pub fn str(&mut self, line: &str)
        ensures
            final(self).buf@ == old(self).buf@ + utf8(line@),
            final(self).viewport_size == old(self).viewport_size,
    {
        push_str(&mut self.buf, line);
    }

    /// Clears the rest of the line and moves to the next one.
    pub fn next_line(&mut self)
        ensures
            final(self).buf@ == old(self).buf@ + clear_line_code() + next_line_code(),
            final(self).viewport_size == old(self).viewport_size,
    {
        clear_until_new_line(&mut self.buf);
        move_cursor_to_next_line(&mut self.buf);
    }

    /// Draws the header of the current screen.
    #[verifier::rlimit(40)]
    pub fn header(&mut self, current_mode_name: &str, left_help: &str, right_help: &str, spinner: u8)
        ensures
            final(self).buf@ == old(self).buf@ + header_bytes(
                current_mode_name@,
                utf8(left_help@),
                utf8(right_help@),
                spinner,
                old(self).viewport_size.0 as int,
            ),
            final(self).viewport_size == old(self).viewport_size,
    {
        let width = self.viewport_size.0 as usize;
        push_title(&mut self.buf, current_mode_name, spinner);
        push_tab_line(&mut self.buf, current_mode_name, width);
        clear_until_new_line(&mut self.buf);
        move_cursor_to_next_line(&mut self.buf);
        set_background_color(&mut self.buf, Color::DarkYellow);
        set_foreground_color(&mut self.buf, Color::Black);
        let available = if width >= 1 {
            width - 1
        } else {
            0
        };
        push_help(&mut self.buf, left_help.as_bytes(), right_help.as_bytes(), available);
        move_cursor_to_next_line(&mut self.buf);
        set_background_color(&mut self.buf, Color::Black);
        set_foreground_color(&mut self.buf, Color::White);
        assert(self.buf@ == old(self).buf@ + header_bytes(
            current_mode_name@,
            utf8(left_help@),
            utf8(right_help@),
            spinner,
            old(self).viewport_size.0 as int,
        ));
    }

    /// Draws the lines of a text from its scroll on: tabs as four spaces, each line cleared
    /// to its end; it stops when the lines fill all rows but one. Returns the rows drawn,
    /// counting a row more each time a line wraps.
    pub fn output(&mut self, output: &Output) -> (res: usize)
        requires
            forall|i: int| 0 <= i < lines_spec(output.text@).len() ==> #[trigger] lines_spec(output.text@)[i].len()
                <= 0x1000_0000,
        ensures
            ({
                let ls = lines_spec(output.text@);
                let start = if output.scroll <= ls.len() { output.scroll as int } else { ls.len() as int };
                let d = lines_drawn(ls.skip(start), 0, old(self).viewport_size.0 as int, old(self).viewport_size.1 as int);
                final(self).buf@ == old(self).buf@ + d.0 && res == d.1
            }),
            final(self).viewport_size == old(self).viewport_size,
    {
        let all = lines(output.text.as_str());
        let ghost ls = views(all@);
        let width = self.viewport_size.0 as usize;
        let height = self.viewport_size.1 as usize;
        let start = if output.scroll <= all.len() {
            output.scroll
        } else {
            all.len()
        };
        let ghost total = lines_drawn(ls.skip(start as int), 0, width as int, height as int);
        let mut count: usize = 0;
        let mut k = start;
        let ghost b0 = self.buf@;
        while k < all.len()
            invariant
                start <= k <= all.len(),
                ls == views(all@),
                ls == lines_spec(output.text@),
                forall|i: int| 0 <= i < ls.len() ==> #[trigger] ls[i].len() <= 0x1000_0000,
                count < 0x10000,
                width == self.viewport_size.0,
                height == self.viewport_size.1,
                self.viewport_size == old(self).viewport_size,
                b0 == old(self).buf@,
                start == (if output.scroll <= ls.len() { output.scroll as int } else { ls.len() as int }),
                total == lines_drawn(ls.skip(start as int), 0, width as int, height as int),
                b0 + total.0 == self.buf@ + lines_drawn(ls.skip(k as int), count as int, width as int, height as int).0,
                total.1 == lines_drawn(ls.skip(k as int), count as int, width as int, height as int).1,
            decreases all.len() - k,
        {
            let ghost rest = ls.skip(k as int);
            assert(rest[0] == all[k as int]@);
            assert(rest.drop_first() == ls.skip(k as int + 1));
            let ghost bk = self.buf@;
            let c1 = self.draw_line(all[k].as_str(), count);
            proof {
                lemma_line_drawn_count(all[k as int]@, 0, count as int, width as int);
            }
            self.next_line();
            let c2 = c1 + 1;
            assert(self.buf@ == bk + (line_drawn(rest[0], 0, count as int, width as int).0 + clear_line_code()
                + next_line_code()));
            assert(lines_drawn(rest, count as int, width as int, height as int).0 == (line_drawn(
                rest[0],
                0,
                count as int,
                width as int,
            ).0 + clear_line_code() + next_line_code()) + (if c2 + 1 >= height {
                seq![]
            } else {
                lines_drawn(rest.drop_first(), c2 as int, width as int, height as int).0
            }));
            if c2 + 1 >= height {
                assert(lines_drawn(rest, count as int, width as int, height as int).1 == c2);
                assert(self.buf@ == bk + lines_drawn(rest, count as int, width as int, height as int).0);
                assert(self.buf@ == b0 + total.0);
                return c2;
            }
            count = c2;
            k = k + 1;
        }
        count
    }

    /// Draws one line from the left with `count` rows so far; returns the rows then.
    fn draw_line(&mut self, line: &str, count: usize) -> (res: usize)
        requires
            line@.len() <= 0x1000_0000,
            count < 0x10000,
        ensures
            final(self).buf@ == old(self).buf@ + line_drawn(line@, 0, count as int, old(self).viewport_size.0 as int).0,
            res == line_drawn(line@, 0, count as int, old(self).viewport_size.0 as int).2,
            final(self).viewport_size == old(self).viewport_size,
    {
        let cs = chars_of(line);
        let width = self.viewport_size.0 as usize;
        let ghost total = line_drawn(cs@, 0, width as int, width as int);
        let ghost whole = line_drawn(cs@, 0, count as int, width as int);
        let mut x: usize = 0;
        let mut c = count;
        let mut j: usize = 0;
        let ghost b0 = self.buf@;
        assert(cs@.skip(0) == cs@);
        while j < cs.len()
            invariant
                j <= cs.len(),
                cs@ == line@,
                cs@.len() <= 0x1000_0000,
                x <= 4 * j,
                count <= c <= count + j,
                count < 0x10000,
                width == self.viewport_size.0,
                self.viewport_size == old(self).viewport_size,
                b0 + whole.0 == self.buf@ + line_drawn(cs@.skip(j as int), x as int, c as int, width as int).0,
                whole.2 == line_drawn(cs@.skip(j as int), x as int, c as int, width as int).2,
            decreases cs.len() - j,
        {
            let ch = cs[j];
            let ghost rest = cs@.skip(j as int);
            assert(rest[0] == ch);
            assert(rest.drop_first() == cs@.skip(j as int + 1));
            if ch == '\t' {
                self.buf.push(0x20);
                self.buf.push(0x20);
                self.buf.push(0x20);
                self.buf.push(0x20);
                x = x + 4;
            } else {
                let mut one = String::new();
                string_push(&mut one, ch);
                assert(one@ == seq![ch]);
                push_str(&mut self.buf, one.as_str());
                x = x + 1;
            }
            if x >= width {
                x = x - width;
                c = c + 1;
            }
            j = j + 1;
        }
        c
    }

    /// Draws a line being typed: the input, a block for the cursor, and the placeholder in
    /// gray when the input is empty.
    pub fn readline(&mut self, readline: &ReadLine, placeholder: &str)
        ensures
            final(self).buf@ == old(self).buf@ + background_code(Color::Black) + foreground_code(Color::White) + utf8(
                readline.input@,
            ) + background_code(Color::DarkRed) + seq![0x20u8] + background_code(Color::Black) + (if readline.input@.len()
                == 0 {
                foreground_code(Color::DarkGray) + utf8(placeholder@)
            } else {
                seq![]
            }),
            final(self).viewport_size == old(self).viewport_size,
    {
        let input = readline.input();
        set_background_color(&mut self.buf, Color::Black);
        set_foreground_color(&mut self.buf, Color::White);
        push_str(&mut self.buf, input);
        set_background_color(&mut self.buf, Color::DarkRed);
        self.buf.push(0x20);
        set_background_color(&mut self.buf, Color::Black);
        let ghost mid = self.buf@;
        if input.unicode_len() == 0 {
            set_foreground_color(&mut self.buf, Color::DarkGray);
            push_str(&mut self.buf, placeholder);
        }
        assert(self.buf@ == mid + (if readline.input@.len() == 0 {
            foreground_code(Color::DarkGray) + utf8(placeholder@)
        } else {
            seq![]
        }));
    }

    /// Draws the filter bar when a filter is set: `filter:` and the text (its end when it is
    /// too long), with a cursor block when it has focus. Returns the rows it takes.
    pub fn filter(&mut self, filter: &Filter) -> (res: usize)
        ensures
            final(self).buf@ == old(self).buf@ + filter_bytes(*filter, old(self).viewport_size),
            filter.text@.len() == 0 ==> final(self).buf@ == old(self).buf@ && res == 0,
            filter.text@.len() > 0 ==> ({
                let available = saturating_sub(old(self).viewport_size.0 as int, 9);
                let (shown, trimmed) = filter_shown(filter.text@, available);
                &&& final(self).buf@ == old(self).buf@ + background_code(Color::DarkRed) + foreground_code(Color::White)
                    + utf8("filter:"@) + utf8(shown) + (if filter.focus {
                    background_code(Color::White) + seq![0x20u8] + (if !trimmed {
                        background_code(Color::DarkRed)
                    } else {
                        seq![]
                    })
                } else {
                    seq![]
                }) + clear_line_code() + next_line_code()
                &&& res == 1
            }),
            final(self).viewport_size == old(self).viewport_size,
    {
        if !filter.is_filtering() {
            return 0;
        }
        set_background_color(&mut self.buf, Color::DarkRed);
        set_foreground_color(&mut self.buf, Color::White);
        push_str(&mut self.buf, "filter:");
        let width = self.viewport_size.0 as usize;
        let available = if width > 9 {
            width - 9
        } else {
            0
        };
        let n = filter.text.len();
        let (start, trimmed) = if n > available {
            (n - available - 1, true)
        } else {
            (0, false)
        };
        let shown = string_of(&filter.text, start, n);
        assert(filter.text@.subrange(start as int, n as int) == filter_shown(filter.text@, available as int).0);
        push_str(&mut self.buf, shown.as_str());
        let ghost mid = self.buf@;
        if filter.has_focus() {
            set_background_color(&mut self.buf, Color::White);
            self.buf.push(0x20);
            if !trimmed {
                set_background_color(&mut self.buf, Color::DarkRed);
            }
        }
        let ghost after_focus = self.buf@;
        self.next_line();
        assert(self.buf@ == after_focus + clear_line_code() + next_line_code());
        1
    }

    /// Draws a list from its scroll on with `header_height` rows above it: the entry under
    /// the cursor on magenta (drawn in full when asked), each entry cleared to the end of its
    /// line; it stops when the entries fill the rows left.
    pub fn select_menu<E: SelectEntryDraw>(&mut self, select: &SelectMenu, header_height: usize, show_full_hovered_entry: bool, entries: &Vec<E>)
        ensures
            final(self).buf@ == old(self).buf@ + background_code(Color::Black) + foreground_code(Color::White) + menu_drawn(
                entries@,
                select.scroll as int,
                select.cursor as int,
                0,
                saturating_sub(old(self).viewport_size.1 as int, 3 + header_height),
                show_full_hovered_entry,
                old(self).viewport_size.0,
            ).0,
            final(self).viewport_size == old(self).viewport_size,
    {
        set_background_color(&mut self.buf, Color::Black);
        set_foreground_color(&mut self.buf, Color::White);
        let height = self.viewport_size.1 as usize;
        let max_line_count = if header_height < height && height - header_height > 3 {
            height - header_height - 3
        } else {
            0
        };
        let ghost width = self.viewport_size.0;
        let ghost total = menu_drawn(entries@, select.scroll as int, select.cursor as int, 0, max_line_count as int, show_full_hovered_entry, width);
        let ghost b0 = self.buf@;
        let mut line_count: usize = 0;
        let mut i = select.scroll;
        while i < entries.len()
            invariant
                select.scroll <= i,
                line_count < 0x10000 || line_count == 0,
                line_count <= max_line_count || (line_count == 0),
                max_line_count < 0x10000,
                width == self.viewport_size.0,
                self.viewport_size == old(self).viewport_size,
                b0 == old(self).buf@ + background_code(Color::Black) + foreground_code(Color::White),
                max_line_count == saturating_sub(old(self).viewport_size.1 as int, 3 + header_height),
                total == menu_drawn(entries@, select.scroll as int, select.cursor as int, 0, max_line_count as int, show_full_hovered_entry, width),
                b0 + total.0 == self.buf@ + menu_drawn(entries@, i as int, select.cursor as int, line_count as int, max_line_count as int, show_full_hovered_entry, width).0,
            decreases entries.len() - i,
        {
            let hovered = i == select.cursor;
            let ghost bi = self.buf@;
            if hovered {
                set_background_color(&mut self.buf, Color::DarkMagenta);
            }
            let n = entries[i].draw(self, hovered, hovered && show_full_hovered_entry);
            clear_until_new_line(&mut self.buf);
            move_cursor_to_next_line(&mut self.buf);
            if hovered {
                set_background_color(&mut self.buf, Color::Black);
            }
            let ghost d = entries@[i as int].drawn(hovered, hovered && show_full_hovered_entry, width);
            assert(self.buf@ == bi + ((if hovered {
                background_code(Color::DarkMagenta)
            } else {
                seq![]
            }) + d.0 + clear_line_code() + next_line_code() + (if hovered {
                background_code(Color::Black)
            } else {
                seq![]
            })));
            line_count = line_count + n;
            assert(menu_drawn(entries@, i as int, select.cursor as int, line_count - n, max_line_count as int, show_full_hovered_entry, width).0
                == ((if hovered {
                background_code(Color::DarkMagenta)
            } else {
                seq![]
            }) + d.0 + clear_line_code() + next_line_code() + (if hovered {
                background_code(Color::Black)
            } else {
                seq![]
            })) + (if line_count >= max_line_count {
                seq![]
            } else {
                menu_drawn(entries@, i as int + 1, select.cursor as int, line_count as int, max_line_count as int, show_full_hovered_entry, width).0
            }));
            if line_count >= max_line_count {
                assert(self.buf@ == bi + menu_drawn(entries@, i as int, select.cursor as int, line_count - n, max_line_count as int, show_full_hovered_entry, width).0);
                assert(self.buf@ == b0 + total.0);
                return;
            }
            i = i + 1;
        }
    }
}

/// How a list entry draws itself: the bytes, and the rows they take.
pub trait SelectEntryDraw {
    /// What drawing the entry writes, and the rows it takes, on a viewport `width` wide.
    spec fn drawn(&self, hovered: bool, full: bool, width: u16) -> (Seq<u8>, int);

    /// Draws the entry; returns the rows it took.
    fn draw(&self, drawer: &mut Drawer, hovered: bool, full: bool) -> (res: usize)
        ensures
            final(drawer).buf@ == old(drawer).buf@ + self.drawn(hovered, full, old(drawer).viewport_size.0).0,
            res == self.drawn(hovered, full, old(drawer).viewport_size.0).1,
            res <= 0xff,
            final(drawer).viewport_size == old(drawer).viewport_size;
}

/// Drawing the entries from the `i`-th with `count` rows so far, the one at `cursor` on
/// magenta; it stops once the rows reach `max`.
pub open spec fn menu_drawn<E: SelectEntryDraw>(es: Seq<E>, i: int, cursor: int, count: int, max: int, full: bool, width: u16) -> (Seq<u8>, int)
    decreases es.len() - i,
{
    if i < 0 || i >= es.len() {
        (seq![], count)
    } else {
        let hovered = i == cursor;
        let d = es[i].drawn(hovered, hovered && full, width);
        let bytes = (if hovered {
            background_code(Color::DarkMagenta)
        } else {
            seq![]
        }) + d.0 + clear_line_code() + next_line_code() + (if hovered {
            background_code(Color::Black)
        } else {
            seq![]
        });
        let c = count + d.1;
        if c >= max {
            (bytes, c)
        } else {
            let rest = menu_drawn(es, i + 1, cursor, c, max, full, width);
            (bytes + rest.0, rest.1)
        }
    }
}

impl SelectEntryDraw for TagEntry {
    open spec fn drawn(&self, hovered: bool, full: bool, width: u16) -> (Seq<u8>, int) {
        (utf8(self.name@), 1)
    }

    fn draw(&self, drawer: &mut Drawer, hovered: bool, full: bool) -> (res: usize) {
        drawer.str(self.name.as_str());
        1
    }
}


/// The first `n` characters of `s`, or all of it.
pub open spec fn take_chars(s: Seq<char>, n: int) -> Seq<char> {
    if s.len() > n {
        s.take(n)
    } else {
        s
    }
}

/// The first `n` characters of `s`, or all of it.
pub fn take_chars_exec(s: &str, n: usize) -> (res: String)
    ensures
        res@ == take_chars(s@, n as int),
{
    let c = chars_of(s);
    let end = if c.len() > n {
        n
    } else {
        c.len()
    };
    assert(c@.subrange(0, end as int) == take_chars(s@, n as int));
    string_of(&c, 0, end)
}

/// What a text draws: its lines from the scroll on.
pub open spec fn output_bytes(output: Output, viewport_size: (u16, u16)) -> Seq<u8> {
    let ls = lines_spec(output.text@);
    let start = if output.scroll <= ls.len() {
        output.scroll as int
    } else {
        ls.len() as int
    };
    lines_drawn(ls.skip(start), 0, viewport_size.0 as int, viewport_size.1 as int).0
}

/// Whether every line of a text is short enough to be drawn.
pub open spec fn drawable(output: Output) -> bool {
    forall|i: int| 0 <= i < lines_spec(output.text@).len() ==> #[trigger] lines_spec(output.text@)[i].len() <= 0x1000_0000
}

/// What the filter bar draws: nothing without a filter text; else `filter:` and the text
/// (its end when it is too long), with a cursor block when it has focus.
pub open spec fn filter_bytes(filter: Filter, viewport_size: (u16, u16)) -> Seq<u8> {
    if filter.text@.len() == 0 {
        seq![]
    } else {
        let available = saturating_sub(viewport_size.0 as int, 9);
        let (shown, trimmed) = filter_shown(filter.text@, available);
        background_code(Color::DarkRed) + foreground_code(Color::White) + utf8("filter:"@) + utf8(shown) + (if filter.focus {
            background_code(Color::White) + seq![0x20u8] + (if !trimmed {
                background_code(Color::DarkRed)
            } else {
                seq![]
            })
        } else {
            seq![]
        }) + clear_line_code() + next_line_code()
    }
}

/// What a line being typed draws.
pub open spec fn readline_bytes(input: Seq<char>, placeholder: Seq<char>) -> Seq<u8> {
    background_code(Color::Black) + foreground_code(Color::White) + utf8(input) + background_code(Color::DarkRed) + seq![
        0x20u8,
    ] + background_code(Color::Black) + (if input.len() == 0 {
        foreground_code(Color::DarkGray) + utf8(placeholder)
    } else {
        seq![]
    })
}

/// What a list draws.
pub open spec fn menu_bytes<E: SelectEntryDraw>(select: SelectMenu, header_height: int, full: bool, entries: Seq<E>, viewport_size: (u16, u16)) -> Seq<u8> {
    background_code(Color::Black) + foreground_code(Color::White) + menu_drawn(
        entries,
        select.scroll as int,
        select.cursor as int,
        0,
        saturating_sub(viewport_size.1 as int, 3 + header_height),
        full,
        viewport_size.0,
    ).0
}

/// The label of a status in a list: its name, or an unknown status's whole text.
pub open spec fn status_label(status: FileStatus) -> Seq<char> {
    match status {
        FileStatus::Unknown(s) => s@,
        _ => crate::backend::status_text(status),
    }
}

/// The label of a status in a list.
pub fn status_label_exec(status: &FileStatus) -> (res: &str)
    ensures
        res@ == status_label(*status),
{
    match status {
        FileStatus::Unknown(s) => s.as_str(),
        _ => status.as_str(),
    }
}

/// A file entry drawn: `+` when selected, the status in brackets, the name.
pub open spec fn entry_bytes(e: RevisionEntry) -> Seq<u8> {
    seq![if e.selected { 0x2bu8 } else { 0x20u8 }, 0x20u8, 0x5bu8] + utf8(status_label(e.status)) + seq![0x5du8, 0x20u8]
        + utf8(e.name@)
}

impl SelectEntryDraw for RevisionEntry {
    open spec fn drawn(&self, hovered: bool, full: bool, width: u16) -> (Seq<u8>, int) {
        (entry_bytes(*self), 1)
    }

    fn draw(&self, drawer: &mut Drawer, hovered: bool, full: bool) -> (res: usize) {
        drawer.buf.push(if self.selected {
            0x2b
        } else {
            0x20
        });
        drawer.buf.push(0x20);
        drawer.buf.push(0x5b);
        push_str(&mut drawer.buf, status_label_exec(&self.status));
        drawer.buf.push(0x5d);
        drawer.buf.push(0x20);
        push_str(&mut drawer.buf, self.name.as_str());
        assert(drawer.buf@ == old(drawer).buf@ + entry_bytes(*self));
        1
    }
}

/// The color of a field of a log entry: white under the cursor.
pub open spec fn field_color(color: Color, hovered: bool) -> Color {
    if hovered {
        Color::White
    } else {
        color
    }
}

/// The columns a log entry takes besides its message: graph, hash, date, author (at most
/// twelve characters), one space after each, and the references in parentheses with a space.
pub open spec fn log_prefix_len(e: LogEntry) -> int {
    (e.graph@.len() + 1 + e.hash@.len() + 1 + e.date@.len() + 1 + take_chars(e.author@, 12).len() + 1 + (if e.refs@.len() > 0 {
        e.refs@.len() + 3
    } else {
        0
    })) as int
}

/// The fields of a log entry before its references, each in its color and followed by a
/// space: graph, hash, date and author (at most twelve characters).
pub open spec fn log_head(e: LogEntry, hovered: bool) -> Seq<u8> {
    foreground_code(field_color(Color::White, hovered)) + utf8(e.graph@) + seq![0x20u8] + foreground_code(
        field_color(Color::DarkYellow, hovered),
    ) + utf8(e.hash@) + seq![0x20u8] + foreground_code(field_color(Color::DarkBlue, hovered)) + utf8(e.date@) + seq![
        0x20u8,
    ] + foreground_code(field_color(Color::DarkGreen, hovered)) + utf8(take_chars(e.author@, 12)) + seq![0x20u8]
}

/// The rest of a log entry: its references in parentheses (when it has any) and the message.
pub open spec fn log_tail(e: LogEntry, hovered: bool, message: Seq<char>) -> Seq<u8> {
    let (open, close) = if e.refs@.len() > 0 {
        (seq![0x28u8], seq![0x29u8, 0x20u8])
    } else {
        (seq![], seq![])
    };
    foreground_code(field_color(Color::DarkRed, hovered)) + open + utf8(e.refs@) + close + foreground_code(
        field_color(Color::White, hovered),
    ) + utf8(message)
}

/// A log entry drawn on a line `width` wide: its fields in their colors, the message cut to
/// what is left of the width.
pub open spec fn log_entry_bytes(e: LogEntry, hovered: bool, width: int) -> Seq<u8> {
    log_head(e, hovered) + log_tail(e, hovered, take_chars(e.message@, saturating_sub(width, log_prefix_len(e))))
}

/// The columns left for the message of a log entry on a line `width` wide.
fn log_message_width(e: &LogEntry, width: usize) -> (res: usize)
    requires
        width <= 0xffff,
    ensures
        res == saturating_sub(width as int, log_prefix_len(*e)),
{
    let author = take_chars_exec(e.author.as_str(), 12);
    let refs_len = e.refs.as_str().unicode_len();
    let refs_part = if refs_len > 0 {
        refs_len.saturating_add(3)
    } else {
        0
    };
    let a = e.graph.as_str().unicode_len().saturating_add(1);
    let b = a.saturating_add(e.hash.as_str().unicode_len()).saturating_add(1);
    let c = b.saturating_add(e.date.as_str().unicode_len()).saturating_add(1);
    let d = c.saturating_add(author.as_str().unicode_len()).saturating_add(1);
    let total = d.saturating_add(refs_part);
    if width > total {
        width - total
    } else {
        0
    }
}

/// Appends a field of a log entry in its color and a space.
fn push_field(buf: &mut Vec<u8>, color: Color, text: &str)
    ensures
        final(buf)@ == old(buf)@ + foreground_code(color) + utf8(text@) + seq![0x20u8],
{
    set_foreground_color(buf, color);
    push_str(buf, text);
    buf.push(0x20);
}

/// The color of a field under the cursor or not.
fn pick_color(color: Color, hovered: bool) -> (res: Color)
    ensures
        res == field_color(color, hovered),
{
    if hovered {
        Color::White
    } else {
        color
    }
}

/// Appends the fields of a log entry before its references.
fn push_log_head(buf: &mut Vec<u8>, e: &LogEntry, hovered: bool)
    ensures
        final(buf)@ == old(buf)@ + log_head(*e, hovered),
{
    let author = take_chars_exec(e.author.as_str(), 12);
    push_field(buf, pick_color(Color::White, hovered), e.graph.as_str());
    push_field(buf, pick_color(Color::DarkYellow, hovered), e.hash.as_str());
    push_field(buf, pick_color(Color::DarkBlue, hovered), e.date.as_str());
    push_field(buf, pick_color(Color::DarkGreen, hovered), author.as_str());
    assert(buf@ == old(buf)@ + log_head(*e, hovered));
}

/// Appends the references and the message of a log entry.
fn push_log_tail(buf: &mut Vec<u8>, e: &LogEntry, hovered: bool, message: &str)
    ensures
        final(buf)@ == old(buf)@ + log_tail(*e, hovered, message@),
{
    set_foreground_color(buf, pick_color(Color::DarkRed, hovered));
    let has_refs = e.refs.as_str().unicode_len() > 0;
    if has_refs {
        buf.push(0x28);
    }
    push_str(buf, e.refs.as_str());
    if has_refs {
        buf.push(0x29);
        buf.push(0x20);
    }
    set_foreground_color(buf, pick_color(Color::White, hovered));
    push_str(buf, message);
    assert(buf@ == old(buf)@ + log_tail(*e, hovered, message@));
}

impl SelectEntryDraw for LogEntry {
    open spec fn drawn(&self, hovered: bool, full: bool, width: u16) -> (Seq<u8>, int) {
        (log_entry_bytes(*self, hovered, width as int), 1)
    }

    fn draw(&self, drawer: &mut Drawer, hovered: bool, full: bool) -> (res: usize) {
        let width = drawer.viewport_size.0 as usize;
        let available = log_message_width(self, width);
        let message = take_chars_exec(self.message.as_str(), available);
        push_log_head(&mut drawer.buf, self, hovered);
        push_log_tail(&mut drawer.buf, self, hovered, message.as_str());
        1
    }
}
} // verus!
