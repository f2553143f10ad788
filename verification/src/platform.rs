use vstd::prelude::*;

verus! {

/// A key the user pressed.
#[derive(PartialEq, Eq, Structural, Clone, Copy, Debug)]
pub enum Key {
    NoKey,
    Backspace,
    Enter,
    Left,
    Right,
    Up,
    Down,
    Home,
    End,
    PageUp,
    PageDown,
    Tab,
    BackTab,
    Delete,
    Insert,
    Char(char),
    Ctrl(char),
    Esc,
}

/// Whether a key submits: enter, a line feed, or control-m.
pub open spec fn submits(key: Key) -> bool {
    key == Key::Enter || key == Key::Char('\n') || key == Key::Ctrl('m')
}

/// Whether a key cancels: escape or control-c.
pub open spec fn cancels(key: Key) -> bool {
    key == Key::Esc || key == Key::Ctrl('c')
}

impl Key {
    /// Whether the key submits.
    pub fn is_submit(&self) -> (res: bool)
        ensures
            res == submits(*self),
    {
        match self {
            Key::Enter => true,
            Key::Char(c) => *c == '\n',
            Key::Ctrl(c) => *c == 'm',
            _ => false,
        }
    }

    /// Whether the key cancels.
    pub fn is_cancel(&self) -> (res: bool)
        ensures
            res == cancels(*self),
    {
        match self {
            Key::Esc => true,
            Key::Ctrl(c) => *c == 'c',
            _ => false,
        }
    }
}

/// A console input event, as the console reports it.
#[derive(PartialEq, Eq, Structural, Clone, Copy, Debug)]
pub enum ConsoleRecord {
    /// A key event: whether the key went down, the modifier state, the virtual key code, the
    /// UTF-16 unit typed, and how many times the key repeated.
    Key { key_down: bool, control_key_state: u32, virtual_key_code: u16, unicode_char: u16, repeat_count: u16 },
    /// The screen buffer changed size.
    BufferSize { x: i16, y: i16 },
    /// Any other event (mouse, menu, focus).
    Other,
}

/// Virtual key codes of the console.
pub open spec fn vk_back() -> int { 0x08 }
pub open spec fn vk_tab() -> int { 0x09 }
pub open spec fn vk_return() -> int { 0x0d }
pub open spec fn vk_escape() -> int { 0x1b }
pub open spec fn vk_space() -> int { 0x20 }
pub open spec fn vk_prior() -> int { 0x21 }
pub open spec fn vk_next() -> int { 0x22 }
pub open spec fn vk_end() -> int { 0x23 }
pub open spec fn vk_home() -> int { 0x24 }
pub open spec fn vk_left() -> int { 0x25 }
pub open spec fn vk_up() -> int { 0x26 }
pub open spec fn vk_right() -> int { 0x27 }
pub open spec fn vk_down() -> int { 0x28 }
pub open spec fn vk_delete() -> int { 0x2e }
pub open spec fn vk_f1() -> int { 0x70 }
pub open spec fn vk_f24() -> int { 0x87 }

/// The modifier bits of the console: either alt key, either control key.
pub open spec fn alt_pressed_mask() -> u32 { 0x0003 }
pub open spec fn ctrl_pressed_mask() -> u32 { 0x000c }

/// The character a single UTF-16 unit stands for: none for a surrogate.
pub open spec fn utf16_unit_char(u: u16) -> Option<char> {
    if 0xd800 <= u <= 0xdfff {
        None
    } else {
        Some(u as char)
    }
}

/// Whether a character is printable ASCII other than space.
pub open spec fn ascii_graphic(c: char) -> bool {
    '!' <= c && c <= '~'
}

/// The key a key-down event with these values stands for, if any: the named keys by their
/// codes, function keys left out, letters with control as control keys and with alt left out,
/// and otherwise the typed character (for keys other than space and letters, only printable
/// ASCII).
pub open spec fn console_key(control_key_state: u32, keycode: u16, unicode_char: u16) -> Option<Key> {
    let k = keycode as int;
    if k == vk_back() {
        Some(Key::Backspace)
    } else if k == vk_return() {
        Some(Key::Enter)
    } else if k == vk_left() {
        Some(Key::Left)
    } else if k == vk_right() {
        Some(Key::Right)
    } else if k == vk_up() {
        Some(Key::Up)
    } else if k == vk_down() {
        Some(Key::Down)
    } else if k == vk_home() {
        Some(Key::Home)
    } else if k == vk_end() {
        Some(Key::End)
    } else if k == vk_prior() {
        Some(Key::PageUp)
    } else if k == vk_next() {
        Some(Key::PageDown)
    } else if k == vk_tab() {
        Some(Key::Tab)
    } else if k == vk_delete() {
        Some(Key::Delete)
    } else if vk_f1() <= k <= vk_f24() {
        None
    } else if k == vk_escape() {
        Some(Key::Esc)
    } else if k == vk_space() {
        match utf16_unit_char(unicode_char) {
            Some(c) => Some(Key::Char(c)),
            None => None,
        }
    } else if 'A' as int <= k <= 'Z' as int {
        if control_key_state & alt_pressed_mask() != 0 {
            None
        } else if control_key_state & ctrl_pressed_mask() != 0 {
            Some(Key::Ctrl((k - 'A' as int + 'a' as int) as char))
        } else {
            match utf16_unit_char(unicode_char) {
                Some(c) => Some(Key::Char(c)),
                None => None,
            }
        }
    } else {
        match utf16_unit_char(unicode_char) {
            Some(c) => if ascii_graphic(c) {
                Some(Key::Char(c))
            } else {
                None
            },
            None => None,
        }
    }
}

/// The keys and the last size that a run of console events stands for: each key-down event
/// gives its key once per repeat, each buffer-size event sets the size.
pub open spec fn console_keys(records: Seq<ConsoleRecord>) -> Seq<Key>
    decreases records.len(),
{
    if records.len() == 0 {
        seq![]
    } else {
        let rest = console_keys(records.drop_last());
        match records.last() {
            ConsoleRecord::Key { key_down, control_key_state, virtual_key_code, unicode_char, repeat_count } =>
                if key_down {
                match console_key(control_key_state, virtual_key_code, unicode_char) {
                    Some(key) => rest + Seq::new(repeat_count as nat, |i: int| key),
                    None => rest,
                }
            } else {
                rest
            },
            _ => rest,
        }
    }
}

/// The size the last buffer-size event among `records` gives, or `current` when none does.
pub open spec fn console_resize(records: Seq<ConsoleRecord>, current: Option<(u16, u16)>) -> Option<(u16, u16)>
    decreases records.len(),
{
    if records.len() == 0 {
        current
    } else {
        match records.last() {
            ConsoleRecord::BufferSize { x, y } => Some((x as u16, y as u16)),
            _ => console_resize(records.drop_last(), current),
        }
    }
}

/// The character a single UTF-16 unit stands for (`char::decode_utf16` on the one unit):
/// none for a surrogate, else the character with that code.
#[verifier::external_body]
pub(crate) fn decode_utf16_unit(unit: u16) -> (res: Option<char>)
    ensures
        res == utf16_unit_char(unit),
{
    match std::char::decode_utf16(std::iter::once(unit)).next() {
        Some(Ok(c)) => Some(c),
        _ => None,
    }
}

/// The key a key-down event stands for, if any.
pub fn key_of_console_event(control_key_state: u32, keycode: u16, unicode_char: u16) -> (res: Option<Key>)
    ensures
        res == console_key(control_key_state, keycode, unicode_char),
{
    if keycode == 0x08 {
        Some(Key::Backspace)
    } else if keycode == 0x0d {
        Some(Key::Enter)
    } else if keycode == 0x25 {
        Some(Key::Left)
    } else if keycode == 0x27 {
        Some(Key::Right)
    } else if keycode == 0x26 {
        Some(Key::Up)
    } else if keycode == 0x28 {
        Some(Key::Down)
    } else if keycode == 0x24 {
        Some(Key::Home)
    } else if keycode == 0x23 {
        Some(Key::End)
    } else if keycode == 0x21 {
        Some(Key::PageUp)
    } else if keycode == 0x22 {
        Some(Key::PageDown)
    } else if keycode == 0x09 {
        Some(Key::Tab)
    } else if keycode == 0x2e {
        Some(Key::Delete)
    } else if 0x70 <= keycode && keycode <= 0x87 {
        None
    } else if keycode == 0x1b {
        Some(Key::Esc)
    } else if keycode == 0x20 {
        match decode_utf16_unit(unicode_char) {
            Some(c) => Some(Key::Char(c)),
            None => None,
        }
    } else if 0x41 <= keycode && keycode <= 0x5a {
        if control_key_state & 0x0003 != 0 {
            None
        } else if control_key_state & 0x000c != 0 {
            let b = (keycode - 0x41) as u8 + 0x61;
            Some(Key::Ctrl(b as char))
        } else {
            match decode_utf16_unit(unicode_char) {
                Some(c) => Some(Key::Char(c)),
                None => None,
            }
        }
    } else {
        match decode_utf16_unit(unicode_char) {
            Some(c) => if '!' <= c && c <= '~' {
                Some(Key::Char(c))
            } else {
                None
            },
            None => None,
        }
    }
}

/// Reads a run of console events: appends the keys they stand for to `keys` and sets
/// `resize` to the size of the last buffer-size event among them.
pub fn read_console_records(records: &Vec<ConsoleRecord>, keys: &mut Vec<Key>, resize: &mut Option<(u16, u16)>)
    ensures
        final(keys)@ == old(keys)@ + console_keys(records@),
        *final(resize) == console_resize(records@, *old(resize)),
{
    let mut i: usize = 0;
    let ghost k0 = keys@;
    let ghost r0 = *resize;
    assert(records@.take(0) == Seq::<ConsoleRecord>::empty());
    while i < records.len()
        invariant
            i <= records.len(),
            keys@ == k0 + console_keys(records@.take(i as int)),
            *resize == console_resize(records@.take(i as int), r0),
        decreases records.len() - i,
    {
        assert(records@.take(i as int + 1).drop_last() == records@.take(i as int));
        assert(records@.take(i as int + 1).last() == records@[i as int]);
        match records[i] {
            ConsoleRecord::Key { key_down, control_key_state, virtual_key_code, unicode_char, repeat_count } => {
                if key_down {
                    match key_of_console_event(control_key_state, virtual_key_code, unicode_char) {
                        Some(key) => {
                            let ghost before = keys@;
                            let mut n: u16 = 0;
                            while n < repeat_count
                                invariant
                                    n <= repeat_count,
                                    keys@ == before + Seq::new(n as nat, |j: int| key),
                                decreases repeat_count - n,
                            {
                                keys.push(key);
                                n = n + 1;
                                assert(keys@ == before + Seq::new(n as nat, |j: int| key));
                            }
                            assert(keys@ == k0 + (console_keys(records@.take(i as int)) + Seq::new(
                                repeat_count as nat,
                                |j: int| key,
                            )));
                        },
                        None => {},
                    }
                }
            },
            ConsoleRecord::BufferSize { x, y } => {
                *resize = Some((x as u16, y as u16));
            },
            ConsoleRecord::Other => {},
        }
        i = i + 1;
    }
    assert(records@.take(records.len() as int) == records@);
}

} // verus!
