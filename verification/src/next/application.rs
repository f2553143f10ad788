use vstd::prelude::*;

use crate::input::{ascii_upper, to_ascii_uppercase, KeyCode, KeyEvent};

verus! {

/// A key the user pressed, with control folded in.
#[derive(PartialEq, Eq, Structural, Clone, Copy, Debug)]
pub enum Key {
    NoKey,
    Backspace,
    Enter,
    Left,
    Right,
    Up,
    Down,
    Home,
    End,
    PageUp,
    PageDown,
    Tab,
    BackTab,
    Delete,
    Insert,
    Char(char),
    Ctrl(char),
    Esc,
}

/// The key a terminal key press stands for: the named keys, function keys as no key, and a
/// character (upper case with shift) as a control key with control, no key with alt.
pub open spec fn key_of_event(ev: KeyEvent) -> Key {
    match ev.code {
        KeyCode::Backspace => Key::Backspace,
        KeyCode::Enter => Key::Enter,
        KeyCode::Left => Key::Left,
        KeyCode::Right => Key::Right,
        KeyCode::Up => Key::Up,
        KeyCode::Down => Key::Down,
        KeyCode::Home => Key::Home,
        KeyCode::End => Key::End,
        KeyCode::PageUp => Key::PageUp,
        KeyCode::PageDown => Key::PageDown,
        KeyCode::Tab => Key::Tab,
        KeyCode::BackTab => Key::BackTab,
        KeyCode::Delete => Key::Delete,
        KeyCode::Insert => Key::Insert,
        KeyCode::F(_) => Key::NoKey,
        KeyCode::Char(c) => if ev.modifiers.alt {
            Key::NoKey
        } else {
            let c2 = if ev.modifiers.shift {
                ascii_upper(c)
            } else {
                c
            };
            if ev.modifiers.control {
                Key::Ctrl(c2)
            } else {
                Key::Char(c2)
            }
        },
        KeyCode::Null => Key::NoKey,
        KeyCode::Esc => Key::Esc,
    }
}

/// Whether a key submits: enter, a line feed, or control-m.
pub open spec fn submits(key: Key) -> bool {
    key == Key::Enter || key == Key::Char('\n') || key == Key::Ctrl('m')
}

/// Whether a key cancels: escape or control-c.
pub open spec fn cancels(key: Key) -> bool {
    key == Key::Esc || key == Key::Ctrl('c')
}

impl Key {
    /// The key a terminal key press stands for.
    pub fn from_key_event(ev: KeyEvent) -> (res: Key)
        ensures
            res == key_of_event(ev),
    {
        match ev.code {
            KeyCode::Backspace => Key::Backspace,
            KeyCode::Enter => Key::Enter,
            KeyCode::Left => Key::Left,
            KeyCode::Right => Key::Right,
            KeyCode::Up => Key::Up,
            KeyCode::Down => Key::Down,
            KeyCode::Home => Key::Home,
            KeyCode::End => Key::End,
            KeyCode::PageUp => Key::PageUp,
            KeyCode::PageDown => Key::PageDown,
            KeyCode::Tab => Key::Tab,
            KeyCode::BackTab => Key::BackTab,
            KeyCode::Delete => Key::Delete,
            KeyCode::Insert => Key::Insert,
            KeyCode::F(_) => Key::NoKey,
            KeyCode::Char(c) => {
                if ev.modifiers.alt {
                    return Key::NoKey;
                }
                let c2 = if ev.modifiers.shift {
                    to_ascii_uppercase(c)
                } else {
                    c
                };
                if ev.modifiers.control {
                    Key::Ctrl(c2)
                } else {
                    Key::Char(c2)
                }
            },
            KeyCode::Null => Key::NoKey,
            KeyCode::Esc => Key::Esc,
        }
    }

    /// Whether the key submits: enter, a line feed, or control-m.
    pub fn is_submit(&self) -> (res: bool)
        ensures
            res == submits(*self),
    {
        match self {
            Key::Enter => true,
            Key::Char(c) => *c == '\n',
            Key::Ctrl(c) => *c == 'm',
            _ => false,
        }
    }

    /// Whether the key cancels: escape or control-c.
    pub fn is_cancel(&self) -> (res: bool)
        ensures
            res == cancels(*self),
    {
        match self {
            Key::Esc => true,
            Key::Ctrl(c) => *c == 'c',
            _ => false,
        }
    }
}

} // verus!
