use vstd::prelude::*;

verus! {

/// A key of the keyboard, as the terminal reports it.
#[derive(PartialEq, Eq, Structural, Clone, Copy, Debug)]
pub enum KeyCode {
    Backspace,
    Enter,
    Left,
    Right,
    Up,
    Down,
    Home,
    End,
    PageUp,
    PageDown,
    Tab,
    BackTab,
    Delete,
    Insert,
    F(u8),
    Char(char),
    Null,
    Esc,
}

/// The modifier keys held while a key was pressed.
#[derive(PartialEq, Eq, Structural, Clone, Copy, Debug)]
pub struct KeyModifiers {
    pub shift: bool,
    pub control: bool,
    pub alt: bool,
}

impl KeyModifiers {
    /// No modifier held.
    pub open spec fn is_none_spec(self) -> bool {
        !self.shift && !self.control && !self.alt
    }

    /// Control alone.
    pub open spec fn is_control_spec(self) -> bool {
        !self.shift && self.control && !self.alt
    }

    /// Shift alone.
    pub open spec fn is_shift_spec(self) -> bool {
        self.shift && !self.control && !self.alt
    }

    /// No modifier held.
    pub fn none() -> (res: KeyModifiers)
        ensures
            res.is_none_spec(),
    {
        KeyModifiers { shift: false, control: false, alt: false }
    }

    /// Control alone.
    pub fn control() -> (res: KeyModifiers)
        ensures
            res.is_control_spec(),
    {
        KeyModifiers { shift: false, control: true, alt: false }
    }

    /// Shift alone.
    pub fn shift() -> (res: KeyModifiers)
        ensures
            res.is_shift_spec(),
    {
        KeyModifiers { shift: true, control: false, alt: false }
    }

    /// Whether control alone is held.
    pub fn is_control(&self) -> (res: bool)
        ensures
            res == self.is_control_spec(),
    {
        !self.shift && self.control && !self.alt
    }
}

/// A key press: the key and the modifiers held with it.
#[derive(PartialEq, Eq, Structural, Clone, Copy, Debug)]
pub struct KeyEvent {
    pub code: KeyCode,
    pub modifiers: KeyModifiers,
}

impl KeyEvent {
    /// A key pressed with no modifier.
    pub fn plain(code: KeyCode) -> (res: KeyEvent)
        ensures
            res.code == code,
            res.modifiers.is_none_spec(),
    {
        KeyEvent { code, modifiers: KeyModifiers::none() }
    }

    /// A key pressed with control alone.
    pub fn with_control(code: KeyCode) -> (res: KeyEvent)
        ensures
            res.code == code,
            res.modifiers.is_control_spec(),
    {
        KeyEvent { code, modifiers: KeyModifiers::control() }
    }
}

/// `c` in upper case when it is an ASCII lower-case letter, else `c` itself.
pub open spec fn ascii_upper(c: char) -> char {
    if 'a' <= c && c <= 'z' {
        ((c as int) - 32) as char
    } else {
        c
    }
}

/// The character a key press types: the key's character with no modifier, its ASCII upper
/// case with shift alone, and none otherwise.
pub open spec fn typed_char(key: KeyEvent) -> Option<char> {
    match key.code {
        KeyCode::Char(c) => if key.modifiers.is_shift_spec() {
            Some(ascii_upper(c))
        } else if key.modifiers.is_none_spec() {
            Some(c)
        } else {
            None
        },
        _ => None,
    }
}

/// The ASCII upper case of `c`.
pub fn to_ascii_uppercase(c: char) -> (res: char)
    ensures
        res == ascii_upper(c),
{
    if 'a' <= c && c <= 'z' {
        let b = (c as u8) - 32;
        b as char
    } else {
        c
    }
}

/// The character a key press types, if any.
pub fn key_to_char(key: KeyEvent) -> (res: Option<char>)
    ensures
        res == typed_char(key),
{
    match key.code {
        KeyCode::Char(c) => {
            if key.modifiers.shift && !key.modifiers.control && !key.modifiers.alt {
                Some(to_ascii_uppercase(c))
            } else if !key.modifiers.shift && !key.modifiers.control && !key.modifiers.alt {
                Some(c)
            } else {
                None
            }
        },
        _ => None,
    }
}

} // verus!
