use vstd::prelude::*;

use crate::next::application::Key;

pub mod branches;
pub mod log;
pub mod status;

verus! {

/// A reply to a request of a screen.
pub enum ModeResponse {
    Status(status::Response),
    Log(log::Response),
    Branches(branches::Response),
}

/// The screens.
#[derive(Clone, Debug)]
pub enum ModeKind {
    Status,
    Log,
    RevisionDetails(String),
    Branches,
}

/// Whether a screen waits for a reply.
#[derive(PartialEq, Eq, Structural, Clone, Copy, Debug)]
pub struct ModeState {
    pub waiting: bool,
}

impl ModeState {
    /// Not waiting.
    pub fn new() -> (res: ModeState)
        ensures
            !res.waiting,
    {
        ModeState { waiting: false }
    }
}

/// What a screen does.
pub trait Mode {
    fn state(&mut self) -> &mut ModeState;

    fn on_enter(&mut self, ctx: &ModeContext);

    fn on_key(&mut self, ctx: &ModeContext, key: Key);

    fn on_response(&mut self, response: &ModeResponse);

    fn draw(&self, viewport_size: (u16, u16));
}

/// What the screens know of the application: the size of the viewport.
#[derive(Clone, Copy, Debug)]
pub struct ModeContext {
    pub viewport_size: (u16, u16),
}

/// What a key asks of the entries of a list.
#[derive(PartialEq, Eq, Structural, Clone, Copy, Debug)]
pub enum SelectMenuAction {
    NoAction,
    Toggle(usize),
    ToggleAll,
}

/// The rows below the header on a viewport of `height` rows.
pub open spec fn menu_rows(height: u16) -> int {
    if height >= 1 {
        height - 1
    } else {
        0
    }
}

/// The scroll that keeps the cursor on a screen of `height` rows (none shown on a screen
/// without rows: the scroll passes the cursor).
pub open spec fn next_scroll(scroll: int, cursor: int, height: int) -> int {
    if cursor < scroll {
        cursor
    } else if cursor >= scroll + height {
        cursor + 1 - height
    } else {
        scroll
    }
}

/// A cursor over a list, and the scroll that keeps it on screen.
pub struct SelectMenu {
    pub cursor: usize,
    pub scroll: usize,
}

impl SelectMenu {
    /// The cursor on the first entry.
    pub fn new() -> (res: SelectMenu)
        ensures
            res.cursor == 0,
            res.scroll == 0,
    {
        SelectMenu { cursor: 0, scroll: 0 }
    }

    /// The entry under the cursor.
    pub fn cursor(&self) -> (res: usize)
        ensures
            res == self.cursor,
    {
        self.cursor
    }

    /// The first entry on screen.
    pub fn scroll(&self) -> (res: usize)
        ensures
            res == self.scroll,
    {
        self.scroll
    }

    /// Keeps the cursor on one of `len` entries (on the first when there are none).
    pub fn saturate_cursor(&mut self, len: usize)
        ensures
            final(self).cursor == (if len == 0 {
                0
            } else if old(self).cursor < len {
                old(self).cursor as int
            } else {
                len - 1
            }),
            final(self).scroll == old(self).scroll,
    {
        if len == 0 {
            self.cursor = 0;
        } else if self.cursor >= len {
            self.cursor = len - 1;
        }
    }

    /// Moves the cursor over `entries_len` entries under a key, half a screen at a time for
    /// the page keys, scrolls so that it shows, and says what the key asks of the entries:
    /// space flips the one under the cursor, control-a flips all.
    pub fn on_key(&mut self, ctx: &ModeContext, entries_len: usize, key: Key) -> (res: SelectMenuAction)
        requires
            old(self).cursor < usize::MAX,
        ensures
            final(self).cursor == moved_next(old(self).cursor as int, entries_len as int, menu_rows(ctx.viewport_size.1) / 2, key),
            final(self).scroll == next_scroll(old(self).scroll as int, final(self).cursor as int, menu_rows(ctx.viewport_size.1)),
            res == (match key {
                Key::Char(' ') => SelectMenuAction::Toggle(final(self).cursor),
                Key::Ctrl('a') => SelectMenuAction::ToggleAll,
                _ => SelectMenuAction::NoAction,
            }),
    {
        let height: usize = if ctx.viewport_size.1 >= 1 {
            (ctx.viewport_size.1 - 1) as usize
        } else {
            0
        };
        let half = height / 2;
        let last = if entries_len > 0 {
            entries_len - 1
        } else {
            0
        };
        let c = self.cursor;
        self.cursor = match key {
            Key::Down | Key::Ctrl('n') | Key::Char('j') => if c < last {
                c + 1
            } else {
                last
            },
            Key::Up | Key::Ctrl('p') | Key::Char('k') => if c >= 1 {
                c - 1
            } else {
                0
            },
            Key::Ctrl('h') | Key::Home => 0,
            Key::Ctrl('e') | Key::End => last,
            Key::Ctrl('d') | Key::PageDown => {
                let p = c.saturating_add(half);
                if p < last {
                    p
                } else {
                    last
                }
            },
            Key::Ctrl('u') | Key::PageUp => if c >= half {
                c - half
            } else {
                0
            },
            _ => c,
        };
        if self.cursor < self.scroll {
            self.scroll = self.cursor;
        } else if self.cursor - self.scroll >= height {
            self.scroll = self.cursor + 1 - height;
        }
        match key {
            Key::Char(' ') => SelectMenuAction::Toggle(self.cursor),
            Key::Ctrl('a') => SelectMenuAction::ToggleAll,
            _ => SelectMenuAction::NoAction,
        }
    }
}

/// The place a cursor moves to under a key, over `len` places and `page` rows per half
/// screen.
pub open spec fn moved_next(pos: int, len: int, page: int, key: Key) -> int {
    let last = if len > 0 {
        len - 1
    } else {
        0
    };
    match key {
        Key::Down | Key::Ctrl('n') | Key::Char('j') => if pos + 1 < last {
            pos + 1
        } else {
            last
        },
        Key::Up | Key::Ctrl('p') | Key::Char('k') => if pos >= 1 {
            pos - 1
        } else {
            0
        },
        Key::Ctrl('h') | Key::Home => 0,
        Key::Ctrl('e') | Key::End => last,
        Key::Ctrl('d') | Key::PageDown => if pos + page < last {
            pos + page
        } else {
            last
        },
        Key::Ctrl('u') | Key::PageUp => if pos >= page {
            pos - page
        } else {
            0
        },
        _ => pos,
    }
}

} // verus!
