use vstd::prelude::*;

use crate::mode::{edited, moved_position, HeaderInfo, Output, ReadLine};
use crate::next::application::{submits, Key};
use crate::next::backend::{BackendResult, BranchEntry};
use crate::next::mode::status::{platform_key, to_platform_key};
use crate::next::mode::{menu_rows, moved_next, next_scroll, ModeContext, SelectMenu};
use crate::next::ui::{lines_ops, menu_ops, ops_view, Color, Draw, Drawer, OpView};
use crate::text::lines_spec;

verus! {

/// A reply to a request of the branches screen.
pub enum Response {
    Refresh(BackendResult<Vec<BranchEntry>>),
    Checkout,
}

/// What the branches screen waits for.
#[derive(PartialEq, Eq, Structural, Clone, Copy, Debug)]
pub enum WaitOperation {
    Refresh,
    New,
    Delete,
}

/// Where the branches screen is.
#[derive(PartialEq, Eq, Structural, Clone, Copy, Debug)]
pub enum State {
    Idle,
    Waiting(WaitOperation),
    NewNameInput,
}

/// The work the branches screen asks of the backend. All but the checkout are followed by a
/// new list of branches; the checkout moves to the log.
pub enum Request {
    Refresh,
    Checkout(String),
    New(String),
    Delete(String),
}

/// The branches screen.
pub struct Mode {
    pub state: State,
    pub entries: Vec<BranchEntry>,
    pub output: Output,
    pub select: SelectMenu,
    pub readline: ReadLine,
}

impl Draw for BranchEntry {
    open spec fn drawn(&self, width: u16) -> Seq<OpView> {
        seq![OpView::Print(self.name@)]
    }

    fn draw(&self, drawer: &mut Drawer) {
        drawer.write(self.name.as_str());
    }
}

impl Mode {
    /// A screen with nothing yet.
    pub fn new() -> (res: Mode)
        ensures
            res.state == State::Idle,
            res.entries@.len() == 0,
    {
        Mode {
            state: State::Idle,
            entries: Vec::new(),
            output: Output::new(),
            select: SelectMenu::new(),
            readline: ReadLine::new(),
        }
    }

    /// Enters the screen: asks for the branches unless a reply is awaited.
    pub fn on_enter(&mut self) -> (res: Option<Request>)
        ensures
            old(self).state is Waiting ==> *final(self) == *old(self) && res is None,
            !(old(self).state is Waiting) ==> final(self).state == State::Waiting(WaitOperation::Refresh)
                && final(self).output.text@.len() == 0 && final(self).readline.input@.len() == 0
                && (res matches Some(Request::Refresh)),
    {
        if let State::Waiting(_) = self.state {
            return None;
        }
        self.state = State::Waiting(WaitOperation::Refresh);
        self.output.set(String::new());
        self.readline.clear();
        Some(Request::Refresh)
    }

    /// Handles a key: idle or waiting, the key moves the cursor (or scrolls the text); then
    /// `c` checks out the branch under the cursor, `n` starts a new name and `D` deletes the
    /// branch under the cursor. Typing a name, the key edits it and submitting creates the
    /// branch.
    pub fn on_key(&mut self, ctx: &ModeContext, key: Key) -> (res: (bool, Option<Request>))
        requires
            old(self).select.cursor < usize::MAX,
        ensures
            res.0 == false,
            final(self).entries == old(self).entries,
            match old(self).state {
                State::Idle | State::Waiting(_) => {
                    let cursor = final(self).select.cursor as int;
                    let has_entry = cursor < old(self).entries@.len();
                    &&& old(self).output.text@.len() == 0 ==> final(self).select.cursor == moved_next(
                        old(self).select.cursor as int,
                        old(self).entries@.len() as int,
                        menu_rows(ctx.viewport_size.1) / 2,
                        key,
                    )
                    &&& old(self).output.text@.len() == 0 ==> final(self).select.scroll == next_scroll(
                        old(self).select.scroll as int,
                        final(self).select.cursor as int,
                        menu_rows(ctx.viewport_size.1),
                    )
                    &&& old(self).output.text@.len() != 0 ==> final(self).select == old(self).select
                    &&& key != Key::Char('n') && old(self).output.text@.len() == 0 ==> final(self).output
                        == old(self).output
                    &&& key != Key::Char('n') && old(self).output.text@.len() != 0 ==> {
                        &&& final(self).output.text@ == old(self).output.text@
                        &&& final(self).output.scroll == moved_position(
                            old(self).output.scroll as int,
                            lines_spec(old(self).output.text@).len() as int,
                            menu_rows(ctx.viewport_size.1) / 2,
                            platform_key(key),
                        )
                    }
                    &&& key == Key::Char('n') ==> final(self).output.text@.len() == 0
                    &&& if key == Key::Char('c') && has_entry {
                        final(self).state == old(self).state && (res.1 matches Some(Request::Checkout(name)) && name
                            == old(self).entries@[cursor].name)
                    } else if key == Key::Char('n') {
                        final(self).state == State::NewNameInput && final(self).readline.input@.len() == 0 && res.1 is None
                    } else if key == Key::Char('D') && has_entry {
                        final(self).state == old(self).state && (res.1 matches Some(Request::Delete(name)) && name
                            == old(self).entries@[cursor].name)
                    } else {
                        final(self).state == old(self).state && res.1 is None
                    }
                },
                State::NewNameInput => {
                    let input = edited(old(self).readline.input@, platform_key(key));
                    if submits(key) {
                        final(self).state == State::Waiting(WaitOperation::New) && (res.1 matches Some(Request::New(name))
                            && name@ == input)
                    } else {
                        final(self).state == State::NewNameInput && final(self).readline.input@ == input && res.1 is None
                    }
                },
            },
    {
        let height: usize = if ctx.viewport_size.1 >= 1 {
            (ctx.viewport_size.1 - 1) as usize
        } else {
            0
        };
        match self.state {
            State::Idle | State::Waiting(_) => {
                if self.output.text().unicode_len() == 0 {
                    self.select.on_key(ctx, self.entries.len(), key);
                } else {
                    self.output.on_key(height, to_platform_key(key));
                }
                let index = self.select.cursor();
                if key == Key::Char('c') && index < self.entries.len() {
                    let name = self.entries[index].name.clone();
                    (false, Some(Request::Checkout(name)))
                } else if key == Key::Char('n') {
                    self.state = State::NewNameInput;
                    self.output.set(String::new());
                    self.readline.clear();
                    (false, None)
                } else if key == Key::Char('D') && index < self.entries.len() {
                    let name = self.entries[index].name.clone();
                    (false, Some(Request::Delete(name)))
                } else {
                    (false, None)
                }
            },
            State::NewNameInput => {
                self.readline.on_key(to_platform_key(key));
                if key.is_submit() {
                    self.state = State::Waiting(WaitOperation::New);
                    let name = self.readline.input().to_owned();
                    (false, Some(Request::New(name)))
                } else {
                    (false, None)
                }
            },
        }
    }

    /// Takes a reply: a checkout ends the wait; new branches leave the screen as it is.
    pub fn on_repsonse(&mut self, response: Response)
        ensures
            match response {
                Response::Checkout => final(self).state == State::Idle && final(self).entries == old(self).entries,
                Response::Refresh(_) => *final(self) == *old(self),
            },
    {
        match response {
            Response::Refresh(_) => {},
            Response::Checkout => self.state = State::Idle,
        }
    }

    /// The header: the screen's name, and whether it waits.
    pub fn header(&self) -> (res: HeaderInfo)
        ensures
            res.name@ == (if self.state == State::NewNameInput {
                "new branch name"@
            } else {
                "branches"@
            }),
            res.waiting_response == (self.state is Waiting),
    {
        match self.state {
            State::Idle => HeaderInfo { name: "branches", waiting_response: false },
            State::Waiting(_) => HeaderInfo { name: "branches", waiting_response: true },
            State::NewNameInput => HeaderInfo { name: "new branch name", waiting_response: false },
        }
    }

    /// Draws the screen: the list, or the text when there is one, or the name being typed.
    pub fn draw(&self, drawer: &mut Drawer)
        ensures
            final(drawer).viewport_size == old(drawer).viewport_size,
            self.state != State::NewNameInput && self.output.text@.len() == 0 ==> ops_view(final(drawer).ops@)
                == ops_view(old(drawer).ops@) + seq![OpView::SetBackground(Color::Black), OpView::SetForeground(Color::White)]
                + menu_ops(
                self.entries@,
                self.select.scroll as int,
                crate::ui::saturating_sub(old(drawer).viewport_size.1 as int, 1),
                self.select.cursor as int,
                old(drawer).viewport_size.0,
            ),
            self.state != State::NewNameInput && self.output.text@.len() != 0 ==> ops_view(final(drawer).ops@)
                == ops_view(old(drawer).ops@) + crate::next::mode::status::output_ops(self.output),
            self.state == State::NewNameInput ==> ops_view(final(drawer).ops@) == ops_view(old(drawer).ops@) + seq![
                OpView::SetBackground(Color::Black),
                OpView::SetForeground(Color::White),
                OpView::Print(self.readline.input@),
                OpView::SetBackground(Color::DarkRed),
                OpView::Print(seq![' ']),
                OpView::SetBackground(Color::Black),
            ],
    {
        match self.state {
            State::Idle | State::Waiting(_) => {
                if self.output.text().unicode_len() == 0 {
                    drawer.select_menu(&self.select, 0, &self.entries);
                } else {
                    drawer.output(&self.output);
                }
            },
            State::NewNameInput => drawer.readline(&self.readline),
        }
    }
}

} // verus!
