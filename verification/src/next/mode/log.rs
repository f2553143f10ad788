use vstd::prelude::*;

use crate::mode::{HeaderInfo, Output};
use crate::next::application::Key;
use crate::next::backend::{BackendResult, LogEntry};
use crate::next::mode::{menu_rows, moved_next, next_scroll, ModeContext, SelectMenu};
use crate::next::ui::{menu_ops, ops_view, Color, Draw, Drawer, OpView};
use crate::ui::{take_chars, take_chars_exec};

verus! {

/// A reply to a request of the log screen.
pub enum Response {
    Refresh(BackendResult<Vec<LogEntry>>),
}

/// What the log screen waits for.
#[derive(PartialEq, Eq, Structural, Clone, Copy, Debug)]
pub enum WaitOperation {
    Refresh,
    Checkout,
    Fetch,
    Pull,
    Push,
}

/// Where the log screen is.
#[derive(PartialEq, Eq, Structural, Clone, Copy, Debug)]
pub enum State {
    Idle,
    WaitingForEntries(WaitOperation),
}

/// The work the log screen asks of the backend; each is followed by a new log of as many
/// entries as the screen shows.
pub enum Request {
    Refresh,
    Checkout(String),
    Fetch,
    Pull,
    Push,
}

/// The log screen.
pub struct Mode {
    pub state: State,
    pub entries: Vec<LogEntry>,
    pub output: Output,
    pub select: SelectMenu,
}

/// The name the log screen shows in each state.
pub open spec fn log_name(state: State) -> Seq<char> {
    match state {
        State::Idle | State::WaitingForEntries(WaitOperation::Refresh) => "log"@,
        State::WaitingForEntries(WaitOperation::Checkout) => "checkout"@,
        State::WaitingForEntries(WaitOperation::Fetch) => "fetch"@,
        State::WaitingForEntries(WaitOperation::Pull) => "pull"@,
        State::WaitingForEntries(WaitOperation::Push) => "push"@,
    }
}

impl Mode {
    /// A screen with nothing yet.
    pub fn new() -> (res: Mode)
        ensures
            res.state == State::Idle,
            res.entries@.len() == 0,
            res.output.text@.len() == 0,
    {
        Mode { state: State::Idle, entries: Vec::new(), output: Output::new(), select: SelectMenu::new() }
    }

    /// Enters the screen: asks for the log unless a reply is awaited.
    pub fn on_enter(&mut self) -> (res: Option<Request>)
        ensures
            old(self).state is WaitingForEntries ==> *final(self) == *old(self) && res is None,
            old(self).state is Idle ==> final(self).state == State::WaitingForEntries(WaitOperation::Refresh)
                && final(self).output.text@.len() == 0 && final(self).entries == old(self).entries
                && (res matches Some(Request::Refresh)),
    {
        if let State::WaitingForEntries(_) = self.state {
            return None;
        }
        self.state = State::WaitingForEntries(WaitOperation::Refresh);
        self.output.set(String::new());
        Some(Request::Refresh)
    }

    /// Handles a key: it moves the cursor; then, when idle, `c` checks out the entry under the
    /// cursor, `f` fetches, `p` pulls and `P` pushes.
    pub fn on_key(&mut self, ctx: &ModeContext, key: Key) -> (res: (bool, Option<Request>))
        requires
            old(self).select.cursor < usize::MAX,
        ensures
            res.0 == false,
            final(self).entries == old(self).entries,
            final(self).output == old(self).output,
            final(self).select.cursor == moved_next(
                old(self).select.cursor as int,
                old(self).entries@.len() as int,
                menu_rows(ctx.viewport_size.1) / 2,
                key,
            ),
            final(self).select.scroll == next_scroll(
                old(self).select.scroll as int,
                final(self).select.cursor as int,
                menu_rows(ctx.viewport_size.1),
            ),
            ({
                let cursor = final(self).select.cursor as int;
                let idle = old(self).state == State::Idle;
                if idle && key == Key::Char('c') && cursor < old(self).entries@.len() {
                    &&& final(self).state == State::WaitingForEntries(WaitOperation::Checkout)
                    &&& res.1 matches Some(Request::Checkout(h)) && h == old(self).entries@[cursor].hash
                } else if idle && key == Key::Char('f') {
                    final(self).state == State::WaitingForEntries(WaitOperation::Fetch) && res.1 matches Some(Request::Fetch)
                } else if idle && key == Key::Char('p') {
                    final(self).state == State::WaitingForEntries(WaitOperation::Pull) && res.1 matches Some(Request::Pull)
                } else if idle && key == Key::Char('P') {
                    final(self).state == State::WaitingForEntries(WaitOperation::Push) && res.1 matches Some(Request::Push)
                } else {
                    final(self).state == old(self).state && res.1 is None
                }
            }),
    {
        self.select.on_key(ctx, self.entries.len(), key);
        let index = self.select.cursor();
        let idle = self.state == State::Idle;
        if idle && key == Key::Char('c') && index < self.entries.len() {
            self.state = State::WaitingForEntries(WaitOperation::Checkout);
            let hash = self.entries[index].hash.clone();
            (false, Some(Request::Checkout(hash)))
        } else if idle && key == Key::Char('f') {
            self.state = State::WaitingForEntries(WaitOperation::Fetch);
            (false, Some(Request::Fetch))
        } else if idle && key == Key::Char('p') {
            self.state = State::WaitingForEntries(WaitOperation::Pull);
            (false, Some(Request::Pull))
        } else if idle && key == Key::Char('P') {
            self.state = State::WaitingForEntries(WaitOperation::Push);
            (false, Some(Request::Push))
        } else {
            (false, None)
        }
    }

    /// Takes a new log: the wait ends and the entries are replaced by the log, or the error
    /// shows; the cursor stays on the entries.
    pub fn on_response(&mut self, response: Response)
        ensures
            final(self).state == State::Idle,
            match response {
                Response::Refresh(Ok(entries)) => final(self).entries@ == entries@ && final(self).output.text@.len() == 0,
                Response::Refresh(Err(error)) => final(self).entries@.len() == 0 && final(self).output.text@ == error@,
            },
            final(self).select.cursor == (if final(self).entries@.len() == 0 {
                0
            } else if old(self).select.cursor < final(self).entries@.len() {
                old(self).select.cursor as int
            } else {
                final(self).entries@.len() - 1
            }),
    {
        match response {
            Response::Refresh(result) => {
                self.entries = Vec::new();
                self.output.set(String::new());
                self.state = State::Idle;
                match result {
                    Ok(entries) => self.entries = entries,
                    Err(error) => self.output.set(error),
                }
                let len = self.entries.len();
                self.select.saturate_cursor(len);
            },
        }
    }

    /// The header: the screen's name, and whether it waits.
    pub fn header(&self) -> (res: HeaderInfo)
        ensures
            res.name@ == log_name(self.state),
            res.waiting_response == (self.state is WaitingForEntries),
    {
        match self.state {
            State::Idle => HeaderInfo { name: "log", waiting_response: false },
            State::WaitingForEntries(WaitOperation::Refresh) => HeaderInfo { name: "log", waiting_response: true },
            State::WaitingForEntries(WaitOperation::Checkout) => HeaderInfo { name: "checkout", waiting_response: true },
            State::WaitingForEntries(WaitOperation::Fetch) => HeaderInfo { name: "fetch", waiting_response: true },
            State::WaitingForEntries(WaitOperation::Pull) => HeaderInfo { name: "pull", waiting_response: true },
            State::WaitingForEntries(WaitOperation::Push) => HeaderInfo { name: "push", waiting_response: true },
        }
    }
}


/// The columns a log entry takes before its message: graph, hash, date and author (at most
/// twelve characters) each followed by a space, and the references in parentheses when there
/// are any.
pub open spec fn columns_before_message(e: LogEntry) -> int {
    let refs: int = if e.refs@.len() > 0 {
        e.refs@.len() + 3int
    } else {
        0
    };
    e.graph@.len() + 1int + e.hash@.len() + 1 + e.date@.len() + 1 + take_chars(e.author@, 12).len() + 1 + refs
}

impl Draw for LogEntry {
    open spec fn drawn(&self, width: u16) -> Seq<OpView> {
        seq![
            OpView::SetForeground(Color::White),
            OpView::Print(self.graph@),
            OpView::Print(seq![' ']),
            OpView::SetForeground(Color::Yellow),
            OpView::Print(self.hash@),
            OpView::Print(seq![' ']),
            OpView::SetForeground(Color::Blue),
            OpView::Print(self.date@),
            OpView::Print(seq![' ']),
            OpView::SetForeground(Color::Green),
            OpView::Print(take_chars(self.author@, 12)),
            OpView::Print(seq![' ']),
            OpView::SetForeground(Color::Red),
            OpView::Print(if self.refs@.len() > 0 { seq!['('] } else { seq![] }),
            OpView::Print(self.refs@),
            OpView::Print(if self.refs@.len() > 0 { seq![')', ' '] } else { seq![] }),
            OpView::SetForeground(Color::White),
            OpView::Print(take_chars(self.message@, crate::ui::saturating_sub(width as int, columns_before_message(*self)))),
        ]
    }

    fn draw(&self, drawer: &mut Drawer) {
        proof {
            reveal_strlit(" ");
            reveal_strlit("(");
            reveal_strlit(") ");
            reveal_strlit("");
        }
        assert(" "@ =~= seq![' ']);
        assert("("@ =~= seq!['(']);
        assert(") "@ =~= seq![')', ' ']);
        assert(""@ =~= Seq::<char>::empty());
        let author = take_chars_exec(self.author.as_str(), 12);
        let has_refs = self.refs.as_str().unicode_len() > 0;
        let refs_columns: usize = if has_refs {
            self.refs.as_str().unicode_len().saturating_add(3)
        } else {
            0
        };
        let used = self.graph.as_str().unicode_len().saturating_add(1).saturating_add(
            self.hash.as_str().unicode_len(),
        ).saturating_add(1).saturating_add(self.date.as_str().unicode_len()).saturating_add(1).saturating_add(
            author.as_str().unicode_len(),
        ).saturating_add(1).saturating_add(refs_columns);
        let width = drawer.viewport_size.0 as usize;
        let available: usize = if width > used {
            width - used
        } else {
            0
        };
        assert(available as int == crate::ui::saturating_sub(width as int, columns_before_message(*self)));
        let message = take_chars_exec(self.message.as_str(), available);
        drawer.color(Color::White);
        drawer.write(self.graph.as_str());
        drawer.write(" ");
        drawer.color(Color::Yellow);
        drawer.write(self.hash.as_str());
        drawer.write(" ");
        drawer.color(Color::Blue);
        drawer.write(self.date.as_str());
        drawer.write(" ");
        drawer.color(Color::Green);
        drawer.write(author.as_str());
        drawer.write(" ");
        drawer.color(Color::Red);
        drawer.write(if has_refs {
            "("
        } else {
            ""
        });
        drawer.write(self.refs.as_str());
        drawer.write(if has_refs {
            ") "
        } else {
            ""
        });
        drawer.color(Color::White);
        drawer.write(message.as_str());
    }
}

impl Mode {
    /// Draws the screen: the list of revisions.
    pub fn draw(&self, drawer: &mut Drawer)
        ensures
            ops_view(final(drawer).ops@) == ops_view(old(drawer).ops@) + seq![
                OpView::SetBackground(Color::Black),
                OpView::SetForeground(Color::White),
            ] + menu_ops(
                self.entries@,
                self.select.scroll as int,
                crate::ui::saturating_sub(old(drawer).viewport_size.1 as int, 1),
                self.select.cursor as int,
                old(drawer).viewport_size.0,
            ),
            final(drawer).viewport_size == old(drawer).viewport_size,
    {
        drawer.select_menu(&self.select, 0, &self.entries);
    }
}

} // verus!
