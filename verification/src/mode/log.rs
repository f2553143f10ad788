use vstd::prelude::*;

use crate::backend::{BackendResult, LogEntry};
use crate::mode::{moved_position, scroll_to_show, HeaderInfo, ModeStatus, Output, SelectMenu};
use crate::platform::Key;
use crate::ui::{drawable, menu_bytes, output_bytes, Drawer};

verus! {

/// A reply to a request of the log screen: the log, or the error.
pub enum Response {
    Refresh(BackendResult<Vec<LogEntry>>),
}

/// What the log screen waits for.
#[derive(PartialEq, Eq, Structural, Clone, Copy, Debug)]
pub enum WaitOperation {
    Refresh,
    Checkout,
    Merge,
    Fetch,
    Pull,
    Push,
}

/// Where the log screen is.
#[derive(PartialEq, Eq, Structural, Clone, Copy, Debug)]
pub enum State {
    Idle,
    Waiting(WaitOperation),
}

/// The work the log screen asks for. All but the details are followed by a new log of as
/// many entries as the screen shows.
pub enum Request {
    Refresh,
    Checkout(String),
    Merge(String),
    Fetch,
    Pull,
    Push,
    /// Show the details of a revision.
    Details(String),
}

/// The log screen: the revisions, to check out, merge, or look into.
pub struct Mode {
    pub state: State,
    pub entries: Vec<LogEntry>,
    pub output: Output,
    pub select: SelectMenu,
}

/// The rows the log shows on a viewport of `height` rows: all but one.
pub open spec fn log_rows(height: u16) -> int {
    if height >= 1 {
        height - 1
    } else {
        0
    }
}

/// The name the log screen shows in each state.
pub open spec fn log_name(state: State) -> Seq<char> {
    match state {
        State::Idle | State::Waiting(WaitOperation::Refresh) => "log"@,
        State::Waiting(WaitOperation::Checkout) => "checkout"@,
        State::Waiting(WaitOperation::Merge) => "merge"@,
        State::Waiting(WaitOperation::Fetch) => "fetch"@,
        State::Waiting(WaitOperation::Pull) => "pull"@,
        State::Waiting(WaitOperation::Push) => "push"@,
    }
}

/// How the log screen takes a key: the new screen and what it answers.
pub open spec fn keyed(old: Mode, new: Mode, viewport_height: u16, key: Key, res: (ModeStatus, Option<Request>)) -> bool {
    &&& (res.0.pending_input == false)
    &&& (new.entries == old.entries)
    &&& (new.output == old.output)
    &&& (new.select.cursor == moved_position(
        old.select.cursor as int,
        old.entries@.len() as int,
        log_rows(viewport_height) / 2,
        key,
    ))
    &&& (new.select.scroll == scroll_to_show(
        old.select.scroll as int,
        new.select.cursor as int,
        log_rows(viewport_height),
    ))
    &&& ({
        let cursor = new.select.cursor as int;
        let has_entry = cursor < old.entries@.len();
        let hash = old.entries@[cursor].hash;
        let idle = old.state == State::Idle;
        if key == Key::Char('d') {
            &&& new.state == old.state
            &&& has_entry ==> (res.1 matches Some(Request::Details(h)) && h == hash)
            &&& !has_entry ==> res.1 is None
        } else if idle && key == Key::Char('g') && has_entry {
            &&& new.state == State::Waiting(WaitOperation::Checkout)
            &&& res.1 matches Some(Request::Checkout(h)) && h == hash
        } else if idle && key == Key::Char('m') && has_entry {
            &&& new.state == State::Waiting(WaitOperation::Merge)
            &&& res.1 matches Some(Request::Merge(h)) && h == hash
        } else if idle && key == Key::Char('f') {
            new.state == State::Waiting(WaitOperation::Fetch) && res.1 matches Some(Request::Fetch)
        } else if idle && key == Key::Char('p') {
            new.state == State::Waiting(WaitOperation::Pull) && res.1 matches Some(Request::Pull)
        } else if idle && key == Key::Char('P') {
            new.state == State::Waiting(WaitOperation::Push) && res.1 matches Some(Request::Push)
        } else {
            new.state == old.state && res.1 is None
        }
    })
}

/// How the log screen takes a reply.
pub open spec fn responded(old: Mode, new: Mode, response: Response) -> bool {
    &&& (new.state == State::Idle)
    &&& (match response {
        Response::Refresh(Ok(entries)) => new.entries@ == entries@ && new.output.text@
            == Seq::<char>::empty(),
        Response::Refresh(Err(error)) => new.entries@.len() == 0 && new.output.text@
            == error@,
    })
    &&& (new.output.scroll == 0)
    &&& (new.select.cursor == (if new.entries@.len() == 0 {
        0
    } else if old.select.cursor < new.entries@.len() {
        old.select.cursor as int
    } else {
        new.entries@.len() - 1
    }))
    &&& (new.select.scroll == old.select.scroll)
}

impl Mode {
    /// A screen with nothing yet.
    pub fn new() -> (res: Mode)
        ensures
            res.state == State::Idle,
            res.entries@.len() == 0,
            res.output.text@ == Seq::<char>::empty(),
            res.output.scroll == 0,
            res.select.cursor == 0,
            res.select.scroll == 0,
    {
        Mode { state: State::Idle, entries: Vec::new(), output: Output::new(), select: SelectMenu::new() }
    }

    /// Enters the screen: asks for a new log unless a reply is already awaited.
    pub fn on_enter(&mut self) -> (res: Option<Request>)
        ensures
            old(self).state is Waiting ==> *final(self) == *old(self) && res is None,
            !(old(self).state is Waiting) ==> final(self).state == State::Waiting(WaitOperation::Refresh)
                && final(self).output.text@ == Seq::<char>::empty() && final(self).output.scroll == 0
                && final(self).entries == old(self).entries && final(self).select == old(self).select
                && res matches Some(Request::Refresh),
    {
        if let State::Waiting(_) = self.state {
            return None;
        }
        self.state = State::Waiting(WaitOperation::Refresh);
        self.output.set(String::new());
        Some(Request::Refresh)
    }

    /// Handles a key: it moves the cursor over the entries; then `d` shows the details of the
    /// entry under the cursor and, when idle, `g` checks it out, `m` merges it, `f` fetches,
    /// `p` pulls and `P` pushes.
    pub fn on_key(&mut self, viewport_height: u16, key: Key) -> (res: (ModeStatus, Option<Request>))
        ensures
            keyed(*old(self), *final(self), viewport_height, key, res),
    {
        let height: usize = if viewport_height >= 1 {
            (viewport_height - 1) as usize
        } else {
            0
        };
        self.select.on_key(self.entries.len(), height, key);
        let status = ModeStatus { pending_input: false };
        let index = self.select.cursor();
        let has_entry = index < self.entries.len();
        if key == Key::Char('d') {
            if has_entry {
                let hash = self.entries[index].hash.clone();
                (status, Some(Request::Details(hash)))
            } else {
                (status, None)
            }
        } else if self.state == State::Idle {
            if key == Key::Char('g') && has_entry {
                self.state = State::Waiting(WaitOperation::Checkout);
                let hash = self.entries[index].hash.clone();
                (status, Some(Request::Checkout(hash)))
            } else if key == Key::Char('m') && has_entry {
                self.state = State::Waiting(WaitOperation::Merge);
                let hash = self.entries[index].hash.clone();
                (status, Some(Request::Merge(hash)))
            } else if key == Key::Char('f') {
                self.state = State::Waiting(WaitOperation::Fetch);
                (status, Some(Request::Fetch))
            } else if key == Key::Char('p') {
                self.state = State::Waiting(WaitOperation::Pull);
                (status, Some(Request::Pull))
            } else if key == Key::Char('P') {
                self.state = State::Waiting(WaitOperation::Push);
                (status, Some(Request::Push))
            } else {
                (status, None)
            }
        } else {
            (status, None)
        }
    }

    /// Takes a new log: the wait ends; when idle, the entries are replaced by the log, or the
    /// error shows; the cursor stays on the entries.
    pub fn on_response(&mut self, response: Response)
        ensures
            responded(*old(self), *final(self), response),
    {
        match response {
            Response::Refresh(result) => {
                self.entries = Vec::new();
                self.output.set(String::new());
                self.state = State::Idle;
                match result {
                    Ok(entries) => self.entries = entries,
                    Err(error) => self.output.set(error),
                }
                let len = self.entries.len();
                self.select.saturate_cursor(len);
            },
        }
    }

    /// Whether the screen waits for a reply.
    pub fn is_waiting_response(&self) -> (res: bool)
        ensures
            res == (self.state is Waiting),
    {
        match self.state {
            State::Idle => false,
            State::Waiting(_) => true,
        }
    }

    /// The header: the screen's name, and whether it waits.
    pub fn header(&self) -> (res: HeaderInfo)
        ensures
            res.name@ == log_name(self.state),
            res.waiting_response == (self.state is Waiting),
    {
        let name = match self.state {
            State::Idle | State::Waiting(WaitOperation::Refresh) => "log",
            State::Waiting(WaitOperation::Checkout) => "checkout",
            State::Waiting(WaitOperation::Merge) => "merge",
            State::Waiting(WaitOperation::Fetch) => "fetch",
            State::Waiting(WaitOperation::Pull) => "pull",
            State::Waiting(WaitOperation::Push) => "push",
        };
        HeaderInfo { name, waiting_response: self.is_waiting_response() }
    }
}

/// What the log screen draws: the list, or the text when there is one.
pub open spec fn log_drawn(m: Mode, viewport_size: (u16, u16)) -> Seq<u8> {
    if m.output.text@.len() == 0 {
        menu_bytes(m.select, 0, false, m.entries@, viewport_size)
    } else {
        output_bytes(m.output, viewport_size)
    }
}

impl Mode {
    /// Draws the screen.
    pub fn draw(&self, drawer: &mut Drawer)
        requires
            drawable(self.output),
        ensures
            final(drawer).buf@ == old(drawer).buf@ + log_drawn(*self, old(drawer).viewport_size),
            final(drawer).viewport_size == old(drawer).viewport_size,
    {
        if self.output.text().unicode_len() == 0 {
            drawer.select_menu(&self.select, 0, false, &self.entries);
        } else {
            drawer.output(&self.output);
        }
    }
}

} // verus!
