use vstd::prelude::*;

use crate::backend::{sort_by_status, sorted_by_status, BackendResult, RevisionEntry, RevisionInfo};
use crate::mode::{
    after_action, apply_action, get_selected_entries, moved_position, scroll_to_show, selected_entries,
    HeaderInfo, ModeStatus, Output, SelectMenu, SelectMenuAction,
};
use crate::mode::log::log_rows;
use crate::mode::status::list_action;
use crate::platform::Key;
use crate::text::lines_spec;
use crate::ui::{clear_line_code, drawable, menu_bytes, next_line_code, output_bytes, Drawer};

verus! {

/// A reply to a request of the details screen.
pub enum Response {
    Info(RevisionInfo),
    Diff(String),
}

/// Where the details screen is.
#[derive(PartialEq, Eq, Structural, Clone, Copy, Debug)]
pub enum State {
    Idle,
    Waiting,
    ViewDiff,
}

/// The work the details screen asks of the backend.
pub enum Request {
    /// The message and changed files of a revision.
    Info(String),
    /// The diff of some files of a revision.
    Diff(String, Vec<RevisionEntry>),
}

/// The details screen: the message and the changed files of a revision, to select and diff.
pub struct Mode {
    pub state: State,
    pub entries: Vec<RevisionEntry>,
    pub output: Output,
    pub select: SelectMenu,
}

/// The entries of a revision, none selected.
pub open spec fn unselected(v: Seq<RevisionEntry>) -> Seq<RevisionEntry> {
    Seq::new(v.len(), |i: int| RevisionEntry { selected: false, ..v[i] })
}

/// How the details screen takes a key: the new screen and what it answers.
pub open spec fn keyed(old: Mode, new: Mode, viewport_height: u16, revision: Seq<char>, key: Key, res: (ModeStatus, Option<Request>)) -> bool {
    &&& (res.0.pending_input == false)
    &&& (match old.state {
        State::Idle => {
            let cursor = moved_position(
                old.select.cursor as int,
                old.entries@.len() as int,
                log_rows(viewport_height) / 2,
                key,
            );
            let entries = after_action(old.entries@, list_action(key, cursor as usize));
            &&& new.select.cursor == cursor
            &&& new.select.scroll == scroll_to_show(
                old.select.scroll as int,
                cursor,
                log_rows(viewport_height),
            )
            &&& new.entries@ == entries
            &&& if key == Key::Char('d') && entries.len() > 0 {
                &&& new.state == State::ViewDiff
                &&& new.output.text@ == Seq::<char>::empty() && new.output.scroll == 0
                &&& res.1 matches Some(Request::Diff(r, v)) && r@ == revision && v@ == selected_entries(entries)
            } else {
                &&& new.state == State::Idle
                &&& new.output == old.output
                &&& res.1 is None
            }
        },
        State::ViewDiff => {
            &&& new.state == State::ViewDiff
            &&& new.output.text@ == old.output.text@
            &&& new.output.scroll == moved_position(
                old.output.scroll as int,
                lines_spec(old.output.text@).len() as int,
                log_rows(viewport_height) / 2,
                key,
            )
            &&& new.entries == old.entries && new.select == old.select
            &&& res.1 is None
        },
        State::Waiting => new == old && res.1 is None,
    })
}

/// How the details screen takes a reply.
pub open spec fn responded(old: Mode, new: Mode, response: Response) -> bool {
    &&& (match response {
        Response::Info(info) => {
            let state = if old.state == State::Waiting {
                State::Idle
            } else {
                old.state
            };
            &&& new.state == state
            &&& state == State::Idle ==> new.output.text@ == info.message@ && new.output.scroll == 0
            &&& state != State::Idle ==> new.output == old.output
            &&& new.entries@ == unselected(info.entries@)
            &&& new.select.cursor == (if info.entries@.len() == 0 {
                0
            } else if old.select.cursor < info.entries@.len() {
                old.select.cursor as int
            } else {
                info.entries@.len() - 1
            })
            &&& new.select.scroll == old.select.scroll
        },
        Response::Diff(output) => if old.state == State::ViewDiff {
            &&& new.output.text@ == output@ && new.output.scroll == 0
            &&& new.state == old.state
            &&& new.entries == old.entries && new.select == old.select
        } else {
            new == old
        },
    })
}

impl Mode {
    /// A screen with nothing yet.
    pub fn new() -> (res: Mode)
        ensures
            res.state == State::Idle,
            res.entries@.len() == 0,
            res.output.text@ == Seq::<char>::empty(),
            res.output.scroll == 0,
            res.select.cursor == 0,
            res.select.scroll == 0,
    {
        Mode { state: State::Idle, entries: Vec::new(), output: Output::new(), select: SelectMenu::new() }
    }

    /// Enters the screen for `revision`: asks for its details unless a reply is already
    /// awaited, with an empty text and the cursor on top.
    pub fn on_enter(&mut self, revision: &str) -> (res: Option<Request>)
        ensures
            old(self).state == State::Waiting ==> *final(self) == *old(self) && res is None,
            old(self).state != State::Waiting ==> final(self).state == State::Waiting && final(self).output.text@
                == Seq::<char>::empty() && final(self).output.scroll == 0 && final(self).select.cursor == 0
                && final(self).select.scroll == old(self).select.scroll && final(self).entries == old(self).entries
                && (res matches Some(Request::Info(r)) && r@ == revision@),
    {
        if self.state == State::Waiting {
            return None;
        }
        self.state = State::Waiting;
        self.output.set(String::new());
        self.select.saturate_cursor(0);
        Some(Request::Info(revision.to_owned()))
    }

    /// Handles a key: idle, it moves the cursor and selects entries, and `d` shows the diff of
    /// the selected ones; viewing a diff, it scrolls it; waiting, it does nothing.
    pub fn on_key(&mut self, viewport_height: u16, revision: &str, key: Key) -> (res: (ModeStatus, Option<Request>))
        ensures
            keyed(*old(self), *final(self), viewport_height, revision@, key, res),
    {
        let height: usize = if viewport_height >= 1 {
            (viewport_height - 1) as usize
        } else {
            0
        };
        let status = ModeStatus { pending_input: false };
        match self.state {
            State::Idle => {
                let action = self.select.on_key(self.entries.len(), height, key);
                apply_action(&mut self.entries, action);
                if key == Key::Char('d') && self.entries.len() > 0 {
                    self.state = State::ViewDiff;
                    self.output.set(String::new());
                    let entries = get_selected_entries(&self.entries);
                    (status, Some(Request::Diff(revision.to_owned(), entries)))
                } else {
                    (status, None)
                }
            },
            State::ViewDiff => {
                self.output.on_key(height, key);
                (status, None)
            },
            State::Waiting => (status, None),
        }
    }

    /// Takes a reply: the details end the wait and, when idle, show the message; the entries
    /// become those of the revision, none selected; a diff shows when the screen views one.
    pub fn on_response(&mut self, response: Response)
        ensures
            responded(*old(self), *final(self), response),
    {
        match response {
            Response::Info(info) => {
                if self.state == State::Waiting {
                    self.state = State::Idle;
                }
                if self.state == State::Idle {
                    self.output.set(info.message);
                }
                let mut entries: Vec<RevisionEntry> = Vec::new();
                let mut i: usize = 0;
                while i < info.entries.len()
                    invariant
                        i <= info.entries.len(),
                        entries@ == unselected(info.entries@.take(i as int)),
                    decreases info.entries.len() - i,
                {
                    let e = &info.entries[i];
                    entries.push(RevisionEntry { selected: false, name: e.name.clone(), status: e.status.copy() });
                    assert(unselected(info.entries@.take(i as int + 1)) == unselected(info.entries@.take(i as int)).push(
                        RevisionEntry { selected: false, ..info.entries@[i as int] },
                    ));
                    i = i + 1;
                }
                assert(info.entries@.take(info.entries@.len() as int) == info.entries@);
                self.entries = entries;
                let len = self.entries.len();
                self.select.saturate_cursor(len);
            },
            Response::Diff(output) => {
                if self.state == State::ViewDiff {
                    self.output.set(output);
                }
            },
        }
    }

    /// Whether the screen waits for a reply: while waiting, and while a diff is awaited.
    pub fn is_waiting_response(&self) -> (res: bool)
        ensures
            res == (self.state == State::Waiting || (self.state == State::ViewDiff && self.output.text@.len() == 0)),
    {
        match self.state {
            State::Idle => false,
            State::Waiting => true,
            State::ViewDiff => self.output.text().unicode_len() == 0,
        }
    }

    /// The header: the screen's name, and whether it waits.
    pub fn header(&self) -> (res: HeaderInfo)
        ensures
            res.name@ == (if self.state == State::ViewDiff {
                "diff"@
            } else {
                "revision details"@
            }),
            res.waiting_response == (self.state == State::Waiting || (self.state == State::ViewDiff
                && self.output.text@.len() == 0)),
    {
        match self.state {
            State::Idle => HeaderInfo { name: "revision details", waiting_response: false },
            State::Waiting => HeaderInfo { name: "revision details", waiting_response: true },
            State::ViewDiff => HeaderInfo { name: "diff", waiting_response: self.output.text().unicode_len() == 0 },
        }
    }
}

/// The details a request ends with: those of the revision with their entries ordered by
/// status, or the error as the message with no entries.
pub fn revision_info(result: BackendResult<RevisionInfo>) -> (res: RevisionInfo)
    ensures
        match result {
            Ok(info) => res.message == info.message && res.entries@.to_multiset() == info.entries@.to_multiset()
                && sorted_by_status(res.entries@),
            Err(error) => res.message == error && res.entries@.len() == 0,
        },
{
    match result {
        Ok(info) => RevisionInfo { message: info.message, entries: sort_by_status(info.entries) },
        Err(error) => RevisionInfo { message: error, entries: Vec::new() },
    }
}

/// What the details screen draws: the text, and when idle the list two lines below it.
pub open spec fn details_drawn(m: Mode, viewport_size: (u16, u16)) -> Seq<u8> {
    output_bytes(m.output, viewport_size) + if m.state == State::Idle {
        let rows = lines_spec(m.output.text@).len() + 1;
        clear_line_code() + next_line_code() + clear_line_code() + next_line_code() + menu_bytes(
            m.select,
            if rows < 0xffff { rows as int } else { 0xffff },
            false,
            m.entries@,
            viewport_size,
        )
    } else {
        seq![]
    }
}

impl Mode {
    /// Draws the screen.
    pub fn draw(&self, drawer: &mut Drawer)
        requires
            drawable(self.output),
        ensures
            final(drawer).buf@ == old(drawer).buf@ + details_drawn(*self, old(drawer).viewport_size),
            final(drawer).viewport_size == old(drawer).viewport_size,
    {
        drawer.output(&self.output);
        if self.state == State::Idle {
            drawer.next_line();
            drawer.next_line();
            let count = self.output.line_count();
            let rows = if count < 0xfffe {
                count + 1
            } else {
                0xffff
            };
            drawer.select_menu(&self.select, rows, false, &self.entries);
        }
    }
}

} // verus!
