use vstd::prelude::*;

use crate::backend::{sort_by_status, sorted_by_status, BackendResult, RevisionEntry, StatusInfo};
use crate::mode::{
    after_action, apply_action, available_height, available_rows, cursor_after_removal, edited,
    get_selected_entries, moved_position, remove_selected_entries, scroll_to_show, selected_count,
    selected_entries, unselected_entries, HeaderTexts, ModeStatus, Output, ReadLine, SelectMenu,
    SelectMenuAction,
};
use crate::platform::{cancels, submits, Key};
use crate::text::{lines_spec, utf8};
use crate::ui::{
    background_code, clear_line_code, drawable, foreground_code, menu_bytes, next_line_code, output_bytes,
    readline_bytes, saturating_sub, take_chars, take_chars_exec, Color, Drawer,
};

verus! {

/// A reply to a request of the status screen.
pub enum Response {
    Refresh(StatusInfo),
    Commit,
    Diff(String),
}

/// What the status screen waits for.
#[derive(PartialEq, Eq, Structural, Clone, Copy, Debug)]
pub enum WaitOperation {
    Refresh,
    Commit,
    Discard,
    ResolveTakingLocal,
    ResolveTakingOther,
}

/// Where the status screen is.
#[derive(PartialEq, Eq, Structural, Clone, Copy, Debug)]
pub enum State {
    Idle,
    Waiting(WaitOperation),
    CommitMessageInput,
    ViewDiff,
}

/// The work the status screen asks of the backend. All but the diff and the commit are
/// followed by a new status.
pub enum Request {
    Refresh,
    Discard(Vec<RevisionEntry>),
    ResolveTakingOurs(Vec<RevisionEntry>),
    ResolveTakingTheirs(Vec<RevisionEntry>),
    Diff(Vec<RevisionEntry>),
    Commit(String, Vec<RevisionEntry>),
}

/// The status screen: the changed files of the working copy, to select, commit, discard,
/// resolve or diff.
pub struct Mode {
    pub state: State,
    pub entries: Vec<RevisionEntry>,
    pub output: Output,
    pub select: SelectMenu,
    pub readline: ReadLine,
}

/// Whether the screen shows a text of more than one line rather than the list.
pub open spec fn shows_long_output(m: Mode) -> bool {
    lines_spec(m.output.text@).len() > 1
}

/// The list action a key asks for on the list, with the cursor moved to `cursor`.
pub open spec fn list_action(key: Key, cursor: usize) -> SelectMenuAction {
    match key {
        Key::Char(' ') => SelectMenuAction::Toggle(cursor),
        Key::Ctrl('a') => SelectMenuAction::ToggleAll,
        _ => SelectMenuAction::NoAction,
    }
}

/// How a key moves through what the idle screen shows: the long text scrolls, or else the
/// cursor moves over the list and the list action applies to the entries.
pub open spec fn browsed(old: Mode, new: Mode, height: int, key: Key) -> bool {
    if shows_long_output(old) {
        &&& new.output.text@ == old.output.text@
        &&& new.output.scroll == moved_position(
            old.output.scroll as int,
            lines_spec(old.output.text@).len() as int,
            height / 2,
            key,
        )
        &&& new.entries@ == old.entries@
        &&& new.select == old.select
    } else {
        &&& new.output == old.output
        &&& new.select.cursor == moved_position(old.select.cursor as int, old.entries@.len() as int, height / 2, key)
        &&& new.select.scroll == scroll_to_show(old.select.scroll as int, new.select.cursor as int, height)
        &&& new.entries@ == after_action(old.entries@, list_action(key, new.select.cursor))
    }
}

/// The screen after the selected entries left the list (all of them when none was selected).
pub open spec fn entries_removed(old: Mode, new: Mode) -> bool {
    &&& selected_count(old.entries@) == 0 ==> new.entries@ == Seq::<RevisionEntry>::empty() && new.select.cursor == 0
    &&& selected_count(old.entries@) > 0 ==> new.entries@ == unselected_entries(old.entries@) && new.select.cursor
        == cursor_after_removal(old.entries@, old.select.cursor as int)
    &&& new.select.scroll == old.select.scroll
}

/// The screen after entering it: unless it already waits, it waits for a new status with an
/// empty text and input.
pub open spec fn entered(old: Mode, new: Mode, req: Option<Request>) -> bool {
    if old.state is Waiting {
        &&& new == old
        &&& req is None
    } else {
        &&& new.state == State::Waiting(WaitOperation::Refresh)
        &&& new.output.text@ == Seq::<char>::empty()
        &&& new.output.scroll == 0
        &&& new.readline.input@ == Seq::<char>::empty()
        &&& new.entries@ == old.entries@
        &&& new.select == old.select
        &&& req matches Some(Request::Refresh)
    }
}

/// How the status screen takes a key: the new screen and what it answers.
pub open spec fn keyed(old: Mode, new: Mode, viewport_height: u16, key: Key, res: (ModeStatus, Option<Request>)) -> bool {
    &&& (res.0.pending_input == (old.state == State::CommitMessageInput))
    &&& ({
        let h = available_rows(viewport_height);
        match old.state {
            State::Idle | State::Waiting(_) => exists|mid: Mode| #![trigger browsed(old, mid, h, key)] {
                &&& browsed(old, mid, h, key)
                &&& mid.state == old.state
                &&& mid.readline == old.readline
                &&& {
                    let nonempty = mid.entries@.len() > 0;
                    let idle = old.state == State::Idle;
                    if key == Key::Char('c') && nonempty {
                        &&& new.state == State::CommitMessageInput
                        &&& new.output.text@ == Seq::<char>::empty() && new.output.scroll == 0
                        &&& new.readline.input@ == Seq::<char>::empty()
                        &&& new.entries@ == mid.entries@ && new.select == mid.select
                        &&& res.1 is None
                    } else if key == Key::Char('R') && idle && nonempty {
                        &&& new.state == State::Waiting(WaitOperation::Discard)
                        &&& entries_removed(mid, new)
                        &&& new.output == mid.output && new.readline == mid.readline
                        &&& res.1 matches Some(Request::Discard(v)) && v@ == selected_entries(mid.entries@)
                    } else if key == Key::Char('L') && idle && nonempty {
                        &&& new.state == State::Waiting(WaitOperation::ResolveTakingLocal)
                        &&& new.entries@ == mid.entries@ && new.select == mid.select
                        &&& new.output == mid.output && new.readline == mid.readline
                        &&& res.1 matches Some(Request::ResolveTakingOurs(v)) && v@ == selected_entries(mid.entries@)
                    } else if key == Key::Char('O') && idle && nonempty {
                        &&& new.state == State::Waiting(WaitOperation::ResolveTakingOther)
                        &&& new.entries@ == mid.entries@ && new.select == mid.select
                        &&& new.output == mid.output && new.readline == mid.readline
                        &&& res.1 matches Some(Request::ResolveTakingTheirs(v)) && v@ == selected_entries(mid.entries@)
                    } else if key == Key::Char('d') && nonempty {
                        &&& new.state == State::ViewDiff
                        &&& new.output.text@ == Seq::<char>::empty() && new.output.scroll == 0
                        &&& new.entries@ == mid.entries@ && new.select == mid.select
                        &&& new.readline == mid.readline
                        &&& res.1 matches Some(Request::Diff(v)) && v@ == selected_entries(mid.entries@)
                    } else {
                        &&& new.state == old.state
                        &&& new.entries@ == mid.entries@ && new.select == mid.select
                        &&& new.output == mid.output && new.readline == mid.readline
                        &&& res.1 is None
                    }
                }
            },
            State::CommitMessageInput => {
                let input = edited(old.readline.input@, key);
                if submits(key) {
                    &&& new.state == State::Waiting(WaitOperation::Commit)
                    &&& new.readline.input@ == input
                    &&& entries_removed(old, new)
                    &&& new.output == old.output
                    &&& res.1 matches Some(Request::Commit(message, v)) && message@ == input && v@
                        == selected_entries(old.entries@)
                } else if cancels(key) {
                    &&& new.state == State::Waiting(WaitOperation::Refresh)
                    &&& new.output.text@ == Seq::<char>::empty() && new.output.scroll == 0
                    &&& new.readline.input@ == Seq::<char>::empty()
                    &&& new.entries@ == old.entries@ && new.select == old.select
                    &&& res.1 matches Some(Request::Refresh)
                } else {
                    &&& new.state == old.state
                    &&& new.readline.input@ == input
                    &&& new.entries@ == old.entries@ && new.select == old.select
                    &&& new.output == old.output
                    &&& res.1 is None
                }
            },
            State::ViewDiff => {
                &&& new.state == old.state
                &&& new.output.text@ == old.output.text@
                &&& new.output.scroll == moved_position(
                    old.output.scroll as int,
                    lines_spec(old.output.text@).len() as int,
                    h / 2,
                    key,
                )
                &&& new.entries@ == old.entries@ && new.select == old.select
                &&& new.readline == old.readline
                &&& res.1 is None
            },
        }
    })
}

/// How the status screen takes a reply.
pub open spec fn responded(old: Mode, new: Mode, response: Response) -> bool {
    &&& ({
        match response {
            Response::Refresh(info) => {
                let state = if old.state is Waiting {
                    State::Idle
                } else {
                    old.state
                };
                &&& new.state == state
                &&& state == State::Idle ==> new.output.text@ == info.header@ && new.output.scroll == 0
                &&& state != State::Idle ==> new.output == old.output
                &&& new.entries@ == info.entries@
                &&& new.select.cursor == (if info.entries@.len() == 0 {
                    0
                } else if old.select.cursor < info.entries@.len() {
                    old.select.cursor as int
                } else {
                    info.entries@.len() - 1
                })
                &&& new.select.scroll == old.select.scroll
                &&& new.readline == old.readline
            },
            Response::Commit => new == (Mode { state: State::Idle, ..old }),
            Response::Diff(output) => if old.state == State::ViewDiff {
                &&& new.output.text@ == (if output@.len() == 0 {
                    seq!['\n']
                } else {
                    output@
                })
                &&& new.output.scroll == 0
                &&& new == (Mode { output: new.output, ..old })
            } else {
                new == old
            },
        }
    })
}

impl Mode {
    /// A screen with nothing yet.
    pub fn new() -> (res: Mode)
        ensures
            res.state == State::Idle,
            res.entries@ == Seq::<RevisionEntry>::empty(),
            res.output.text@ == Seq::<char>::empty(),
            res.output.scroll == 0,
            res.select.cursor == 0,
            res.select.scroll == 0,
            res.readline.input@ == Seq::<char>::empty(),
    {
        Mode {
            state: State::Idle,
            entries: Vec::new(),
            output: Output::new(),
            select: SelectMenu::new(),
            readline: ReadLine::new(),
        }
    }

    /// Enters the screen: asks for a new status unless one is already awaited.
    pub fn on_enter(&mut self) -> (res: Option<Request>)
        ensures
            entered(*old(self), *final(self), res),
    {
        if let State::Waiting(_) = self.state {
            return None;
        }
        self.state = State::Waiting(WaitOperation::Refresh);
        self.output.set(String::new());
        self.readline.clear();
        Some(Request::Refresh)
    }

    /// Moves through what the idle screen shows.
    fn browse(&mut self, height: usize, key: Key)
        ensures
            browsed(*old(self), *final(self), height as int, key),
            final(self).state == old(self).state,
            final(self).readline == old(self).readline,
    {
        if self.output.line_count() > 1 {
            self.output.on_key(height, key);
        } else {
            let action = self.select.on_key(self.entries.len(), height, key);
            apply_action(&mut self.entries, action);
        }
    }

    /// Handles a key. Returns whether the screen takes text input, and the work to ask of the
    /// backend, if any:
    /// - idle or waiting, the key first moves through the text or the list; then `c` starts a
    ///   commit message, `d` shows the diff of the selected entries, and, when idle, `R`
    ///   discards the selected entries (they leave the list), `L` and `O` resolve them taking
    ///   the local or the other side; all of these need a non-empty list;
    /// - typing a commit message, the key edits it; submitting commits the selected entries
    ///   with it (they leave the list); canceling enters the screen again;
    /// - viewing a diff, the key scrolls it.
    pub fn on_key(&mut self, viewport_height: u16, key: Key) -> (res: (ModeStatus, Option<Request>))
        ensures
            keyed(*old(self), *final(self), viewport_height, key, res),
    {
        let pending_input = self.state == State::CommitMessageInput;
        let height = available_height(viewport_height);
        let status = ModeStatus { pending_input };
        match self.state {
            State::Idle | State::Waiting(_) => {
                let idle = self.state == State::Idle;
                self.browse(height, key);
                let ghost mid = *self;
                assert(browsed(*old(self), mid, available_rows(viewport_height), key));
                let nonempty = self.entries.len() > 0;
                if key == Key::Char('c') && nonempty {
                    self.state = State::CommitMessageInput;
                    self.output.set(String::new());
                    self.readline.clear();
                    (status, None)
                } else if key == Key::Char('R') && idle && nonempty {
                    self.state = State::Waiting(WaitOperation::Discard);
                    let entries = get_selected_entries(&self.entries);
                    remove_selected_entries(&mut self.entries, &mut self.select);
                    (status, Some(Request::Discard(entries)))
                } else if key == Key::Char('L') && idle && nonempty {
                    self.state = State::Waiting(WaitOperation::ResolveTakingLocal);
                    let entries = get_selected_entries(&self.entries);
                    (status, Some(Request::ResolveTakingOurs(entries)))
                } else if key == Key::Char('O') && idle && nonempty {
                    self.state = State::Waiting(WaitOperation::ResolveTakingOther);
                    let entries = get_selected_entries(&self.entries);
                    (status, Some(Request::ResolveTakingTheirs(entries)))
                } else if key == Key::Char('d') && nonempty {
                    self.state = State::ViewDiff;
                    self.output.set(String::new());
                    let entries = get_selected_entries(&self.entries);
                    (status, Some(Request::Diff(entries)))
                } else {
                    (status, None)
                }
            },
            State::CommitMessageInput => {
                self.readline.on_key(key);
                if key.is_submit() {
                    self.state = State::Waiting(WaitOperation::Commit);
                    let message = self.readline.input().to_owned();
                    let entries = get_selected_entries(&self.entries);
                    remove_selected_entries(&mut self.entries, &mut self.select);
                    (status, Some(Request::Commit(message, entries)))
                } else if key.is_cancel() {
                    let request = self.on_enter();
                    (status, request)
                } else {
                    (status, None)
                }
            },
            State::ViewDiff => {
                self.output.on_key(height, key);
                (status, None)
            },
        }
    }

    /// Takes a reply: a new status ends the wait and, when idle, shows its header, replaces
    /// the entries and keeps the cursor on them; a commit ends the wait; a diff shows when the
    /// screen views one (a blank line when empty).
    pub fn on_response(&mut self, response: Response)
        ensures
            ({
                let old = *old(self);
                let new = *final(self);
                match response {
                    Response::Refresh(info) => {
                        let state = if old.state is Waiting {
                            State::Idle
                        } else {
                            old.state
                        };
                        &&& new.state == state
                        &&& state == State::Idle ==> new.output.text@ == info.header@ && new.output.scroll == 0
                        &&& state != State::Idle ==> new.output == old.output
                        &&& new.entries@ == info.entries@
                        &&& new.select.cursor == (if info.entries@.len() == 0 {
                            0
                        } else if old.select.cursor < info.entries@.len() {
                            old.select.cursor as int
                        } else {
                            info.entries@.len() - 1
                        })
                        &&& new.select.scroll == old.select.scroll
                        &&& new.readline == old.readline
                    },
                    Response::Commit => new == (Mode { state: State::Idle, ..old }),
                    Response::Diff(output) => if old.state == State::ViewDiff {
                        &&& new.output.text@ == (if output@.len() == 0 {
                            seq!['\n']
                        } else {
                            output@
                        })
                        &&& new.output.scroll == 0
                        &&& new == (Mode { output: new.output, ..old })
                    } else {
                        new == old
                    },
                }
            }),
    {
        match response {
            Response::Refresh(info) => {
                if let State::Waiting(_) = self.state {
                    self.state = State::Idle;
                }
                let len = info.entries.len();
                self.select.saturate_cursor(len);
                if self.state == State::Idle {
                    self.output.set(info.header);
                }
                self.entries = info.entries;
            },
            Response::Commit => {
                self.state = State::Idle;
            },
            Response::Diff(output) => {
                if self.state == State::ViewDiff {
                    let mut output = output;
                    if output.as_str().unicode_len() == 0 {
                        crate::text::string_push(&mut output, '\n');
                    }
                    self.output.set(output);
                }
            },
        }
    }

    /// Whether the screen waits for a reply: while waiting, and while a diff is awaited.
    pub fn is_waiting_response(&self) -> (res: bool)
        ensures
            res == (match self.state {
                State::Idle | State::CommitMessageInput => false,
                State::Waiting(_) => true,
                State::ViewDiff => self.output.text@.len() == 0,
            }),
    {
        match self.state {
            State::Idle | State::CommitMessageInput => false,
            State::Waiting(_) => true,
            State::ViewDiff => self.output.text().unicode_len() == 0,
        }
    }

    /// The header: the screen's name and its help.
    pub fn header(&self) -> (res: HeaderTexts)
        ensures
            res.name@ == status_name(self.state),
            res.left_help@ == (match self.state {
                State::Idle | State::Waiting(_) => "[c]commit [R]revert [d]diff [L]take local [O]take other"@,
                _ => ""@,
            }),
            res.right_help@ == (match self.state {
                State::Idle | State::Waiting(_) => "[arrows]move [space]toggle [a]toggle all"@,
                State::CommitMessageInput => "[enter]submit [esc]cancel [ctrl+w]delete word [ctrl+u]delete all"@,
                State::ViewDiff => "[arrows]move"@,
            }),
    {
        let name = match self.state {
            State::Idle | State::Waiting(WaitOperation::Refresh) => "status",
            State::CommitMessageInput => "commit message",
            State::Waiting(WaitOperation::Commit) => "commit",
            State::Waiting(WaitOperation::Discard) => "discard",
            State::Waiting(WaitOperation::ResolveTakingLocal) => "resolve taking local",
            State::Waiting(WaitOperation::ResolveTakingOther) => "resolve taking other",
            State::ViewDiff => "diff",
        };
        let (left_help, right_help) = match self.state {
            State::Idle | State::Waiting(_) => (
                "[c]commit [R]revert [d]diff [L]take local [O]take other",
                "[arrows]move [space]toggle [a]toggle all",
            ),
            State::CommitMessageInput => ("", "[enter]submit [esc]cancel [ctrl+w]delete word [ctrl+u]delete all"),
            State::ViewDiff => ("", "[arrows]move"),
        };
        HeaderTexts { name, left_help, right_help }
    }
}

/// What the status screen draws: when idle or waiting, a long text, or else the first line's
/// start, the list below it, and a note when the list is empty; the commit message being
/// typed; or the diff.
pub open spec fn status_drawn(m: Mode, viewport_size: (u16, u16)) -> Seq<u8> {
    match m.state {
        State::Idle | State::Waiting(_) => if shows_long_output(m) {
            output_bytes(m.output, viewport_size)
        } else {
            utf8(take_chars(m.output.text@, saturating_sub(viewport_size.0 as int, 3) + 1)) + clear_line_code()
                + next_line_code() + clear_line_code() + next_line_code() + menu_bytes(
                m.select,
                2,
                false,
                m.entries@,
                viewport_size,
            ) + (if m.entries@.len() == 0 {
                foreground_code(Color::DarkYellow) + utf8(
                    if m.state == State::Idle {
                        "nothing to commit!"@
                    } else {
                        "working..."@
                    },
                )
            } else {
                seq![]
            })
        },
        State::CommitMessageInput => readline_bytes(m.readline.input@, "type in the commit message..."@),
        State::ViewDiff => output_bytes(m.output, viewport_size),
    }
}

impl Mode {
    /// Draws the screen.
    #[verifier::rlimit(40)]
    pub fn draw(&self, drawer: &mut Drawer)
        requires
            drawable(self.output),
        ensures
            final(drawer).buf@ == old(drawer).buf@ + status_drawn(*self, old(drawer).viewport_size),
            final(drawer).viewport_size == old(drawer).viewport_size,
    {
        match self.state {
            State::Idle | State::Waiting(_) => {
                if self.output.line_count() > 1 {
                    drawer.output(&self.output);
                } else {
                    let width = drawer.viewport_size.0 as usize;
                    let n = if width > 3 {
                        width - 3
                    } else {
                        0
                    };
                    let shown = take_chars_exec(self.output.text(), n + 1);
                    drawer.str(shown.as_str());
                    drawer.next_line();
                    drawer.next_line();
                    drawer.select_menu(&self.select, 2, false, &self.entries);
                    if self.entries.len() == 0 {
                        crate::ui::set_foreground_color(&mut drawer.buf, Color::DarkYellow);
                        let message = if self.state == State::Idle {
                            "nothing to commit!"
                        } else {
                            "working..."
                        };
                        drawer.str(message);
                    }
                }
            },
            State::CommitMessageInput => {
                drawer.readline(&self.readline, "type in the commit message...");
            },
            State::ViewDiff => {
                drawer.output(&self.output);
            },
        }
    }
}

/// The name the status screen shows in each state.
pub open spec fn status_name(state: State) -> Seq<char> {
    match state {
        State::Idle | State::Waiting(WaitOperation::Refresh) => "status"@,
        State::CommitMessageInput => "commit message"@,
        State::Waiting(WaitOperation::Commit) => "commit"@,
        State::Waiting(WaitOperation::Discard) => "discard"@,
        State::Waiting(WaitOperation::ResolveTakingLocal) => "resolve taking local"@,
        State::Waiting(WaitOperation::ResolveTakingOther) => "resolve taking other"@,
        State::ViewDiff => "diff"@,
    }
}

/// The status that a request ends with: the new status with its entries ordered by status, or
/// the error as the header with no entries.
pub fn refreshed(result: BackendResult<StatusInfo>) -> (res: StatusInfo)
    ensures
        match result {
            Ok(info) => res.header == info.header && res.entries@.to_multiset() == info.entries@.to_multiset()
                && sorted_by_status(res.entries@),
            Err(error) => res.header == error && res.entries@.len() == 0,
        },
{
    match result {
        Ok(info) => StatusInfo { header: info.header, entries: sort_by_status(info.entries) },
        Err(error) => StatusInfo { header: error, entries: Vec::new() },
    }
}

/// The text a diff request ends with: the diff, or the error.
pub fn diff_text(result: BackendResult<String>) -> (res: String)
    ensures
        match result {
            Ok(output) => res == output,
            Err(error) => res == error,
        },
{
    match result {
        Ok(output) => output,
        Err(error) => error,
    }
}

/// The reply a commit ends with: done, or a status that shows the error with no entries.
pub fn commit_response(result: BackendResult<()>) -> (res: Response)
    ensures
        match result {
            Ok(()) => res is Commit,
            Err(error) => res matches Response::Refresh(info) && info.header == error && info.entries@.len() == 0,
        },
{
    match result {
        Ok(()) => Response::Commit,
        Err(error) => Response::Refresh(StatusInfo { header: error, entries: Vec::new() }),
    }
}

} // verus!
