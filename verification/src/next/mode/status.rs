use vstd::prelude::*;

use crate::mode::{edited, moved_position, HeaderInfo, Output, ReadLine};
use crate::next::application::{cancels, submits, Key};
use crate::next::backend::{BackendResult, FileStatus, StatusEntry, StatusInfo};
use crate::next::mode::{menu_rows, moved_next, next_scroll, ModeContext, SelectMenu, SelectMenuAction};
use crate::next::ui::{Draw, Drawer, OpView};
use crate::text::lines_spec;

verus! {

/// A reply to a request of the status screen.
pub enum Response {
    Refresh(StatusInfo),
    Diff(String),
}

/// What the status screen waits for.
#[derive(PartialEq, Eq, Structural, Clone, Copy, Debug)]
pub enum WaitOperation {
    Refresh,
    Commit,
    Discard,
}

/// Where the status screen is.
#[derive(PartialEq, Eq, Structural, Clone, Copy, Debug)]
pub enum State {
    Idle,
    Waiting(WaitOperation),
    CommitMessageInput,
    ViewDiff,
}

/// A changed file in the list, and whether it is selected.
pub struct Entry {
    pub selected: bool,
    pub name: String,
    pub status: FileStatus,
}

/// The work the status screen asks of the backend. The discard and the commit are followed
/// by a new status; the commit also moves to the log.
pub enum Request {
    Refresh,
    Discard(Vec<StatusEntry>),
    Diff(Vec<StatusEntry>),
    Commit(String, Vec<StatusEntry>),
}

/// The status screen.
pub struct Mode {
    pub state: State,
    pub entries: Vec<Entry>,
    pub output: Output,
    pub select: SelectMenu,
    pub readline: ReadLine,
}

/// The selected entries as files, in order.
pub open spec fn selected_files(v: Seq<Entry>) -> Seq<(Seq<char>, FileStatus)>
    decreases v.len(),
{
    if v.len() == 0 {
        seq![]
    } else if v.last().selected {
        selected_files(v.drop_last()).push((v.last().name@, v.last().status))
    } else {
        selected_files(v.drop_last())
    }
}

/// The entries as plain values: selected, name and status, in order.
pub open spec fn entry_views(v: Seq<Entry>) -> Seq<(bool, Seq<char>, FileStatus)> {
    v.map_values(|e: Entry| (e.selected, e.name@, e.status))
}

/// Whether every entry is selected.
pub open spec fn all_selected(v: Seq<(bool, Seq<char>, FileStatus)>) -> bool {
    forall|k: int| 0 <= k < v.len() ==> (#[trigger] v[k]).0
}

/// The entries after a key on the list with the cursor on `cursor`: space flips the entry
/// under the cursor; control-a selects every entry, or clears them all when all are selected;
/// other keys leave them.
pub open spec fn keyed_entries(v: Seq<(bool, Seq<char>, FileStatus)>, key: Key, cursor: int) -> Seq<(bool, Seq<char>, FileStatus)> {
    match key {
        Key::Char(' ') => if 0 <= cursor < v.len() {
            v.update(cursor, (!v[cursor].0, v[cursor].1, v[cursor].2))
        } else {
            v
        },
        Key::Ctrl('a') => v.map_values(|e: (bool, Seq<char>, FileStatus)| (!all_selected(v), e.1, e.2)),
        _ => v,
    }
}

/// The files as values.
pub open spec fn files_view(v: Seq<StatusEntry>) -> Seq<(Seq<char>, FileStatus)> {
    v.map_values(|e: StatusEntry| (e.name@, e.status))
}

/// The entries that are not selected, in order.
pub open spec fn kept_entries(v: Seq<Entry>) -> Seq<Entry>
    decreases v.len(),
{
    if v.len() == 0 {
        seq![]
    } else if v.last().selected {
        kept_entries(v.drop_last())
    } else {
        kept_entries(v.drop_last()).push(v.last())
    }
}

/// The entries after the selected ones left (all of them when none was selected).
pub open spec fn after_removal(v: Seq<Entry>) -> Seq<Entry> {
    if kept_entries(v).len() == v.len() {
        seq![]
    } else {
        kept_entries(v)
    }
}

/// The name the status screen shows in each state.
pub open spec fn status_name(state: State) -> Seq<char> {
    match state {
        State::Idle | State::Waiting(WaitOperation::Refresh) => "status"@,
        State::CommitMessageInput => "commit message"@,
        State::Waiting(WaitOperation::Commit) => "commit"@,
        State::Waiting(WaitOperation::Discard) => "discard"@,
        State::ViewDiff => "diff"@,
    }
}

/// The selected entries as files.
fn get_selected_entries(entries: &Vec<Entry>) -> (res: Vec<StatusEntry>)
    ensures
        files_view(res@) == selected_files(entries@),
{
    let mut res: Vec<StatusEntry> = Vec::new();
    let mut i: usize = 0;
    assert(entries@.take(0) == Seq::<Entry>::empty());
    while i < entries.len()
        invariant
            i <= entries.len(),
            files_view(res@) == selected_files(entries@.take(i as int)),
        decreases entries.len() - i,
    {
        assert(entries@.take(i as int + 1).drop_last() == entries@.take(i as int));
        if entries[i].selected {
            let ghost before = files_view(res@);
            res.push(StatusEntry { name: entries[i].name.clone(), status: entries[i].status });
            assert(files_view(res@) == before.push((entries@[i as int].name@, entries@[i as int].status)));
        }
        i = i + 1;
    }
    assert(entries@.take(entries.len() as int) == entries@);
    res
}

/// Removes the selected entries, or all of them when none is selected.
fn remove_selected_entries(entries: &mut Vec<Entry>)
    ensures
        final(entries)@ == after_removal(old(entries)@),
{
    let mut kept: Vec<Entry> = Vec::new();
    let previous_len = entries.len();
    let mut rest: Vec<Entry> = Vec::new();
    std::mem::swap(&mut rest, entries);
    let ghost all = rest@;
    let mut i: usize = 0;
    while rest.len() > 0
        invariant
            i + rest.len() == previous_len,
            all.len() == previous_len,
            rest@ == all.skip(i as int),
            kept@ == kept_entries(all.take(i as int)),
        decreases rest.len(),
    {
        let e = rest.remove(0);
        assert(e == all[i as int]);
        assert(all.take(i as int + 1).drop_last() == all.take(i as int));
        if !e.selected {
            kept.push(e);
        }
        i = i + 1;
        assert(rest@ == all.skip(i as int));
    }
    assert(all.take(previous_len as int) == all);
    if kept.len() == previous_len {
        kept = Vec::new();
    }
    *entries = kept;
}

impl Draw for Entry {
    open spec fn drawn(&self, width: u16) -> Seq<OpView> {
        seq![
            OpView::Print(seq![if self.selected { '+' } else { ' ' }]),
            OpView::Print(seq![' ', '[']),
            OpView::Print(crate::next::backend::file_status_name(self.status)),
            OpView::Print(seq![']', ' ']),
            OpView::Print(self.name@),
        ]
    }

    fn draw(&self, drawer: &mut Drawer) {
        drawer.write(if self.selected {
            "+"
        } else {
            " "
        });
        drawer.write(" [");
        drawer.write(self.status.name());
        drawer.write("] ");
        drawer.write(self.name.as_str());
        proof {
            reveal_strlit("+");
            reveal_strlit(" ");
            reveal_strlit(" [");
            reveal_strlit("] ");
        }
        assert(" "@ =~= seq![' ']);
        assert("+"@ =~= seq!['+']);
        assert(" ["@ =~= seq![' ', '[']);
        assert("] "@ =~= seq![']', ' ']);
    }
}

impl Mode {
    /// A screen with nothing yet.
    pub fn new() -> (res: Mode)
        ensures
            res.state == State::Idle,
            res.entries@.len() == 0,
    {
        Mode {
            state: State::Idle,
            entries: Vec::new(),
            output: Output::new(),
            select: SelectMenu::new(),
            readline: ReadLine::new(),
        }
    }

    /// Enters the screen: asks for a new status unless a reply is awaited.
    pub fn on_enter(&mut self) -> (res: Option<Request>)
        ensures
            old(self).state is Waiting ==> *final(self) == *old(self) && res is None,
            !(old(self).state is Waiting) ==> final(self).state == State::Waiting(WaitOperation::Refresh)
                && final(self).output.text@.len() == 0 && final(self).readline.input@.len() == 0
                && final(self).entries == old(self).entries && (res matches Some(Request::Refresh)),
    {
        if let State::Waiting(_) = self.state {
            return None;
        }
        self.state = State::Waiting(WaitOperation::Refresh);
        self.readline.clear();
        self.output.set(String::new());
        Some(Request::Refresh)
    }

    /// Flips the entry at `i`, when there is one; the rest of the screen stays.
    fn toggle(&mut self, i: usize)
        ensures
            final(self).entries@.len() == old(self).entries@.len(),
            final(self).state == old(self).state,
            final(self).output == old(self).output,
            final(self).select == old(self).select,
            final(self).readline == old(self).readline,
            forall|k: int|
                0 <= k < old(self).entries@.len() ==> {
                    &&& (#[trigger] final(self).entries@[k]).name@ == old(self).entries@[k].name@
                    &&& final(self).entries@[k].status == old(self).entries@[k].status
                    &&& final(self).entries@[k].selected == if k == i {
                        !old(self).entries@[k].selected
                    } else {
                        old(self).entries@[k].selected
                    }
                },
    {
        if i < self.entries.len() {
            let e = Entry {
                selected: !self.entries[i].selected,
                name: self.entries[i].name.clone(),
                status: self.entries[i].status,
            };
            self.entries.set(i, e);
        }
    }

    /// Sets every entry to `selected`.
    fn set_all(&mut self, selected: bool)
        ensures
            final(self).entries@.len() == old(self).entries@.len(),
            final(self).state == old(self).state,
            final(self).output == old(self).output,
            final(self).select == old(self).select,
            final(self).readline == old(self).readline,
            forall|k: int| 0 <= k < final(self).entries@.len() ==> {
                &&& (#[trigger] final(self).entries@[k]).selected == selected
                &&& final(self).entries@[k].name@ == old(self).entries@[k].name@
                &&& final(self).entries@[k].status == old(self).entries@[k].status
            },
    {
        let mut k: usize = 0;
        while k < self.entries.len()
            invariant
                k <= self.entries.len(),
                self.entries@.len() == old(self).entries@.len(),
                self.state == old(self).state,
                self.output == old(self).output,
                self.select == old(self).select,
                self.readline == old(self).readline,
                forall|j: int| 0 <= j < self.entries@.len() ==> {
                    &&& (#[trigger] self.entries@[j]).name@ == old(self).entries@[j].name@
                    &&& self.entries@[j].status == old(self).entries@[j].status
                },
                forall|j: int| 0 <= j < k ==> (#[trigger] self.entries@[j]).selected == selected,
            decreases self.entries.len() - k,
        {
            let e = Entry { selected, name: self.entries[k].name.clone(), status: self.entries[k].status };
            self.entries.set(k, e);
            k = k + 1;
        }
    }

    /// Handles a key. Returns whether the screen takes text input, whether to move to the
    /// log, and the work to ask of the backend: idle or waiting, the key moves through the
    /// text or the list (space flips an entry, control-a all), then `c` starts a commit
    /// message, `d` shows the diff and, when idle, `U` discards the selected entries; typing
    /// a message, submitting commits the selected entries and moves to the log, canceling
    /// enters the screen again; viewing a diff, the key scrolls it.
    pub fn on_key(&mut self, ctx: &ModeContext, key: Key) -> (res: (bool, bool, Option<Request>))
        requires
            old(self).select.cursor < usize::MAX,
        ensures
            res.0 == (old(self).state == State::CommitMessageInput),
            match old(self).state {
                State::Idle | State::Waiting(_) => {
                    if key == Key::Char('c') && old(self).entries@.len() > 0 {
                        &&& final(self).state == State::CommitMessageInput && res.2 is None && !res.1
                        &&& final(self).entries@ == old(self).entries@
                        &&& final(self).readline.input@.len() == 0
                    } else if key == Key::Char('U') && old(self).state == State::Idle && old(self).entries@.len() > 0 {
                        &&& final(self).state == State::Waiting(WaitOperation::Discard) && !res.1
                        &&& final(self).entries@ == after_removal(old(self).entries@)
                        &&& res.2 matches Some(Request::Discard(files)) && files_view(files@) == selected_files(old(self).entries@)
                    } else if key == Key::Char('d') && old(self).entries@.len() > 0 {
                        &&& final(self).state == State::ViewDiff && !res.1
                        &&& final(self).entries@ == old(self).entries@
                        &&& final(self).output.text@.len() == 0
                        &&& res.2 matches Some(Request::Diff(files)) && files_view(files@) == selected_files(old(self).entries@)
                    } else {
                        &&& final(self).state == old(self).state && res.2 is None && !res.1
                        &&& if lines_spec(old(self).output.text@).len() > 1 {
                            &&& final(self).output.text@ == old(self).output.text@
                            &&& final(self).output.scroll == moved_position(
                                old(self).output.scroll as int,
                                lines_spec(old(self).output.text@).len() as int,
                                menu_rows(ctx.viewport_size.1) / 2,
                                platform_key(key),
                            )
                            &&& final(self).select == old(self).select
                            &&& entry_views(final(self).entries@) == entry_views(old(self).entries@)
                        } else {
                            &&& final(self).output == old(self).output
                            &&& final(self).select.cursor == moved_next(
                                old(self).select.cursor as int,
                                old(self).entries@.len() as int,
                                menu_rows(ctx.viewport_size.1) / 2,
                                key,
                            )
                            &&& final(self).select.scroll == next_scroll(
                                old(self).select.scroll as int,
                                final(self).select.cursor as int,
                                menu_rows(ctx.viewport_size.1),
                            )
                            &&& entry_views(final(self).entries@) == keyed_entries(
                                entry_views(old(self).entries@),
                                key,
                                final(self).select.cursor as int,
                            )
                        }
                    }
                },
                State::CommitMessageInput => if submits(key) {
                    &&& final(self).state == State::Waiting(WaitOperation::Commit)
                    &&& final(self).entries@ == after_removal(old(self).entries@)
                    &&& res.1
                    &&& res.2 matches Some(Request::Commit(message, files)) && message@ == edited(
                        old(self).readline.input@,
                        crate::next::mode::status::platform_key(key),
                    ) && files_view(files@) == selected_files(old(self).entries@)
                } else if cancels(key) {
                    final(self).state == State::Waiting(WaitOperation::Refresh) && (res.2 matches Some(Request::Refresh))
                        && !res.1
                } else {
                    &&& final(self).state == State::CommitMessageInput
                    &&& final(self).readline.input@ == edited(old(self).readline.input@, platform_key(key))
                    &&& res.2 is None && !res.1
                },
                State::ViewDiff => {
                    &&& final(self).state == State::ViewDiff
                    &&& final(self).output.scroll == moved_position(
                        old(self).output.scroll as int,
                        lines_spec(old(self).output.text@).len() as int,
                        menu_rows(ctx.viewport_size.1) / 2,
                        platform_key(key),
                    )
                    &&& res.2 is None && !res.1
                },
            },
    {
        let pending_input = self.state == State::CommitMessageInput;
        let height: usize = if ctx.viewport_size.1 >= 1 {
            (ctx.viewport_size.1 - 1) as usize
        } else {
            0
        };
        match self.state {
            State::Idle | State::Waiting(_) => {
                let nonempty = self.entries.len() > 0;
                let ghost before = *self;
                if self.output.line_count() > 1 {
                    self.output.on_key(height, to_platform_key(key));
                } else {
                    match self.select.on_key(ctx, self.entries.len(), key) {
                        SelectMenuAction::NoAction => {},
                        SelectMenuAction::Toggle(i) => {
                            self.toggle(i);
                            assert(entry_views(self.entries@) =~= keyed_entries(
                                entry_views(before.entries@),
                                key,
                                i as int,
                            ));
                        },
                        SelectMenuAction::ToggleAll => {
                            let mut all = true;
                            let mut k: usize = 0;
                            while k < self.entries.len()
                                invariant
                                    k <= self.entries.len(),
                                    self.entries@ == before.entries@,
                                    all == (forall|j: int| 0 <= j < k ==> (#[trigger] self.entries@[j]).selected),
                                decreases self.entries.len() - k,
                            {
                                all = all && self.entries[k].selected;
                                k = k + 1;
                            }
                            proof {
                                let ev = entry_views(before.entries@);
                                assert forall|j: int| 0 <= j < ev.len() implies (#[trigger] ev[j]).0
                                    == self.entries@[j].selected by {}
                                assert(ev.len() == self.entries@.len());
                                if all {
                                    assert forall|j: int| 0 <= j < ev.len() implies (#[trigger] ev[j]).0 by {
                                        assert(self.entries@[j].selected);
                                    }
                                } else {
                                    let j = choose|j: int| 0 <= j < k && !(#[trigger] self.entries@[j]).selected;
                                    assert(!ev[j].0);
                                }
                                assert(all == all_selected(ev));
                            }
                            self.set_all(!all);
                            assert(entry_views(self.entries@) =~= keyed_entries(
                                entry_views(before.entries@),
                                key,
                                self.select.cursor as int,
                            ));
                        },
                    }
                }
                if key == Key::Char('c') && nonempty {
                    self.state = State::CommitMessageInput;
                    self.output.set(String::new());
                    self.readline.clear();
                    (pending_input, false, None)
                } else if key == Key::Char('U') && self.state == State::Idle && nonempty {
                    self.state = State::Waiting(WaitOperation::Discard);
                    let entries = get_selected_entries(&self.entries);
                    remove_selected_entries(&mut self.entries);
                    (pending_input, false, Some(Request::Discard(entries)))
                } else if key == Key::Char('d') && nonempty {
                    self.state = State::ViewDiff;
                    self.output.set(String::new());
                    let entries = get_selected_entries(&self.entries);
                    (pending_input, false, Some(Request::Diff(entries)))
                } else {
                    (pending_input, false, None)
                }
            },
            State::CommitMessageInput => {
                self.readline.on_key(to_platform_key(key));
                if key.is_submit() {
                    self.state = State::Waiting(WaitOperation::Commit);
                    let message = self.readline.input().to_owned();
                    let entries = get_selected_entries(&self.entries);
                    remove_selected_entries(&mut self.entries);
                    (pending_input, true, Some(Request::Commit(message, entries)))
                } else if key.is_cancel() {
                    let request = self.on_enter();
                    (pending_input, false, request)
                } else {
                    (pending_input, false, None)
                }
            },
            State::ViewDiff => {
                self.output.on_key(height, to_platform_key(key));
                (pending_input, false, None)
            },
        }
    }

    /// Takes a reply: a new status ends the wait and, when idle, shows its header; the
    /// entries become its files, none selected; a diff shows when the screen views one.
    pub fn on_response(&mut self, response: Response)
        ensures
            match response {
                Response::Refresh(info) => {
                    let state = if old(self).state is Waiting {
                        State::Idle
                    } else {
                        old(self).state
                    };
                    &&& final(self).state == state
                    &&& state == State::Idle ==> final(self).output.text@ == info.header@
                    &&& final(self).entries@.len() == info.entries@.len()
                    &&& forall|k: int| 0 <= k < info.entries@.len() ==> !(#[trigger] final(self).entries@[k]).selected
                        && final(self).entries@[k].name == info.entries@[k].name && final(self).entries@[k].status
                        == info.entries@[k].status
                },
                Response::Diff(output) => if old(self).state == State::ViewDiff {
                    final(self).output.text@ == output@ && final(self).state == State::ViewDiff
                } else {
                    *final(self) == *old(self)
                },
            },
    {
        match response {
            Response::Refresh(info) => {
                if let State::Waiting(_) = self.state {
                    self.state = State::Idle;
                }
                if self.state == State::Idle {
                    self.output.set(info.header);
                }
                let mut entries: Vec<Entry> = Vec::new();
                let mut i: usize = 0;
                while i < info.entries.len()
                    invariant
                        i <= info.entries.len(),
                        entries@.len() == i,
                        forall|k: int| 0 <= k < i ==> !(#[trigger] entries@[k]).selected && entries@[k].name
                            == info.entries@[k].name && entries@[k].status == info.entries@[k].status,
                    decreases info.entries.len() - i,
                {
                    entries.push(Entry { selected: false, name: info.entries[i].name.clone(), status: info.entries[i].status });
                    i = i + 1;
                }
                self.entries = entries;
                let len = self.entries.len();
                self.select.saturate_cursor(len);
            },
            Response::Diff(output) => {
                if self.state == State::ViewDiff {
                    self.output.set(output);
                }
            },
        }
    }

    /// The header: the screen's name, and whether it waits.
    pub fn header(&self) -> (res: HeaderInfo)
        ensures
            res.name@ == status_name(self.state),
            res.waiting_response == (match self.state {
                State::Idle | State::CommitMessageInput => false,
                State::Waiting(WaitOperation::Refresh) => true,
                _ => self.output.text@.len() == 0,
            }),
    {
        let empty_output = self.output.text().unicode_len() == 0;
        match self.state {
            State::Idle => HeaderInfo { name: "status", waiting_response: false },
            State::Waiting(WaitOperation::Refresh) => HeaderInfo { name: "status", waiting_response: true },
            State::CommitMessageInput => HeaderInfo { name: "commit message", waiting_response: false },
            State::Waiting(WaitOperation::Commit) => HeaderInfo { name: "commit", waiting_response: empty_output },
            State::Waiting(WaitOperation::Discard) => HeaderInfo { name: "discard", waiting_response: empty_output },
            State::ViewDiff => HeaderInfo { name: "diff", waiting_response: empty_output },
        }
    }

    /// Draws the screen: a long text, or the text's line and the list below it; the message
    /// being typed; or the diff.
    pub fn draw(&self, drawer: &mut Drawer)
        ensures
            crate::next::ui::ops_view(final(drawer).ops@) == crate::next::ui::ops_view(old(drawer).ops@) + status_ops(
                *self,
                old(drawer).viewport_size,
            ),
            final(drawer).viewport_size == old(drawer).viewport_size,
    {
        match self.state {
            State::Idle | State::Waiting(_) => {
                if self.output.line_count() > 1 {
                    drawer.output(&self.output);
                } else {
                    drawer.write(self.output.text());
                    drawer.next_line();
                    drawer.next_line();
                    drawer.select_menu(&self.select, 2, &self.entries);
                }
            },
            State::CommitMessageInput => drawer.readline(&self.readline),
            State::ViewDiff => drawer.output(&self.output),
        }
    }
}

/// The commands that draw the lines of a text from its scroll on.
pub open spec fn output_ops(output: Output) -> Seq<OpView> {
    crate::next::ui::lines_ops(
        lines_spec(output.text@).skip(
            if output.scroll <= lines_spec(output.text@).len() {
                output.scroll as int
            } else {
                lines_spec(output.text@).len() as int
            },
        ),
    )
}

/// The commands that draw the status screen on a viewport of `viewport_size`.
pub open spec fn status_ops(m: Mode, viewport_size: (u16, u16)) -> Seq<OpView> {
    match m.state {
        State::Idle | State::Waiting(_) => if lines_spec(m.output.text@).len() > 1 {
            output_ops(m.output)
        } else {
            seq![OpView::Print(m.output.text@)] + seq![OpView::ClearUntilNewLine, OpView::MoveToNextLine] + seq![
                OpView::ClearUntilNewLine,
                OpView::MoveToNextLine,
            ] + seq![OpView::SetBackground(crate::next::ui::Color::Black), OpView::SetForeground(crate::next::ui::Color::White)]
                + crate::next::ui::menu_ops(
                m.entries@,
                m.select.scroll as int,
                crate::ui::saturating_sub(viewport_size.1 as int, 3int),
                m.select.cursor as int,
                viewport_size.0,
            )
        },
        State::CommitMessageInput => seq![
            OpView::SetBackground(crate::next::ui::Color::Black),
            OpView::SetForeground(crate::next::ui::Color::White),
            OpView::Print(m.readline.input@),
            OpView::SetBackground(crate::next::ui::Color::DarkRed),
            OpView::Print(seq![' ']),
            OpView::SetBackground(crate::next::ui::Color::Black),
        ],
        State::ViewDiff => output_ops(m.output),
    }
}

/// The same key for the line editor and the text.
pub open spec fn platform_key(key: Key) -> crate::platform::Key {
    match key {
        Key::NoKey => crate::platform::Key::NoKey,
        Key::Backspace => crate::platform::Key::Backspace,
        Key::Enter => crate::platform::Key::Enter,
        Key::Left => crate::platform::Key::Left,
        Key::Right => crate::platform::Key::Right,
        Key::Up => crate::platform::Key::Up,
        Key::Down => crate::platform::Key::Down,
        Key::Home => crate::platform::Key::Home,
        Key::End => crate::platform::Key::End,
        Key::PageUp => crate::platform::Key::PageUp,
        Key::PageDown => crate::platform::Key::PageDown,
        Key::Tab => crate::platform::Key::Tab,
        Key::BackTab => crate::platform::Key::BackTab,
        Key::Delete => crate::platform::Key::Delete,
        Key::Insert => crate::platform::Key::Insert,
        Key::Char(c) => crate::platform::Key::Char(c),
        Key::Ctrl(c) => crate::platform::Key::Ctrl(c),
        Key::Esc => crate::platform::Key::Esc,
    }
}

/// The same key for the line editor and the text.
pub fn to_platform_key(key: Key) -> (res: crate::platform::Key)
    ensures
        res == platform_key(key),
{
    match key {
        Key::NoKey => crate::platform::Key::NoKey,
        Key::Backspace => crate::platform::Key::Backspace,
        Key::Enter => crate::platform::Key::Enter,
        Key::Left => crate::platform::Key::Left,
        Key::Right => crate::platform::Key::Right,
        Key::Up => crate::platform::Key::Up,
        Key::Down => crate::platform::Key::Down,
        Key::Home => crate::platform::Key::Home,
        Key::End => crate::platform::Key::End,
        Key::PageUp => crate::platform::Key::PageUp,
        Key::PageDown => crate::platform::Key::PageDown,
        Key::Tab => crate::platform::Key::Tab,
        Key::BackTab => crate::platform::Key::BackTab,
        Key::Delete => crate::platform::Key::Delete,
        Key::Insert => crate::platform::Key::Insert,
        Key::Char(c) => crate::platform::Key::Char(c),
        Key::Ctrl(c) => crate::platform::Key::Ctrl(c),
        Key::Esc => crate::platform::Key::Esc,
    }
}

/// The status a request ends with: the new status, or the error as the header with no files.
pub fn refreshed(result: BackendResult<StatusInfo>) -> (res: StatusInfo)
    ensures
        match result {
            Ok(info) => res == info,
            Err(error) => res.header == error && res.entries@.len() == 0,
        },
{
    match result {
        Ok(info) => info,
        Err(error) => StatusInfo { header: error, entries: Vec::new() },
    }
}

} // verus!
