use vstd::prelude::*;

use crate::backend::{sort_tags_by_name, sorted_by_name, BackendResult, TagEntry};
use crate::mode::{
    available_height, available_rows, edited, removed_index, tag_names, Filter, HeaderTexts, ModeStatus, Output,
    ReadLine, SelectMenu,
};
use crate::platform::{cancels, submits, Key};
use crate::select::{lemma_matching_bounds, matching};
use crate::ui::{drawable, filter_bytes, menu_bytes, output_bytes, readline_bytes, Drawer};

verus! {

/// A reply to a request of the tags screen.
pub enum Response {
    Refresh(BackendResult<Vec<TagEntry>>),
    Checkout,
}

/// What the tags screen waits for.
#[derive(PartialEq, Eq, Structural, Clone, Copy, Debug)]
pub enum WaitOperation {
    Refresh,
    New,
    Delete,
}

/// Where the tags screen is.
#[derive(PartialEq, Eq, Structural, Clone, Copy, Debug)]
pub enum State {
    Idle,
    Waiting(WaitOperation),
    NewNameInput,
}

/// The work the tags screen asks of the backend. All but the checkout are followed by a new
/// list of tags; the checkout moves to the log.
pub enum Request {
    Refresh,
    Checkout(TagEntry),
    New(String),
    Delete(TagEntry),
}

/// The tags screen: the tags, filtered, to check out, create or delete.
pub struct Mode {
    pub state: State,
    pub entries: Vec<TagEntry>,
    pub output: Output,
    pub select: SelectMenu,
    pub filter: Filter,
    pub readline: ReadLine,
}

/// The name the tags screen shows in each state.
pub open spec fn tags_name(state: State) -> Seq<char> {
    match state {
        State::Idle | State::Waiting(WaitOperation::Refresh) => "tags"@,
        State::Waiting(WaitOperation::New) => "new tag"@,
        State::Waiting(WaitOperation::Delete) => "delete tag"@,
        State::NewNameInput => "new tag name"@,
    }
}

/// The tag under the cursor, by its position in the list, when one is shown there.
pub open spec fn current_index(m: Mode) -> Option<usize> {
    if m.select.cursor < m.filter.visible@.len() {
        Some(m.filter.visible@[m.select.cursor as int])
    } else {
        None
    }
}

/// Whether every tag the filter lets through is in the list.
pub open spec fn tags_wf(m: Mode) -> bool {
    forall|k: int| 0 <= k < m.filter.visible@.len() ==> #[trigger] m.filter.visible@[k] < m.entries@.len()
}

proof fn lemma_matching_wf(m: Mode)
    requires
        m.filter.visible@.map_values(|i: usize| i as int) == matching(tag_names(m.entries@), m.filter.text@),
    ensures
        tags_wf(m),
{
    lemma_matching_bounds(tag_names(m.entries@), m.filter.text@);
    assert forall|k: int| 0 <= k < m.filter.visible@.len() implies #[trigger] m.filter.visible@[k] < m.entries@.len() by {
        assert(m.filter.visible@.map_values(|i: usize| i as int)[k] == m.filter.visible@[k] as int);
    }
}

proof fn lemma_removed_index_bounds(visible: Seq<usize>, index: usize, len: int)
    requires
        forall|k: int| 0 <= k < visible.len() ==> #[trigger] visible[k] < len,
        index < len,
    ensures
        forall|k: int| 0 <= k < removed_index(visible, index).len() ==> #[trigger] removed_index(visible, index)[k] < len - 1,
    decreases visible.len(),
{
    if visible.len() > 0 {
        let rest = visible.drop_last();
        assert forall|k: int| 0 <= k < rest.len() implies #[trigger] rest[k] < len by {
            assert(rest[k] == visible[k]);
        }
        lemma_removed_index_bounds(rest, index, len);
        let r = removed_index(visible, index);
        let rr = removed_index(rest, index);
        let v = visible.last();
        assert(v == visible[visible.len() - 1]);
        assert forall|k: int| 0 <= k < r.len() implies #[trigger] r[k] < len - 1 by {
            if k < rr.len() {
                assert(r[k] == rr[k]);
            }
        }
    }
}

/// How the tags screen takes a key: the new screen and what it answers.
pub open spec fn keyed(old: Mode, new: Mode, viewport_height: u16, key: Key, res: (ModeStatus, Option<Request>)) -> bool {
    &&& (res.0.pending_input == (old.state == State::NewNameInput || old.filter.focus))
    &&& (old.filter.focus ==> {
        &&& new.filter.text@ == edited(old.filter.text@, key)
        &&& new.filter.visible@.map_values(|i: usize| i as int) == matching(
            tag_names(old.entries@),
            new.filter.text@,
        )
        &&& new.state == old.state
        &&& new.entries == old.entries
        &&& res.1 is None
    })
    &&& (!old.filter.focus && old.state == State::NewNameInput ==> {
        let input = edited(old.readline.input@, key);
        if submits(key) {
            &&& new.state == State::Waiting(WaitOperation::New)
            &&& res.1 matches Some(Request::New(name)) && name@ == input
        } else if cancels(key) {
            &&& new.state == State::Waiting(WaitOperation::Refresh)
            &&& new.readline.input@.len() == 0
            &&& res.1 matches Some(Request::Refresh)
        } else {
            &&& new.state == State::NewNameInput
            &&& new.readline.input@ == input
            &&& res.1 is None
        }
    })
    &&& (!old.filter.focus && old.state != State::NewNameInput ==> exists|mid: Mode|
        #![trigger current_index(mid)]
        {
            &&& mid.entries == old.entries
            &&& mid.filter == old.filter
            &&& mid.state == old.state
            &&& match current_index(mid) {
                Some(i) if key == Key::Char('g') => {
                    &&& new.state == old.state
                    &&& res.1 matches Some(Request::Checkout(t)) && t == old.entries@[i as int]
                },
                Some(i) if key == Key::Char('D') => {
                    &&& new.state == State::Waiting(WaitOperation::Delete)
                    &&& new.entries@ == old.entries@.remove(i as int)
                    &&& new.filter.visible@ == removed_index(old.filter.visible@, i)
                    &&& res.1 matches Some(Request::Delete(t)) && t == old.entries@[i as int]
                },
                _ => if key == Key::Ctrl('f') {
                    &&& new.filter.focus
                    &&& new.state == old.state
                    &&& res.1 is None
                } else if key == Key::Char('n') {
                    &&& new.state == State::NewNameInput
                    &&& new.output.text@.len() == 0
                    &&& new.filter.text@.len() == 0 && !new.filter.focus
                    &&& new.readline.input@.len() == 0
                    &&& res.1 is None
                } else {
                    &&& new.state == old.state
                    &&& new.entries == old.entries
                    &&& res.1 is None
                },
            }
        })
}

/// How the tags screen takes a reply.
pub open spec fn responded(old: Mode, new: Mode, response: Response) -> bool {
    &&& (match response {
        Response::Refresh(result) => {
            let state = if old.state is Waiting {
                State::Idle
            } else {
                old.state
            };
            &&& new.state == state
            &&& state == State::Idle ==> match result {
                Ok(entries) => new.entries@ == entries@ && new.output.text@.len() == 0,
                Err(error) => new.entries@.len() == 0 && new.output.text@ == error@,
            }
            &&& state != State::Idle ==> new.entries@.len() == 0 && new.output.text@.len() == 0
            &&& new.filter.visible@.map_values(|i: usize| i as int) == matching(
                tag_names(new.entries@),
                old.filter.text@,
            )
        },
        Response::Checkout => new == (Mode { state: State::Idle, ..old }),
    })
}

impl Mode {
    /// A screen with nothing yet.
    pub fn new() -> (res: Mode)
        ensures
            res.state == State::Idle,
            res.entries@.len() == 0,
            res.output.text@.len() == 0,
            res.readline.input@.len() == 0,
            !res.filter.focus,
            tags_wf(res),
    {
        Mode {
            state: State::Idle,
            entries: Vec::new(),
            output: Output::new(),
            select: SelectMenu::new(),
            filter: Filter::new(),
            readline: ReadLine::new(),
        }
    }

    /// Shows the tags the filter lets through, the cursor on the entry it was on.
    fn refilter(&mut self, height: usize)
        ensures
            tags_wf(*final(self)),
            final(self).filter.visible@.map_values(|i: usize| i as int) == matching(
                tag_names(old(self).entries@),
                old(self).filter.text@,
            ),
            final(self).filter.text == old(self).filter.text,
            final(self).filter.focus == old(self).filter.focus,
            final(self).state == old(self).state,
            final(self).entries == old(self).entries,
            final(self).output == old(self).output,
            final(self).readline == old(self).readline,
    {
        let cursor = self.filter.filter(&self.entries, self.select.cursor);
        self.select.fix_cursor_on_filter(cursor, height);
        proof {
            lemma_matching_wf(*self);
        }
    }

    /// Enters the screen: asks for the tags unless a reply is awaited, with an empty text and
    /// input.
    pub fn on_enter(&mut self, viewport_height: u16) -> (res: Option<Request>)
        requires
            tags_wf(*old(self)),
        ensures
            tags_wf(*final(self)),
            old(self).state is Waiting ==> *final(self) == *old(self) && res is None,
            !(old(self).state is Waiting) ==> final(self).state == State::Waiting(WaitOperation::Refresh)
                && final(self).output.text@.len() == 0 && final(self).readline.input@.len() == 0
                && final(self).entries == old(self).entries && final(self).filter.text == old(self).filter.text
                && (res matches Some(Request::Refresh)),
    {
        if let State::Waiting(_) = self.state {
            return None;
        }
        self.state = State::Waiting(WaitOperation::Refresh);
        self.output.set(String::new());
        self.refilter(available_height(viewport_height));
        self.readline.clear();
        Some(Request::Refresh)
    }

    /// Handles a key. With the filter focused, the key edits the filter. Otherwise, idle or
    /// waiting, the key moves the cursor (or scrolls the text); then control-f focuses the
    /// filter, `g` checks out the tag under the cursor, `n` starts a new tag name, and `D`
    /// deletes the tag under the cursor (it leaves the list). Typing a name, the key edits it;
    /// submitting creates the tag, canceling enters the screen again.
    pub fn on_key(&mut self, viewport_height: u16, key: Key) -> (res: (ModeStatus, Option<Request>))
        requires
            tags_wf(*old(self)),
        ensures
            tags_wf(*final(self)),
            keyed(*old(self), *final(self), viewport_height, key, res),
    {
        let pending_input = self.state == State::NewNameInput || self.filter.has_focus();
        let height = available_height(viewport_height);
        let status = ModeStatus { pending_input };
        if self.filter.has_focus() {
            self.filter.on_key(key);
            self.refilter(height);
            return (status, None);
        }
        match self.state {
            State::Idle | State::Waiting(_) => {
                if self.output.text().unicode_len() == 0 {
                    let count = self.filter.visible_indices().len();
                    self.select.on_key(count, height, key);
                } else {
                    self.output.on_key(height, key);
                }
                let ghost mid = *self;
                let current = self.filter.get_visible_index(self.select.cursor);
                assert(current == current_index(mid));
                if key == Key::Ctrl('f') {
                    self.filter.enter();
                    (status, None)
                } else if key == Key::Char('g') {
                    match current {
                        Some(i) => {
                            let entry = self.entries[i].copy();
                            (status, Some(Request::Checkout(entry)))
                        },
                        None => (status, None),
                    }
                } else if key == Key::Char('n') {
                    self.state = State::NewNameInput;
                    self.output.set(String::new());
                    self.filter.clear();
                    self.readline.clear();
                    (status, None)
                } else if key == Key::Char('D') {
                    match current {
                        Some(i) => {
                            let entry = self.entries[i].copy();
                            self.state = State::Waiting(WaitOperation::Delete);
                            proof {
                                lemma_removed_index_bounds(self.filter.visible@, i, self.entries@.len() as int);
                            }
                            self.entries.remove(i);
                            self.filter.on_remove_entry(i);
                            let cursor = self.select.cursor();
                            self.select.on_remove_entry(cursor);
                            (status, Some(Request::Delete(entry)))
                        },
                        None => (status, None),
                    }
                } else {
                    (status, None)
                }
            },
            State::NewNameInput => {
                self.readline.on_key(key);
                if key.is_submit() {
                    self.state = State::Waiting(WaitOperation::New);
                    let name = self.readline.input().to_owned();
                    (status, Some(Request::New(name)))
                } else if key.is_cancel() {
                    let request = self.on_enter(viewport_height);
                    (status, request)
                } else {
                    (status, None)
                }
            },
        }
    }

    /// Takes a reply: new tags end the wait and, when idle, replace the entries or show the
    /// error; the filter then applies to them. A checkout ends the wait.
    pub fn on_response(&mut self, viewport_height: u16, response: Response)
        requires
            tags_wf(*old(self)),
        ensures
            tags_wf(*final(self)),
            responded(*old(self), *final(self), response),
    {
        match response {
            Response::Refresh(result) => {
                self.entries = Vec::new();
                self.output.set(String::new());
                if let State::Waiting(_) = self.state {
                    self.state = State::Idle;
                }
                if self.state == State::Idle {
                    match result {
                        Ok(entries) => self.entries = entries,
                        Err(error) => self.output.set(error),
                    }
                }
                self.refilter(available_height(viewport_height));
            },
            Response::Checkout => {
                self.state = State::Idle;
            },
        }
    }

    /// Whether the screen waits for a reply.
    pub fn is_waiting_response(&self) -> (res: bool)
        ensures
            res == (self.state is Waiting),
    {
        match self.state {
            State::Idle | State::NewNameInput => false,
            State::Waiting(_) => true,
        }
    }

    /// The header: the screen's name and its help.
    pub fn header(&self) -> (res: HeaderTexts)
        ensures
            res.name@ == tags_name(self.state),
            res.left_help@ == (if self.state == State::NewNameInput {
                ""@
            } else {
                "[g]checkout [n]new [D]delete"@
            }),
            res.right_help@ == (if self.state == State::NewNameInput {
                "[enter]submit [esc]cancel [ctrl+w]delete word [ctrl+u]delete all"@
            } else {
                "[arrows]move [ctrl+f]filter"@
            }),
    {
        let name = match self.state {
            State::Idle | State::Waiting(WaitOperation::Refresh) => "tags",
            State::Waiting(WaitOperation::New) => "new tag",
            State::Waiting(WaitOperation::Delete) => "delete tag",
            State::NewNameInput => "new tag name",
        };
        if self.state == State::NewNameInput {
            HeaderTexts {
                name,
                left_help: "",
                right_help: "[enter]submit [esc]cancel [ctrl+w]delete word [ctrl+u]delete all",
            }
        } else {
            HeaderTexts { name, left_help: "[g]checkout [n]new [D]delete", right_help: "[arrows]move [ctrl+f]filter" }
        }
    }
}

/// The tags a request ends with: ordered by name, or the error.
pub fn tags_result(result: BackendResult<Vec<TagEntry>>) -> (res: BackendResult<Vec<TagEntry>>)
    ensures
        match result {
            Ok(tags) => res matches Ok(sorted) && sorted@.to_multiset() == tags@.to_multiset() && sorted_by_name(
                sorted@,
            ),
            Err(error) => res == Err::<Vec<TagEntry>, String>(error),
        },
{
    match result {
        Ok(tags) => Ok(sort_tags_by_name(tags)),
        Err(error) => Err(error),
    }
}

/// The reply a checkout of a tag ends with: done, or the error as the tags.
pub fn checkout_response(result: BackendResult<()>) -> (res: Response)
    ensures
        match result {
            Ok(()) => res is Checkout,
            Err(error) => res matches Response::Refresh(Err(e)) && e == error,
        },
{
    match result {
        Ok(()) => Response::Checkout,
        Err(error) => Response::Refresh(Err(error)),
    }
}

/// The tags the filter lets through, in order.
pub open spec fn visible_tags(m: Mode) -> Seq<TagEntry> {
    m.filter.visible@.map_values(|i: usize| m.entries@[i as int])
}

/// What the tags screen draws: the filter bar, then the filtered list or the text, or the
/// name being typed.
pub open spec fn tags_drawn(m: Mode, viewport_size: (u16, u16)) -> Seq<u8> {
    let rows = if m.filter.text@.len() > 0 { 1int } else { 0int };
    filter_bytes(m.filter, viewport_size) + match m.state {
        State::NewNameInput => readline_bytes(m.readline.input@, "type in the tag name..."@),
        _ => if m.output.text@.len() == 0 {
            menu_bytes(m.select, rows, false, visible_tags(m), viewport_size)
        } else {
            output_bytes(m.output, viewport_size)
        },
    }
}

impl Mode {
    /// The tags the filter lets through.
    pub fn visible_entries(&self) -> (res: Vec<TagEntry>)
        requires
            tags_wf(*self),
        ensures
            res@ == visible_tags(*self),
    {
        let mut res: Vec<TagEntry> = Vec::new();
        let mut k: usize = 0;
        while k < self.filter.visible.len()
            invariant
                k <= self.filter.visible@.len(),
                tags_wf(*self),
                res@ == self.filter.visible@.take(k as int).map_values(|i: usize| self.entries@[i as int]),
            decreases self.filter.visible.len() - k,
        {
            let i = self.filter.visible[k];
            res.push(self.entries[i].copy());
            assert(self.filter.visible@.take(k as int + 1) == self.filter.visible@.take(k as int).push(i));
            k = k + 1;
        }
        assert(self.filter.visible@.take(self.filter.visible@.len() as int) == self.filter.visible@);
        res
    }

    /// Draws the screen.
    #[verifier::rlimit(40)]
    pub fn draw(&self, drawer: &mut Drawer)
        requires
            drawable(self.output),
            tags_wf(*self),
        ensures
            final(drawer).buf@ == old(drawer).buf@ + tags_drawn(*self, old(drawer).viewport_size),
            final(drawer).viewport_size == old(drawer).viewport_size,
    {
        let rows = drawer.filter(&self.filter);
        match self.state {
            State::NewNameInput => {
                drawer.readline(&self.readline, "type in the tag name...");
            },
            _ => {
                if self.output.text().unicode_len() == 0 {
                    let visible = self.visible_entries();
                    drawer.select_menu(&self.select, rows, false, &visible);
                } else {
                    drawer.output(&self.output);
                }
            },
        }
    }
}

} // verus!
