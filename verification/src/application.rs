use vstd::prelude::*;

use crate::mode::{log, revision_details, status, tags, ModeKind, ModeStatus};
use crate::mode::log::log_name;
use crate::mode::status::{entered, status_name};
use crate::mode::tags::{tags_name, tags_wf};
use crate::platform::{cancels, Key};
use crate::text::{str_equal, utf8};
use crate::ui::{background_code, clear_end_code, drawable, header_bytes, Color, Drawer};

verus! {

/// The work a screen asks of the backend, tagged by the screen.
pub enum ModeRequest {
    Status(status::Request),
    Log(log::Request),
    RevisionDetails(revision_details::Request),
    Tags(tags::Request),
}

/// A reply of the backend, tagged by the screen it is for.
pub enum ModeResponse {
    Status(status::Response),
    Log(log::Response),
    RevisionDetails(revision_details::Response),
    Tags(tags::Response),
}

/// The screens and which one is shown, with the step of the spinner in the header.
pub struct Application {
    pub current_mode: ModeKind,
    pub status_mode: status::Mode,
    pub log_mode: log::Mode,
    pub revision_details_mode: revision_details::Mode,
    pub tags_mode: tags::Mode,
    pub spinner_state: u8,
}

/// What every state of the application keeps: the tags screen's filter shows only tags it
/// has, and the spinner is at one of its four steps.
pub open spec fn app_wf(a: Application) -> bool {
    tags_wf(a.tags_mode) && a.spinner_state < 4
}

/// The screens in order: status, log, revision details, branches, tags.
pub open spec fn slot(mode: ModeKind) -> int {
    match mode {
        ModeKind::Status => 0,
        ModeKind::Log => 1,
        ModeKind::RevisionDetails(_) => 2,
        ModeKind::Branches => 3,
        ModeKind::Tags => 4,
    }
}

/// The screen a reply is for.
pub open spec fn response_slot(r: ModeResponse) -> int {
    match r {
        ModeResponse::Status(_) => 0,
        ModeResponse::Log(_) => 1,
        ModeResponse::RevisionDetails(_) => 2,
        ModeResponse::Tags(_) => 4,
    }
}

/// The screen a request comes from, when there is one.
pub open spec fn request_slot(r: ModeRequest) -> int {
    match r {
        ModeRequest::Status(_) => 0,
        ModeRequest::Log(_) => 1,
        ModeRequest::RevisionDetails(_) => 2,
        ModeRequest::Tags(_) => 4,
    }
}

/// Whether a request, if any, comes from the screen at `s`.
pub open spec fn from_slot(r: Option<ModeRequest>, s: int) -> bool {
    match r {
        Some(x) => request_slot(x) == s,
        None => true,
    }
}

/// Every screen but the one at `s` is as it was.
pub open spec fn untouched_except(o: Application, n: Application, s: int) -> bool {
    &&& s != 0 ==> n.status_mode == o.status_mode
    &&& s != 1 ==> n.log_mode == o.log_mode
    &&& s != 2 ==> n.revision_details_mode == o.revision_details_mode
    &&& s != 4 ==> n.tags_mode == o.tags_mode
}

/// The status screen's request inside a request.
pub open spec fn as_status(r: Option<ModeRequest>) -> Option<status::Request> {
    match r {
        Some(ModeRequest::Status(x)) => Some(x),
        _ => None,
    }
}

/// The log screen's request inside a request.
pub open spec fn as_log(r: Option<ModeRequest>) -> Option<log::Request> {
    match r {
        Some(ModeRequest::Log(x)) => Some(x),
        _ => None,
    }
}

/// The details screen's request inside a request.
pub open spec fn as_details(r: Option<ModeRequest>) -> Option<revision_details::Request> {
    match r {
        Some(ModeRequest::RevisionDetails(x)) => Some(x),
        _ => None,
    }
}

/// The tags screen's request inside a request.
pub open spec fn as_tags(r: Option<ModeRequest>) -> Option<tags::Request> {
    match r {
        Some(ModeRequest::Tags(x)) => Some(x),
        _ => None,
    }
}

/// Entering the log: unless a reply is awaited, it waits for a new log, with an empty text.
pub open spec fn log_entered(old: log::Mode, new: log::Mode, req: Option<log::Request>) -> bool {
    if old.state is Waiting {
        new == old && req is None
    } else {
        &&& new.state == log::State::Waiting(log::WaitOperation::Refresh)
        &&& new.output.text@ == Seq::<char>::empty() && new.output.scroll == 0
        &&& new.entries == old.entries && new.select == old.select
        &&& req matches Some(log::Request::Refresh)
    }
}

/// Entering the details of `revision`: unless a reply is awaited, it waits for them, with
/// an empty text and the cursor on top.
pub open spec fn details_entered(
    old: revision_details::Mode,
    new: revision_details::Mode,
    req: Option<revision_details::Request>,
    revision: Seq<char>,
) -> bool {
    if old.state == revision_details::State::Waiting {
        new == old && req is None
    } else {
        &&& new.state == revision_details::State::Waiting
        &&& new.output.text@ == Seq::<char>::empty() && new.output.scroll == 0
        &&& new.select.cursor == 0 && new.select.scroll == old.select.scroll
        &&& new.entries == old.entries
        &&& req matches Some(revision_details::Request::Info(r)) && r@ == revision
    }
}

/// Entering the tags: unless a reply is awaited, it waits for the tags, with an empty text
/// and input.
pub open spec fn tags_entered(old: tags::Mode, new: tags::Mode, req: Option<tags::Request>) -> bool {
    if old.state is Waiting {
        new == old && req is None
    } else {
        &&& new.state == tags::State::Waiting(tags::WaitOperation::Refresh)
        &&& new.output.text@.len() == 0 && new.readline.input@.len() == 0
        &&& new.entries == old.entries && new.filter.text == old.filter.text
        &&& req matches Some(tags::Request::Refresh)
    }
}

/// Entering a screen: it becomes the current one and is entered; the others stay.
pub open spec fn mode_entered(o: Application, n: Application, mode: ModeKind, req: Option<ModeRequest>) -> bool {
    &&& n.current_mode == mode
    &&& n.spinner_state == o.spinner_state
    &&& untouched_except(o, n, slot(mode))
    &&& from_slot(req, slot(mode))
    &&& match mode {
        ModeKind::Status => entered(o.status_mode, n.status_mode, as_status(req)),
        ModeKind::Log => log_entered(o.log_mode, n.log_mode, as_log(req)),
        ModeKind::RevisionDetails(r) => details_entered(
            o.revision_details_mode,
            n.revision_details_mode,
            as_details(req),
            r@,
        ),
        ModeKind::Branches => req is None,
        ModeKind::Tags => tags_entered(o.tags_mode, n.tags_mode, as_tags(req)),
    }
}

/// Whether two screens are the same one (the details of any revision are one screen).
pub open spec fn same_kind(a: ModeKind, b: ModeKind) -> bool {
    slot(a) == slot(b)
}

/// Whether the current screen takes text, so that its keys neither quit nor switch screens.
pub open spec fn pending_of(a: Application) -> bool {
    match a.current_mode {
        ModeKind::Status => a.status_mode.state == status::State::CommitMessageInput,
        ModeKind::Tags => a.tags_mode.state == tags::State::NewNameInput || a.tags_mode.filter.focus,
        _ => false,
    }
}

/// The screen a key switches to: `s` status, `l` log, `b` branches, `t` tags.
pub open spec fn switch_target(key: Key) -> Option<ModeKind> {
    match key {
        Key::Char('s') => Some(ModeKind::Status),
        Key::Char('l') => Some(ModeKind::Log),
        Key::Char('b') => Some(ModeKind::Branches),
        Key::Char('t') => Some(ModeKind::Tags),
        _ => None,
    }
}

/// The current screen took a key: only it may change, and a request comes from it.
pub open spec fn mode_keyed(o: Application, mid: Application, req: Option<ModeRequest>) -> bool {
    &&& mid.current_mode == o.current_mode
    &&& mid.spinner_state == o.spinner_state
    &&& untouched_except(o, mid, slot(o.current_mode))
    &&& from_slot(req, slot(o.current_mode))
    &&& o.current_mode is Branches ==> req is None
}

/// How the current screen took a key, as that screen's own key handling states it; its
/// request comes back tagged by the screen.
pub open spec fn screen_keyed(o: Application, mid: Application, viewport_height: u16, key: Key, req: Option<ModeRequest>) -> bool {
    match o.current_mode {
        ModeKind::Status => status::keyed(
            o.status_mode,
            mid.status_mode,
            viewport_height,
            key,
            (ModeStatus { pending_input: pending_of(o) }, as_status(req)),
        ),
        ModeKind::Log => log::keyed(
            o.log_mode,
            mid.log_mode,
            viewport_height,
            key,
            (ModeStatus { pending_input: false }, as_log(req)),
        ),
        ModeKind::RevisionDetails(r) => revision_details::keyed(
            o.revision_details_mode,
            mid.revision_details_mode,
            viewport_height,
            r@,
            key,
            (ModeStatus { pending_input: false }, as_details(req)),
        ),
        ModeKind::Branches => mid == o,
        ModeKind::Tags => tags::keyed(
            o.tags_mode,
            mid.tags_mode,
            viewport_height,
            key,
            (ModeStatus { pending_input: pending_of(o) }, as_tags(req)),
        ),
    }
}

/// How the screen a reply is for took it, as that screen's own reply handling states it.
pub open spec fn screen_responded(o: Application, n: Application, response: ModeResponse) -> bool {
    match response {
        ModeResponse::Status(r) => status::responded(o.status_mode, n.status_mode, r),
        ModeResponse::Log(r) => log::responded(o.log_mode, n.log_mode, r),
        ModeResponse::RevisionDetails(r) => revision_details::responded(o.revision_details_mode, n.revision_details_mode, r),
        ModeResponse::Tags(r) => tags::responded(o.tags_mode, n.tags_mode, r),
    }
}

/// After the current screen took a key that it does not keep for text: a switching key
/// enters its screen; any other key changes nothing more.
pub open spec fn switched(mid: Application, n: Application, pending: bool, key: Key, req: Option<ModeRequest>) -> bool {
    if !pending && !cancels(key) && switch_target(key) is Some {
        mode_entered(mid, n, switch_target(key)->0, req)
    } else {
        n == mid && req is None
    }
}

/// Whether the current screen waits for a reply.
pub open spec fn waiting_of(a: Application) -> bool {
    match a.current_mode {
        ModeKind::Status => match a.status_mode.state {
            status::State::Idle | status::State::CommitMessageInput => false,
            status::State::Waiting(_) => true,
            status::State::ViewDiff => a.status_mode.output.text@.len() == 0,
        },
        ModeKind::Log => a.log_mode.state is Waiting,
        ModeKind::RevisionDetails(_) => a.revision_details_mode.state == revision_details::State::Waiting || (
        a.revision_details_mode.state == revision_details::State::ViewDiff
            && a.revision_details_mode.output.text@.len() == 0),
        ModeKind::Branches => false,
        ModeKind::Tags => a.tags_mode.state is Waiting,
    }
}

/// The spinner's character at each of its steps.
pub open spec fn spinner_at(step: int) -> u8 {
    if step == 0 {
        45u8
    } else if step == 1 {
        92u8
    } else if step == 2 {
        124u8
    } else {
        47u8
    }
}

/// The name and the left and right help of the current screen's header.
pub open spec fn header_texts(a: Application) -> (Seq<char>, Seq<char>, Seq<char>) {
    match a.current_mode {
        ModeKind::Status => {
            let s = a.status_mode.state;
            (
                status_name(s),
                match s {
                    status::State::Idle | status::State::Waiting(_) => "[c]commit [R]revert [d]diff [L]take local [O]take other"@,
                    _ => ""@,
                },
                match s {
                    status::State::Idle | status::State::Waiting(_) => "[arrows]move [space]toggle [a]toggle all"@,
                    status::State::CommitMessageInput => "[enter]submit [esc]cancel [ctrl+w]delete word [ctrl+u]delete all"@,
                    status::State::ViewDiff => "[arrows]move"@,
                },
            )
        },
        ModeKind::Log => (log_name(a.log_mode.state), ""@, ""@),
        ModeKind::RevisionDetails(_) => (
            if a.revision_details_mode.state == revision_details::State::ViewDiff {
                "diff"@
            } else {
                "revision details"@
            },
            ""@,
            ""@,
        ),
        ModeKind::Branches => ("branches"@, ""@, ""@),
        ModeKind::Tags => {
            let s = a.tags_mode.state;
            (
                tags_name(s),
                if s == tags::State::NewNameInput {
                    ""@
                } else {
                    "[g]checkout [n]new [D]delete"@
                },
                if s == tags::State::NewNameInput {
                    "[enter]submit [esc]cancel [ctrl+w]delete word [ctrl+u]delete all"@
                } else {
                    "[arrows]move [ctrl+f]filter"@
                },
            )
        },
    }
}

/// Whether the current screen's text can be drawn.
pub open spec fn body_drawable(a: Application) -> bool {
    match a.current_mode {
        ModeKind::Status => drawable(a.status_mode.output),
        ModeKind::Log => drawable(a.log_mode.output),
        ModeKind::RevisionDetails(_) => drawable(a.revision_details_mode.output),
        ModeKind::Branches => true,
        ModeKind::Tags => drawable(a.tags_mode.output),
    }
}

/// What the current screen draws below the header.
pub open spec fn body_drawn(a: Application, viewport_size: (u16, u16)) -> Seq<u8> {
    match a.current_mode {
        ModeKind::Status => status::status_drawn(a.status_mode, viewport_size),
        ModeKind::Log => log::log_drawn(a.log_mode, viewport_size),
        ModeKind::RevisionDetails(_) => revision_details::details_drawn(a.revision_details_mode, viewport_size),
        ModeKind::Branches => seq![],
        ModeKind::Tags => tags::tags_drawn(a.tags_mode, viewport_size),
    }
}

/// The screen a key switches to.
pub fn switch_target_of(key: Key) -> (res: Option<ModeKind>)
    ensures
        res == switch_target(key),
{
    match key {
        Key::Char('s') => Some(ModeKind::Status),
        Key::Char('l') => Some(ModeKind::Log),
        Key::Char('b') => Some(ModeKind::Branches),
        Key::Char('t') => Some(ModeKind::Tags),
        _ => None,
    }
}

/// Whether two screens are the same one.
pub fn is_same_kind(a: &ModeKind, b: &ModeKind) -> (res: bool)
    ensures
        res == same_kind(*a, *b),
{
    match (a, b) {
        (ModeKind::Status, ModeKind::Status) => true,
        (ModeKind::Log, ModeKind::Log) => true,
        (ModeKind::RevisionDetails(_), ModeKind::RevisionDetails(_)) => true,
        (ModeKind::Branches, ModeKind::Branches) => true,
        (ModeKind::Tags, ModeKind::Tags) => true,
        _ => false,
    }
}

impl Application {
    /// The application on the status screen, every screen empty.
    pub fn new() -> (res: Application)
        ensures
            app_wf(res),
            res.current_mode == ModeKind::Status,
            res.spinner_state == 0,
            res.status_mode.state == status::State::Idle,
            res.log_mode.state == log::State::Idle,
            res.revision_details_mode.state == revision_details::State::Idle,
            res.tags_mode.state == tags::State::Idle,
    {
        Application {
            current_mode: ModeKind::Status,
            status_mode: status::Mode::new(),
            log_mode: log::Mode::new(),
            revision_details_mode: revision_details::Mode::new(),
            tags_mode: tags::Mode::new(),
            spinner_state: 0,
        }
    }

    /// Shows a screen and enters it; the request is what entering asks of the backend.
    pub fn enter_mode(&mut self, viewport_size: (u16, u16), mode: ModeKind) -> (res: Option<ModeRequest>)
        requires
            app_wf(*old(self)),
        ensures
            app_wf(*final(self)),
            mode_entered(*old(self), *final(self), mode, res),
    {
        let res = match &mode {
            ModeKind::Status => match self.status_mode.on_enter() {
                Some(r) => Some(ModeRequest::Status(r)),
                None => None,
            },
            ModeKind::Log => match self.log_mode.on_enter() {
                Some(r) => Some(ModeRequest::Log(r)),
                None => None,
            },
            ModeKind::RevisionDetails(revision) => match self.revision_details_mode.on_enter(revision.as_str()) {
                Some(r) => Some(ModeRequest::RevisionDetails(r)),
                None => None,
            },
            ModeKind::Branches => None,
            ModeKind::Tags => match self.tags_mode.on_enter(viewport_size.1) {
                Some(r) => Some(ModeRequest::Tags(r)),
                None => None,
            },
        };
        self.current_mode = mode;
        res
    }

    /// Enters a screen again when it is the one shown; otherwise nothing changes.
    pub fn refresh_mode(&mut self, viewport_size: (u16, u16), mode: ModeKind) -> (res: Option<ModeRequest>)
        requires
            app_wf(*old(self)),
        ensures
            app_wf(*final(self)),
            same_kind(old(self).current_mode, mode) ==> mode_entered(*old(self), *final(self), mode, res),
            !same_kind(old(self).current_mode, mode) ==> *final(self) == *old(self) && res is None,
    {
        if is_same_kind(&self.current_mode, &mode) {
            self.enter_mode(viewport_size, mode)
        } else {
            None
        }
    }

    /// The place of the current screen among the screens.
    pub fn current_slot(&self) -> (res: u8)
        ensures
            res as int == slot(self.current_mode),
    {
        match &self.current_mode {
            ModeKind::Status => 0,
            ModeKind::Log => 1,
            ModeKind::RevisionDetails(_) => 2,
            ModeKind::Branches => 3,
            ModeKind::Tags => 4,
        }
    }

    /// The revision whose details are shown; empty on the other screens.
    pub fn current_revision(&self) -> (res: String)
        ensures
            self.current_mode matches ModeKind::RevisionDetails(r) ==> res@ == r@,
    {
        match &self.current_mode {
            ModeKind::RevisionDetails(r) => r.clone(),
            _ => String::new(),
        }
    }

    /// Hands a key to the current screen, which may answer with a request (the first one).
    /// Unless that screen takes text, a canceling key then quits, which the first part of the
    /// result reports as `false`, and `s`, `l`, `b` and `t` switch to their screens, with
    /// what entering asks (the second request).
    pub fn on_key(&mut self, viewport_size: (u16, u16), key: Key) -> (res: (bool, Option<ModeRequest>, Option<ModeRequest>))
        requires
            app_wf(*old(self)),
        ensures
            app_wf(*final(self)),
            res.0 == (pending_of(*old(self)) || !cancels(key)),
            ({
                let o = *old(self);
                let n = *final(self);
                exists|mid: Application| #![trigger mode_keyed(o, mid, res.1)]
                    {
                        &&& mode_keyed(o, mid, res.1)
                        &&& screen_keyed(o, mid, viewport_size.1, key, res.1)
                        &&& app_wf(mid)
                        &&& switched(mid, n, pending_of(o), key, res.2)
                    }
            }),
    {
        let height = viewport_size.1;
        let current = self.current_slot();
        let revision = self.current_revision();
        let (status, req): (ModeStatus, Option<ModeRequest>) = if current == 0 {
            let (s, r) = self.status_mode.on_key(height, key);
            (s, match r {
                Some(x) => Some(ModeRequest::Status(x)),
                None => None,
            })
        } else if current == 1 {
            let (s, r) = self.log_mode.on_key(height, key);
            (s, match r {
                Some(x) => Some(ModeRequest::Log(x)),
                None => None,
            })
        } else if current == 2 {
            let (s, r) = self.revision_details_mode.on_key(height, revision.as_str(), key);
            (s, match r {
                Some(x) => Some(ModeRequest::RevisionDetails(x)),
                None => None,
            })
        } else if current == 4 {
            let (s, r) = self.tags_mode.on_key(height, key);
            (s, match r {
                Some(x) => Some(ModeRequest::Tags(x)),
                None => None,
            })
        } else {
            (ModeStatus { pending_input: false }, None)
        };
        let ghost mid = *self;
        assert(mode_keyed(*old(self), mid, req));
        assert(screen_keyed(*old(self), mid, height, key, req));
        assert(app_wf(mid));
        assert(status.pending_input == pending_of(*old(self)));
        if !status.pending_input {
            if key.is_cancel() {
                assert(switched(mid, *self, pending_of(*old(self)), key, None));
                let res = (false, req, None);
                assert(mode_keyed(*old(self), mid, res.1));
                assert(switched(mid, *self, pending_of(*old(self)), key, res.2));
                return res;
            }
            match switch_target_of(key) {
                Some(target) => {
                    let entered = self.enter_mode(viewport_size, target);
                    let res = (true, req, entered);
                    assert(mode_keyed(*old(self), mid, res.1));
                    assert(switched(mid, *self, pending_of(*old(self)), key, res.2));
                    return res;
                },
                None => {},
            }
        }
        let res = (true, req, None);
        assert(mode_keyed(*old(self), mid, res.1));
        assert(switched(mid, *self, pending_of(*old(self)), key, res.2));
        res
    }

    /// Hands a reply to the screen it is for; the current screen stays.
    pub fn on_response(&mut self, viewport_size: (u16, u16), response: ModeResponse)
        requires
            app_wf(*old(self)),
        ensures
            app_wf(*final(self)),
            final(self).current_mode == old(self).current_mode,
            final(self).spinner_state == old(self).spinner_state,
            untouched_except(*old(self), *final(self), response_slot(response)),
            screen_responded(*old(self), *final(self), response),
    {
        match response {
            ModeResponse::Status(r) => self.status_mode.on_response(r),
            ModeResponse::Log(r) => self.log_mode.on_response(r),
            ModeResponse::RevisionDetails(r) => self.revision_details_mode.on_response(r),
            ModeResponse::Tags(r) => self.tags_mode.on_response(viewport_size.1, r),
        }
    }

    /// Whether the current screen waits for a reply.
    pub fn is_waiting_response(&self) -> (res: bool)
        ensures
            res == waiting_of(*self),
    {
        match &self.current_mode {
            ModeKind::Status => self.status_mode.is_waiting_response(),
            ModeKind::Log => self.log_mode.is_waiting_response(),
            ModeKind::RevisionDetails(_) => self.revision_details_mode.is_waiting_response(),
            ModeKind::Branches => false,
            ModeKind::Tags => self.tags_mode.is_waiting_response(),
        }
    }

    /// Steps the spinner and draws the header of the current screen, with the spinner while
    /// the screen waits and a blank otherwise.
    pub fn draw_header(&mut self, drawer: &mut Drawer)
        requires
            app_wf(*old(self)),
        ensures
            app_wf(*final(self)),
            final(self).spinner_state == (old(self).spinner_state + 1) % 4,
            final(self).current_mode == old(self).current_mode,
            untouched_except(*old(self), *final(self), -1),
            ({
                let texts = header_texts(*old(self));
                let spinner = if waiting_of(*old(self)) {
                    spinner_at(final(self).spinner_state as int)
                } else {
                    32u8
                };
                final(drawer).buf@ == old(drawer).buf@ + header_bytes(
                    texts.0,
                    utf8(texts.1),
                    utf8(texts.2),
                    spinner,
                    old(drawer).viewport_size.0 as int,
                )
            }),
            final(drawer).viewport_size == old(drawer).viewport_size,
    {
        self.spinner_state = (self.spinner_state + 1) % 4;
        let spinner: u8 = if self.is_waiting_response() {
            if self.spinner_state == 0 {
                45u8
            } else if self.spinner_state == 1 {
                92u8
            } else if self.spinner_state == 2 {
                124u8
            } else {
                47u8
            }
        } else {
            32u8
        };
        match &self.current_mode {
            ModeKind::Status => {
                let h = self.status_mode.header();
                drawer.header(h.name, h.left_help, h.right_help, spinner);
            },
            ModeKind::Log => {
                let h = self.log_mode.header();
                drawer.header(h.name, "", "", spinner);
            },
            ModeKind::RevisionDetails(_) => {
                let h = self.revision_details_mode.header();
                drawer.header(h.name, "", "", spinner);
            },
            ModeKind::Branches => {
                drawer.header("branches", "", "", spinner);
            },
            ModeKind::Tags => {
                let h = self.tags_mode.header();
                drawer.header(h.name, h.left_help, h.right_help, spinner);
            },
        }
    }

    /// Draws the current screen below the header and clears the rest of the terminal.
    pub fn draw_body(&self, drawer: &mut Drawer)
        requires
            app_wf(*self),
            body_drawable(*self),
        ensures
            final(drawer).buf@ == old(drawer).buf@ + body_drawn(*self, old(drawer).viewport_size) + background_code(
                Color::Black,
            ) + clear_end_code(),
            final(drawer).viewport_size == old(drawer).viewport_size,
    {
        match &self.current_mode {
            ModeKind::Status => self.status_mode.draw(drawer),
            ModeKind::Log => self.log_mode.draw(drawer),
            ModeKind::RevisionDetails(_) => self.revision_details_mode.draw(drawer),
            ModeKind::Branches => {
                assert(old(drawer).buf@ + body_drawn(*self, old(drawer).viewport_size) =~= old(drawer).buf@);
            },
            ModeKind::Tags => self.tags_mode.draw(drawer),
        }
        drawer.clear_to_bottom();
    }
}


/// What the program does with its command line arguments (after the program's name).
#[derive(PartialEq, Eq, Debug)]
pub enum CommandLine {
    /// No argument: run on the repository of the current directory.
    Run,
    /// More than one argument.
    TooManyArgs,
    /// `-h` or `--help`.
    Help,
    /// `-v` or `--version`.
    Version,
    /// Any other single argument.
    Invalid(String),
}

/// Whether an argument asks for the help.
pub open spec fn is_help_flag(a: Seq<char>) -> bool {
    a == "-h"@ || a == "--help"@
}

/// Whether an argument asks for the version.
pub open spec fn is_version_flag(a: Seq<char>) -> bool {
    a == "-v"@ || a == "--version"@
}

/// Reads the command line arguments: none runs the application, one asks for the help or
/// the version, and anything else is refused.
pub fn command_line(args: &Vec<String>) -> (res: CommandLine)
    ensures
        args@.len() == 0 ==> res == CommandLine::Run,
        args@.len() > 1 ==> res == CommandLine::TooManyArgs,
        args@.len() == 1 ==> {
            let a = args@[0]@;
            if is_help_flag(a) {
                res == CommandLine::Help
            } else if is_version_flag(a) {
                res == CommandLine::Version
            } else {
                res matches CommandLine::Invalid(s) && s@ == a
            }
        },
{
    if args.len() == 0 {
        return CommandLine::Run;
    }
    if args.len() > 1 {
        return CommandLine::TooManyArgs;
    }
    let a = args[0].as_str();
    if str_equal(a, "-h") || str_equal(a, "--help") {
        CommandLine::Help
    } else if str_equal(a, "-v") || str_equal(a, "--version") {
        CommandLine::Version
    } else {
        CommandLine::Invalid(args[0].clone())
    }
}

} // verus!

