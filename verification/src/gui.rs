use vstd::prelude::*;

verus! {

/// The state of the graphical window: the text of its command input.
pub struct AppState {
    pub command_input_text: String,
}

impl AppState {
    /// The first state: the command input holds a placeholder text.
    pub fn new() -> (res: AppState)
        ensures
            res.command_input_text@ == "hhhhhhhhhhhh"@,
    {
        AppState { command_input_text: "hhhhhhhhhhhh".to_owned() }
    }
}

/// The shortest time between two updates of the window, in milliseconds (sixty a second).
pub open spec fn frame_ms() -> int {
    16
}

/// The pace of the window's event loop: whether the window must be drawn again, and when it
/// last was (in milliseconds).
pub struct EventLoop {
    pub ui_needs_update: bool,
    pub last_update_ms: u64,
}

impl EventLoop {
    /// A loop that draws the window first, started at `now_ms`.
    pub fn new(now_ms: u64) -> (res: EventLoop)
        ensures
            res.ui_needs_update,
            res.last_update_ms == now_ms,
    {
        EventLoop { last_update_ms: now_ms, ui_needs_update: true }
    }

    /// Asks for the window to be drawn again.
    pub fn needs_update(&mut self)
        ensures
            final(self).ui_needs_update,
            final(self).last_update_ms == old(self).last_update_ms,
    {
        self.ui_needs_update = true;
    }

    /// How long to sleep before collecting events at `now_ms`, so that updates come at most
    /// once a frame.
    pub fn wait_before_events(&self, now_ms: u64) -> (res: u64)
        ensures
            now_ms >= self.last_update_ms && now_ms - self.last_update_ms < frame_ms() ==> res == frame_ms() - (now_ms
                - self.last_update_ms),
            !(now_ms >= self.last_update_ms && now_ms - self.last_update_ms < frame_ms()) ==> res == 0,
    {
        if now_ms >= self.last_update_ms && now_ms - self.last_update_ms < 16 {
            16 - (now_ms - self.last_update_ms)
        } else {
            0
        }
    }

    /// Whether to block for the next event: when none came and no update is asked for.
    pub fn must_block(&self, no_events: bool) -> (res: bool)
        ensures
            res == (no_events && !self.ui_needs_update),
    {
        no_events && !self.ui_needs_update
    }

    /// Records that the events were collected at `now_ms`: no update is pending any more.
    pub fn collected(&mut self, now_ms: u64)
        ensures
            !final(self).ui_needs_update,
            final(self).last_update_ms == now_ms,
    {
        self.ui_needs_update = false;
        self.last_update_ms = now_ms;
    }
}

} // verus!
