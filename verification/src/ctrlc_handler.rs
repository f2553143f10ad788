use vstd::prelude::*;

use std::sync::atomic::{AtomicBool, Ordering};
use std::sync::Arc;

verus! {

/// Whether control-c was pressed, shared with the signal handler, and whether the next press
/// is to be ignored.
#[derive(Clone)]
pub struct CtrlcHandler {
    pub state: Arc<AtomicBool>,
    pub should_ignore: bool,
}

impl CtrlcHandler {
    /// A handler that saw no press and ignores none.
    pub fn new() -> (res: CtrlcHandler)
        ensures
            !res.should_ignore,
    {
        CtrlcHandler { state: Arc::new(AtomicBool::new(false)), should_ignore: false }
    }

    /// Records whether control-c was pressed.
    pub fn set(&self, value: bool) {
        self.state.store(value, Ordering::SeqCst);
    }

    /// Makes the next check report no press.
    pub fn ignore_next(&mut self)
        ensures
            final(self).should_ignore,
            final(self).state == old(self).state,
    {
        self.should_ignore = true;
    }

    /// What a check reports given whether a press was recorded: nothing when it was to be
    /// ignored (which it no longer is), else the press.
    pub fn resolve(&mut self, previous: bool) -> (res: bool)
        ensures
            res == (previous && !old(self).should_ignore),
            !final(self).should_ignore,
            final(self).state == old(self).state,
    {
        if self.should_ignore {
            self.should_ignore = false;
            false
        } else {
            previous
        }
    }

    /// Whether control-c was pressed since the last check, clearing the record; after
    /// `ignore_next` the check reports no press. What the record held depends on the signal
    /// handler, so only the ignored case is stated.
    pub fn get(&mut self) -> (res: bool)
        ensures
            old(self).should_ignore ==> !res,
            !final(self).should_ignore,
            final(self).state == old(self).state,
    {
        let previous = self.state.swap(false, Ordering::SeqCst);
        self.resolve(previous)
    }
}

} // verus!
