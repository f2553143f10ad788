use vstd::prelude::*;

verus! {

/// Where a piece of work is: still running, done with a value, or failed with a message.
pub enum Poll<T> {
    Pending,
    Done(T),
    Failed(String),
}

impl<T> Poll<T> {
    /// Whether the work is still running.
    pub fn is_pending(&self) -> (res: bool)
        ensures
            res == (*self is Pending),
    {
        match self {
            Poll::Pending => true,
            _ => false,
        }
    }
}

} // verus!
