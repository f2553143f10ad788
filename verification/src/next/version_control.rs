use vstd::prelude::*;

verus! {

/// A version control system, as the screens of `next` drive one.
pub trait VersionControl {}

} // verus!
