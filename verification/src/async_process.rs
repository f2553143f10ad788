use vstd::prelude::*;

verus! {

/// What a finished process gave: whether it succeeded, and its output.
#[derive(Clone)]
pub struct ChildOutput {
    pub success: bool,
    pub output: String,
}

impl ChildOutput {
    /// A successful result with the given output.
    pub fn from_ok(output: String) -> (res: Self)
        ensures
            res.success,
            res.output == output,
    {
        ChildOutput { success: true, output }
    }

    /// A failed result with the given output.
    pub fn from_err(output: String) -> (res: Self)
        ensures
            !res.success,
            res.output == output,
    {
        ChildOutput { success: false, output }
    }
}

} // verus!
