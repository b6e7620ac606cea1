use vstd::prelude::*;

verus! {

/// How one pipeline stage terminated, as observed when waiting on it.
///
/// A stage that exited normally carries its exit code; a stage that was
/// torn down without exiting normally (for example by a signal) carries
/// none.
#[derive(Clone, Copy, Debug, PartialEq, Eq)]
pub struct StageStatus {
    pub code: Option<i32>,
}

impl StageStatus {
    /// A stage succeeded exactly when it exited normally with code zero.
    pub open spec fn spec_success(self) -> bool {
        self.code == Some(0i32)
    }

    /// Returns whether this termination counts as success.
    pub fn success(&self) -> (r: bool)
        ensures
            r == self.spec_success(),
    {
        match self.code {
            Some(c) => c == 0,
            None => false,
        }
    }
}

} // verus!
