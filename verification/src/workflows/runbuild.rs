//! The outcome of a build workflow.

use vstd::prelude::*;

verus! {

/// Whether a build workflow succeeded.
#[derive(Clone, Copy, Debug, PartialEq, Eq, Structural)]
pub enum RunBuildResult {
    Succeeded,
    Failed,
}

impl RunBuildResult {
    /// Whether the workflow succeeded.
    pub fn success(self) -> (b: bool)
        ensures
            b == (self == RunBuildResult::Succeeded),
    {
        self == RunBuildResult::Succeeded
    }
}

} // verus!
