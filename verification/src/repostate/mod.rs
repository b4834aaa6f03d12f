//! Saving the state of the project's files and going back to it, so that
//! damage done by a step of the model can be undone. With git, saving is
//! `git add -A` and going back is `git checkout .`.

pub mod gitstate;

use vstd::prelude::*;

verus! {

/// A way to save the state of the project's files and to go back to it.
/// `run` runs a command (program and arguments) in a directory and tells
/// whether it succeeded.
pub trait RepoState {
    /// Saves the current state; whether that succeeded.
    fn commit<R: FnOnce(&Vec<String>, &str) -> bool>(&self, run: R) -> bool
        requires
            forall|c: &Vec<String>, d: &str| call_requires(run, (c, d)),
    ;

    /// Goes back to the saved state; whether that succeeded.
    fn restore<R: FnOnce(&Vec<String>, &str) -> bool>(&self, run: R) -> bool
        requires
            forall|c: &Vec<String>, d: &str| call_requires(run, (c, d)),
    ;
}

} // verus!
