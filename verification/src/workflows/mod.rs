//! Workflows: the sequences of steps by which a task is carried out, and
//! the build systems they drive. A workflow decides what happens next; the
//! calls of the model and the commands it runs are done by the components
//! it coordinates.

pub mod buildsystem;
pub mod runbuild;
pub mod workflow;
pub mod build_workflow;
pub mod build_lint_test;
pub mod endless;
pub mod setupbuild;
pub mod doc;
pub mod workspace;
pub mod release_doc;
pub mod select_workflow;

use vstd::prelude::*;

verus! {

/// Something that can be run on its own.
pub trait Runnable {
    fn run();
}

} // verus!
