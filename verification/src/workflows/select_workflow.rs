//! Which workflow carries out which task.

use vstd::prelude::*;
use crate::tasks::Tasks;

verus! {

/// The workflows a task can be carried out by.
#[derive(Debug, Clone, Copy, PartialEq, Eq, Structural)]
pub enum SelectedWorkflow {
    Build,
    BuildLintTest,
    Generate,
    Doc,
    ReleaseDoc,
    Transpile,
    SetupBuild,
    Workspace,
}

/// The workflow of each task.
pub open spec fn workflow_of(t: Tasks) -> SelectedWorkflow {
    match t {
        Tasks::Analyze => SelectedWorkflow::Doc,
        Tasks::Build => SelectedWorkflow::Build,
        Tasks::FixCode => SelectedWorkflow::BuildLintTest,
        Tasks::GenCode => SelectedWorkflow::Generate,
        Tasks::ReviewCode => SelectedWorkflow::Doc,
        Tasks::ReviewDoc => SelectedWorkflow::Doc,
        Tasks::ReleaseDoc => SelectedWorkflow::ReleaseDoc,
        Tasks::SetupBuild => SelectedWorkflow::SetupBuild,
        Tasks::TranspileCode => SelectedWorkflow::Transpile,
        Tasks::WriteBlockDoc => SelectedWorkflow::Doc,
        Tasks::WriteItemDoc => SelectedWorkflow::Doc,
        Tasks::WriteModuleDoc => SelectedWorkflow::Doc,
        Tasks::WriteTestCode => SelectedWorkflow::BuildLintTest,
    }
}

/// Chooses the workflow for a task.
pub struct WorkflowSelector {}

impl WorkflowSelector {
    /// The selector.
    pub fn new() -> (r: Self)
        ensures
            r == (WorkflowSelector {}),
    {
        WorkflowSelector {}
    }

    /// The workflow that carries out `aitask`.
    pub fn select(&self, aitask: Tasks) -> (r: SelectedWorkflow)
        ensures
            r == workflow_of(aitask),
    {
        match aitask {
            Tasks::Analyze => SelectedWorkflow::Doc,
            Tasks::Build => SelectedWorkflow::Build,
            Tasks::FixCode => SelectedWorkflow::BuildLintTest,
            Tasks::GenCode => SelectedWorkflow::Generate,
            Tasks::ReviewCode => SelectedWorkflow::Doc,
            Tasks::ReviewDoc => SelectedWorkflow::Doc,
            Tasks::ReleaseDoc => SelectedWorkflow::ReleaseDoc,
            Tasks::SetupBuild => SelectedWorkflow::SetupBuild,
            Tasks::TranspileCode => SelectedWorkflow::Transpile,
            Tasks::WriteBlockDoc => SelectedWorkflow::Doc,
            Tasks::WriteItemDoc => SelectedWorkflow::Doc,
            Tasks::WriteModuleDoc => SelectedWorkflow::Doc,
            Tasks::WriteTestCode => SelectedWorkflow::BuildLintTest,
        }
    }
}

} // verus!
