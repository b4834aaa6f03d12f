//! A workflow that sets up the build of a project.

use vstd::prelude::*;
use crate::workflows::buildsystem::{commands, effective_target, words, Buildsystem};
use crate::workflows::runbuild::RunBuildResult;

verus! {

/// Runs the setup command of the project's build system.
pub struct SetupBuildWorkflow {
    pub bs: Buildsystem,
    pub projdir: String,
    pub targetdir: String,
}

impl SetupBuildWorkflow {
    /// The workflow for `projdir` built with `bs` into `targetdir`.
    pub fn new(bs: Buildsystem, projdir: &str, targetdir: &str) -> (r: Self)
        ensures
            r.bs == bs,
            r.projdir@ == projdir@,
            r.targetdir@ == targetdir@,
    {
        SetupBuildWorkflow { bs, projdir: projdir.to_string(), targetdir: targetdir.to_string() }
    }

    /// Runs the setup command (see `Buildsystem::setupbuild`); always a
    /// success.
    pub fn execute<R: Fn(&Vec<String>, &str) -> bool>(&self, cwd: Option<&str>, run: &R) -> (r: RunBuildResult)
        requires
            forall|c: &Vec<String>, d: &str| call_requires(*run, (c, d)),
        ensures
            r == RunBuildResult::Succeeded,
            ({
                let setup = commands(
                    self.bs,
                    self.projdir@,
                    effective_target(
                        self.targetdir@,
                        match cwd {
                            Some(c) => Some(c@),
                            None => None,
                        },
                    ),
                ).setup;
                setup.len() > 0 ==> exists|c: &Vec<String>, d: &str, ok: bool|
                    words(c@) == setup && d@ == self.projdir@ && call_ensures(*run, (c, d), ok)
            }),
    {
        self.bs.setupbuild(self.projdir.as_str(), self.targetdir.as_str(), cwd, run);
        RunBuildResult::Succeeded
    }
}

} // verus!
