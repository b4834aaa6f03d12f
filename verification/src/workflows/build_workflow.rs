//! A single build, lint and test run without the model.

use vstd::prelude::*;
use crate::runtimetools::buildresult::Buildresult;
use crate::text::strings_text;
use crate::workflows::buildsystem::{commands, effective_target, Buildcommand, Buildsystem};
use crate::workflows::workflow::{build_steps, steps_result, ProcessEnv};

verus! {

/// Builds, lints and tests a project once.
pub struct BuildWorkflow {
    pub bc: Buildcommand,
    pub projdir: String,
}

impl BuildWorkflow {
    /// The workflow for the project `projdir` built with `bs` into
    /// `targetdir` (taken below `cwd` when relative and `cwd` is known).
    pub fn new(bs: Buildsystem, projdir: &str, targetdir: &str, cwd: Option<&str>) -> (r: Self)
        ensures
            r.bc@ == commands(bs, projdir@, effective_target(targetdir@, crate::vc::git::opt_str(cwd))),
            r.projdir@ == projdir@,
    {
        BuildWorkflow { bc: bs.build_cmd(projdir, targetdir, cwd), projdir: projdir.to_string() }
    }

    /// Builds, lints and tests, stopping at the first failure; it reports
    /// that no further build is needed whatever happened.
    pub fn execute<S: Fn(&Vec<String>, &Option<String>, &Option<String>) -> (i32, Vec<String>, Vec<String>)>(
        &self,
        env: &ProcessEnv,
        spawn: &S,
    ) -> (r: Buildresult)
        requires
            forall|c: &Vec<String>, d: &Option<String>, f: &Option<String>| call_requires(*spawn, (c, d, f)),
        ensures
            exists|b: Buildresult|
                #![trigger steps_result(
                    *spawn,
                    self.projdir@,
                    strings_text(self.bc.build@),
                    strings_text(self.bc.lint@),
                    strings_text(self.bc.test@),
                    *env,
                    b,
                )]
                steps_result(
                    *spawn,
                    self.projdir@,
                    strings_text(self.bc.build@),
                    strings_text(self.bc.lint@),
                    strings_text(self.bc.test@),
                    *env,
                    b,
                ),
            r.result == 0,
            r.projectpath@.len() == 0,
            r.executionpath@.len() == 0,
            strings_text(r.output@) == seq![Seq::<char>::empty()],
    {
        let steps = build_steps(self.projdir.as_str(), &self.bc, env, spawn);
        assert(steps_result(
            *spawn,
            self.projdir@,
            strings_text(self.bc.build@),
            strings_text(self.bc.lint@),
            strings_text(self.bc.test@),
            *env,
            steps,
        ));
        Buildresult::new_no_build()
    }
}

} // verus!
