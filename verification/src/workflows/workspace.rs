//! A workflow for a workspace: its commands are those of the workspace,
//! run in the project, and a failed build is handed to the model.

use vstd::prelude::*;
use crate::agenttools::all_tools::ToolOutput;
use crate::json::JsonValue;
use crate::runtimetools::buildresult::Buildresult;
use crate::runtimetools::llmcall::{call_functions_ready, LlmCall};
use crate::text::strings_text;
use crate::workflows::buildsystem::{commands, effective_target, Buildcommand, Buildsystem};
use crate::workflows::workflow::{build_steps, execute_build_llm, fixed_by_model, run_budget, steps_result, workflow_success, ProcessEnv, WorkflowResult};

verus! {

/// The workflow of a project inside a workspace.
pub struct WorkspaceWorkflow {
    pub llm_call: LlmCall,
    pub bc: Buildcommand,
    pub projdir: String,
    pub workspacedir: String,
    pub targetdir: String,
}

impl WorkspaceWorkflow {
    /// The workflow for `projdir` in `workspacedir`, whose commands are those
    /// of `bs` for the workspace, building into `targetdir` (taken below
    /// `cwd` when relative and `cwd` is known).
    pub fn new(llm_call: LlmCall, bs: Buildsystem, projdir: &str, workspacedir: &str, targetdir: &str, cwd: Option<&str>) -> (r: Self)
        ensures
            r.llm_call == llm_call,
            r.bc@ == commands(bs, workspacedir@, effective_target(targetdir@, crate::vc::git::opt_str(cwd))),
            r.projdir@ == projdir@,
            r.workspacedir@ == workspacedir@,
            r.targetdir@ == targetdir@,
    {
        WorkspaceWorkflow {
            llm_call,
            bc: bs.build_cmd(workspacedir, targetdir, cwd),
            projdir: projdir.to_string(),
            workspacedir: workspacedir.to_string(),
            targetdir: targetdir.to_string(),
        }
    }

    /// Builds, lints and tests in the project, stopping at the first
    /// failure.
    pub fn build<S: Fn(&Vec<String>, &Option<String>, &Option<String>) -> (i32, Vec<String>, Vec<String>)>(
        &self,
        env: &ProcessEnv,
        spawn: &S,
    ) -> (r: Buildresult)
        requires
            forall|c: &Vec<String>, d: &Option<String>, f: &Option<String>| call_requires(*spawn, (c, d, f)),
        ensures
            steps_result(
                *spawn,
                self.projdir@,
                strings_text(self.bc.build@),
                strings_text(self.bc.lint@),
                strings_text(self.bc.test@),
                *env,
                r,
            ),
    {
        build_steps(self.projdir.as_str(), &self.bc, env, spawn)
    }

    /// Builds and lets the model fix a failure (see `execute_build_llm`).
    pub fn execute<
        B: Fn(&Vec<String>, &Option<String>, &Option<String>) -> (i32, Vec<String>, Vec<String>),
        S: Fn(&str, u32) -> Result<JsonValue, String>,
        X: Fn(&JsonValue) -> ToolOutput,
    >(&mut self, env: &ProcessEnv, spawn: &B, send: &S, exec: &X) -> (r: WorkflowResult)
        requires
            forall|c: &Vec<String>, d: &Option<String>, f: &Option<String>| call_requires(*spawn, (c, d, f)),
            call_functions_ready(*send, *exec),
            run_budget(old(self).llm_call, 1),
        ensures
            exists|b: Buildresult|
                #![trigger steps_result(
                    *spawn,
                    old(self).projdir@,
                    strings_text(old(self).bc.build@),
                    strings_text(old(self).bc.lint@),
                    strings_text(old(self).bc.test@),
                    *env,
                    b,
                )]
                {
                    &&& steps_result(
                        *spawn,
                        old(self).projdir@,
                        strings_text(old(self).bc.build@),
                        strings_text(old(self).bc.lint@),
                        strings_text(old(self).bc.test@),
                        *env,
                        b,
                    )
                    &&& fixed_by_model(*send, *exec, old(self).llm_call, b, final(self).llm_call, r)
                },
            *final(self) == (WorkspaceWorkflow { llm_call: final(self).llm_call, ..*old(self) }),
    {
        let br = self.build(env, spawn);
        let ghost bv = br;
        let ghost before = self.llm_call;
        let r = execute_build_llm(&br, &mut self.llm_call, send, exec);
        assert(fixed_by_model(*send, *exec, before, bv, self.llm_call, r));
        r
    }
}

} // verus!
