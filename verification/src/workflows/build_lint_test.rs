//! Building, linting and testing a project, and letting the model fix what
//! fails.

use vstd::prelude::*;
use crate::agenttools::all_tools::ToolOutput;
use crate::json::JsonValue;
use crate::runtimetools::buildresult::Buildresult;
use crate::runtimetools::buildresult::buildresult_text;
use crate::runtimetools::llmcall::{call_functions_ready, only_messages_changed, step_answer, step_request, LlmCall, LlmCallResult};
use crate::text::{append_str, from_chars, strings_text, to_chars};
use crate::workflows::buildsystem::{commands, effective_target, Buildcommand, Buildsystem};
use crate::workflows::workflow::{build_steps, execute_build_llm, fixed_by_model, run_budget, steps_result, with_context, ProcessEnv, WorkflowResult};

verus! {

/// The build, lint and test workflow of a project.
pub struct BLTWorkflow {
    pub llm_call: LlmCall,
    pub bc: Buildcommand,
    pub projdir: String,
    pub targetdir: String,
}

/// What the workflow does with the failed build `b`, from the call
/// `before` to `after`: the model is asked (with `fix_prompt`, at most 2048
/// tokens, showing the sources) to analyse the report of the build; a failed
/// step ends the workflow with its outcome, else the analysis becomes the
/// context and the model fixes the build (see `fixed_by_model`).
pub open spec fn fix_attempted<S: Fn(&str, u32) -> Result<JsonValue, String>, X: Fn(&JsonValue) -> ToolOutput>(
    send: S,
    exec: X,
    before: LlmCall,
    fix_prompt: Seq<char>,
    b: Buildresult,
    after: LlmCall,
    r: WorkflowResult,
) -> bool {
    exists|s: &str, resp: Result<JsonValue, String>, a: Result<String, LlmCallResult>|
        #![trigger call_ensures(send, (s, 2048u32), resp), step_answer(resp, a)]
        {
            &&& s@ == step_request(before.messages, fix_prompt, buildresult_text(b), true)
            &&& call_ensures(send, (s, 2048u32), resp)
            &&& step_answer(resp, a)
            &&& match a {
                Err(x) => r == WorkflowResult::LlmCallResult(x) && after == before,
                Ok(t) => exists|mid: LlmCall|
                    #![trigger with_context(before, "=== FIX ANALYSIS ===\n"@ + t@, mid)]
                    with_context(before, "=== FIX ANALYSIS ===\n"@ + t@, mid) && fixed_by_model(
                        send,
                        exec,
                        mid,
                        b,
                        after,
                        r,
                    ),
            }
        }
}

impl BLTWorkflow {
    /// The workflow for the project `projdir` built with `bs` into
    /// `targetdir` (taken below `cwd` when relative and `cwd` is known).
    pub fn new(llm_call: LlmCall, bs: Buildsystem, projdir: &str, targetdir: &str, cwd: Option<&str>) -> (r: Self)
        ensures
            r.llm_call == llm_call,
            r.bc@ == commands(bs, projdir@, effective_target(targetdir@, crate::vc::git::opt_str(cwd))),
            r.projdir@ == projdir@,
            r.targetdir@ == targetdir@,
    {
        BLTWorkflow {
            llm_call,
            bc: bs.build_cmd(projdir, targetdir, cwd),
            projdir: projdir.to_string(),
            targetdir: targetdir.to_string(),
        }
    }

    /// Builds, lints and tests, stopping at the first failure; the result of
    /// the last step run.
    pub fn build<S: Fn(&Vec<String>, &Option<String>, &Option<String>) -> (i32, Vec<String>, Vec<String>)>(
        &self,
        env: &ProcessEnv,
        spawn: &S,
    ) -> (r: Buildresult)
        requires
            forall|c: &Vec<String>, d: &Option<String>, f: &Option<String>| call_requires(*spawn, (c, d, f)),
        ensures
            steps_result(
                *spawn,
                self.projdir@,
                strings_text(self.bc.build@),
                strings_text(self.bc.lint@),
                strings_text(self.bc.test@),
                *env,
                r,
            ),
    {
        build_steps(self.projdir.as_str(), &self.bc, env, spawn)
    }

    /// Builds; when that fails, asks the model (with `fix_prompt`, at most
    /// 2048 tokens, showing the sources) to analyse the report, sets that
    /// analysis as the context, and lets the model fix the build.
    pub fn execute<
        B: Fn(&Vec<String>, &Option<String>, &Option<String>) -> (i32, Vec<String>, Vec<String>),
        S: Fn(&str, u32) -> Result<JsonValue, String>,
        X: Fn(&JsonValue) -> ToolOutput,
    >(&mut self, fix_prompt: &str, env: &ProcessEnv, spawn: &B, send: &S, exec: &X) -> (r: WorkflowResult)
        requires
            forall|c: &Vec<String>, d: &Option<String>, f: &Option<String>| call_requires(*spawn, (c, d, f)),
            call_functions_ready(*send, *exec),
            run_budget(old(self).llm_call, 1),
        ensures
            exists|b: Buildresult|
                #![trigger steps_result(
                    *spawn,
                    old(self).projdir@,
                    strings_text(old(self).bc.build@),
                    strings_text(old(self).bc.lint@),
                    strings_text(old(self).bc.test@),
                    *env,
                    b,
                )]
                {
                    &&& steps_result(
                        *spawn,
                        old(self).projdir@,
                        strings_text(old(self).bc.build@),
                        strings_text(old(self).bc.lint@),
                        strings_text(old(self).bc.test@),
                        *env,
                        b,
                    )
                    &&& (b.result == 0 ==> r is Succeeded && *final(self) == *old(self))
                    &&& (b.result != 0 ==> fix_attempted(
                        *send,
                        *exec,
                        old(self).llm_call,
                        fix_prompt@,
                        b,
                        final(self).llm_call,
                        r,
                    ))
                },
            *final(self) == (BLTWorkflow { llm_call: final(self).llm_call, ..*old(self) }),
    {
        let buildresult = self.build(env, spawn);
        let ghost bv = buildresult;
        if !buildresult.has_error() {
            return WorkflowResult::Succeeded;
        }
        let ghost before = self.llm_call;
        let diagnostic = buildresult.to_string();
        let step = self.llm_call.run_context_step_limited(fix_prompt, diagnostic.as_str(), 2048, send);
        let ghost sv = step;
        let analysis = match step {
            Ok(a) => a,
            Err(result) => {
                let r = WorkflowResult::LlmCallResult(result);
                assert(fix_attempted(*send, *exec, before, fix_prompt@, bv, self.llm_call, r));
                return r;
            },
        };
        let mut c = to_chars("=== FIX ANALYSIS ===\n");
        append_str(&mut c, analysis.as_str());
        self.llm_call.set_context(from_chars(c.as_slice()));
        let ghost mid = self.llm_call;
        assert(with_context(before, "=== FIX ANALYSIS ===\n"@ + analysis@, mid));
        let r = execute_build_llm(&buildresult, &mut self.llm_call, send, exec);
        assert(fixed_by_model(*send, *exec, mid, bv, self.llm_call, r));
        assert(fix_attempted(*send, *exec, before, fix_prompt@, bv, self.llm_call, r));
        r
    }
}

} // verus!
