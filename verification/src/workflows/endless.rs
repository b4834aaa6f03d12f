//! A workflow that lets the model work until it declares the task done.

use vstd::prelude::*;
use crate::agenttools::all_tools::ToolOutput;
use crate::json::JsonValue;
use crate::runtimetools::llmcall::{call_functions_ready, ran, LlmCall, LlmCallResult};
use crate::workflows::runbuild::RunBuildResult;
use crate::workflows::workflow::run_budget;

verus! {

/// The model works on the task without a build in between.
pub struct EndlessWorkflow {
    pub llm_call: LlmCall,
    pub projdir: String,
    pub targetdir: String,
}

impl EndlessWorkflow {
    /// The workflow for `projdir` and `targetdir`.
    pub fn new(llm_call: LlmCall, projdir: &str, targetdir: &str) -> (r: Self)
        ensures
            r.llm_call == llm_call,
            r.projdir@ == projdir@,
            r.targetdir@ == targetdir@,
    {
        EndlessWorkflow { llm_call, projdir: projdir.to_string(), targetdir: targetdir.to_string() }
    }

    /// One `run` without a problem; a success when the model is done.
    pub fn execute<S: Fn(&str, u32) -> Result<JsonValue, String>, X: Fn(&JsonValue) -> ToolOutput>(
        &mut self,
        send: &S,
        exec: &X,
    ) -> (r: RunBuildResult)
        requires
            call_functions_ready(*send, *exec),
            run_budget(old(self).llm_call, 1),
        ensures
            exists|res: LlmCallResult|
                #![trigger ran(*send, *exec, old(self).llm_call, Seq::<char>::empty(), final(self).llm_call, res)]
                ran(*send, *exec, old(self).llm_call, Seq::<char>::empty(), final(self).llm_call, res) && (r
                    == RunBuildResult::Succeeded <==> res is Done),
            *final(self) == (EndlessWorkflow { llm_call: final(self).llm_call, ..*old(self) }),
    {
        let ghost before = self.llm_call;
        assert(1 * ((self.llm_call.max_workflow_fail + 1) * self.llm_call.max_tool_call_fail) == (
        self.llm_call.max_workflow_fail + 1) * self.llm_call.max_tool_call_fail);
        let res = self.llm_call.run("", send, exec);
        proof {
            reveal_strlit("");
            assert(""@ =~= Seq::<char>::empty());
        }
        assert(ran(*send, *exec, before, Seq::<char>::empty(), self.llm_call, res));
        if res.is_done() {
            RunBuildResult::Succeeded
        } else {
            RunBuildResult::Failed
        }
    }
}

} // verus!
