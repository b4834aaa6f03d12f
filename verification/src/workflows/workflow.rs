//! The outcome of a workflow and the steps that workflows share: running a
//! command of the build system and letting the model fix a failed build.

use vstd::prelude::*;
use crate::agenttools::all_tools::ToolOutput;
use crate::json::JsonValue;
use crate::runtimetools::buildresult::{buildresult_text, limited_text, Buildresult};
use crate::aimessage::AIMessageList;
use crate::runtimetools::llmcall::{call_functions_ready, llm_valid, only_messages_changed, ran, LlmCall, LlmCallResult};
use crate::text::{opt_text, strings_text};
use crate::utils::doprocess::{merged_flags, DoProcess};

verus! {

/// The outcome of a workflow.
#[derive(Debug)]
pub enum WorkflowResult {
    Succeeded,
    LlmCallResult(LlmCallResult),
    BuildResult(Buildresult),
    Error(String),
}

/// Whether a workflow outcome is a success: a plain success, a valid call of
/// the model, or a build without error.
pub open spec fn workflow_success(w: WorkflowResult) -> bool {
    match w {
        WorkflowResult::Succeeded => true,
        WorkflowResult::LlmCallResult(r) => llm_valid(r),
        WorkflowResult::BuildResult(b) => b.result == 0,
        WorkflowResult::Error(_) => false,
    }
}

impl WorkflowResult {
    /// Whether the outcome is a success.
    pub fn success(&self) -> (b: bool)
        ensures
            b == workflow_success(*self),
    {
        match self {
            WorkflowResult::Succeeded => true,
            WorkflowResult::LlmCallResult(result) => result.is_valid(),
            WorkflowResult::BuildResult(result) => !result.has_error(),
            WorkflowResult::Error(_) => false,
        }
    }

    /// Whether the model could not be reached.
    pub fn request_failure(&self) -> (b: bool)
        ensures
            b == (*self matches WorkflowResult::LlmCallResult(r) && r is RequestError),
    {
        match self {
            WorkflowResult::LlmCallResult(result) => result.is_request_error(),
            _ => false,
        }
    }
}

/// The environment commands run in: the current directory and the
/// `RUSTFLAGS` already set, when known.
pub struct ProcessEnv {
    pub current_dir: Option<String>,
    pub rustflags: Option<String>,
}

/// Whether `spawn`, asked to run `cmd` in `dir` in the environment `env`,
/// may have given the build result `b` (see `run_cmd`).
pub open spec fn cmd_result<S: Fn(&Vec<String>, &Option<String>, &Option<String>) -> (i32, Vec<String>, Vec<String>)>(
    spawn: S,
    dir: Seq<char>,
    cmd: Seq<Seq<char>>,
    env: ProcessEnv,
    b: Buildresult,
) -> bool {
    &&& b.projectpath@ == dir
    &&& b.executionpath@ == dir
    &&& if cmd.len() == 0 {
        b.result == 0 && b.output@.len() == 0
    } else {
        exists|c: Vec<String>, d: Option<String>, f: Option<String>, out: (i32, Vec<String>, Vec<String>)|
            #![trigger call_ensures(spawn, (&c, &d, &f), out)]
            {
                &&& strings_text(c@) == cmd
                &&& opt_text(d) == Some(dir)
                &&& opt_text(f) == merged_flags(opt_text(env.current_dir), opt_text(env.rustflags))
                &&& call_ensures(spawn, (&c, &d, &f), out)
                &&& b.result == out.0
                &&& b.output@ == out.1@ + out.2@
            }
    }
}

/// Runs the command `cmd` in `dir` and reports the result: its exit code,
/// `dir` as both paths, and the lines it printed (standard output first).
/// `spawn` may only be asked to run a command that is not empty: an empty
/// command starts no process and gives code 0 and no lines.
pub fn run_cmd<S: Fn(&Vec<String>, &Option<String>, &Option<String>) -> (i32, Vec<String>, Vec<String>)>(
    dir: &str,
    cmd: &Vec<String>,
    env: &ProcessEnv,
    spawn: &S,
) -> (r: Buildresult)
    requires
        forall|c: &Vec<String>, d: &Option<String>, f: &Option<String>| c@.len() > 0 ==> call_requires(*spawn, (c, d, f)),
    ensures
        cmd_result(*spawn, dir@, strings_text(cmd@), *env, r),
{
    let mut lines: Vec<String> = Vec::new();
    let process = DoProcess::from_string_vec(cmd, dir);
    let cd = match &env.current_dir {
        Some(c) => Some(c.as_str()),
        None => None,
    };
    let fl = match &env.rustflags {
        Some(f) => Some(f.as_str()),
        None => None,
    };
    let (code, _all) = process.run_to_lines_combined(&mut lines, cd, fl, spawn);
    let r = Buildresult::new(code, dir.to_string(), dir.to_string(), lines);
    proof {
        if cmd@.len() > 0 {
            let w = choose|flags: Option<String>, out: (i32, Vec<String>, Vec<String>)|
                {
                    &&& opt_text(flags) == merged_flags(
                        match cd {
                            Some(d) => Some(d@),
                            None => None,
                        },
                        match fl {
                            Some(e) => Some(e@),
                            None => None,
                        },
                    )
                    &&& call_ensures(*spawn, (&process.cmd, &process.cwd, &flags), out)
                    &&& lines@ == Seq::<String>::empty() + out.1@ + out.2@
                    &&& code == out.0
                };
            assert(call_ensures(*spawn, (&process.cmd, &process.cwd, &w.0), w.1));
            assert(lines@ =~= w.1.1@ + w.1.2@);
        }
    }
    r
}

/// The builds of a project: build, then lint, then test, stopping at the
/// first that fails; the result of the last one run.
pub open spec fn steps_result<S: Fn(&Vec<String>, &Option<String>, &Option<String>) -> (i32, Vec<String>, Vec<String>)>(
    spawn: S,
    dir: Seq<char>,
    build: Seq<Seq<char>>,
    lint: Seq<Seq<char>>,
    test: Seq<Seq<char>>,
    env: ProcessEnv,
    r: Buildresult,
) -> bool {
    exists|b1: Buildresult|
        #![trigger cmd_result(spawn, dir, build, env, b1)]
        cmd_result(spawn, dir, build, env, b1) && if b1.result != 0 {
            r == b1
        } else {
            exists|b2: Buildresult|
                #![trigger cmd_result(spawn, dir, lint, env, b2)]
                cmd_result(spawn, dir, lint, env, b2) && if b2.result != 0 {
                    r == b2
                } else {
                    cmd_result(spawn, dir, test, env, r)
                }
        }
}

/// Builds, lints and tests in `dir`, stopping at the first failure.
pub fn build_steps<S: Fn(&Vec<String>, &Option<String>, &Option<String>) -> (i32, Vec<String>, Vec<String>)>(
    dir: &str,
    bc: &crate::workflows::buildsystem::Buildcommand,
    env: &ProcessEnv,
    spawn: &S,
) -> (r: Buildresult)
    requires
        forall|c: &Vec<String>, d: &Option<String>, f: &Option<String>| call_requires(*spawn, (c, d, f)),
    ensures
        steps_result(*spawn, dir@, strings_text(bc.build@), strings_text(bc.lint@), strings_text(bc.test@), *env, r),
{
    let br = run_cmd(dir, &bc.build, env, spawn);
    let ghost b1 = br;
    if br.has_error() {
        return br;
    }
    let br = run_cmd(dir, &bc.lint, env, spawn);
    let ghost b2 = br;
    if br.has_error() {
        assert(cmd_result(*spawn, dir@, strings_text(bc.build@), *env, b1));
        return br;
    }
    let br = run_cmd(dir, &bc.test, env, spawn);
    assert(cmd_result(*spawn, dir@, strings_text(bc.build@), *env, b1));
    assert(cmd_result(*spawn, dir@, strings_text(bc.lint@), *env, b2));
    br
}

/// The id budget a call of the model needs for `rounds` runs: every run
/// makes at most `max_workflow_fail + 1` rounds of at most
/// `max_tool_call_fail` tool calls, each taking one message id.
pub open spec fn run_budget(l: LlmCall, rounds: nat) -> bool {
    l.messages.message_id.val + rounds * ((l.max_workflow_fail + 1) * l.max_tool_call_fail) < usize::MAX
}

/// The outcome of letting the model fix the build that gave `b`, from the
/// call `before` to `after` (see `execute_build_llm`): nothing to do
/// without an error; else a `run` on the report of the build (its first 100
/// output lines), whose valid outcome gives back the build result and whose
/// invalid one is returned.
pub open spec fn fixed_by_model<S: Fn(&str, u32) -> Result<JsonValue, String>, X: Fn(&JsonValue) -> ToolOutput>(
    send: S,
    exec: X,
    before: LlmCall,
    b: Buildresult,
    after: LlmCall,
    r: WorkflowResult,
) -> bool {
    if b.result == 0 {
        r is Succeeded && after == before
    } else {
        exists|res: LlmCallResult|
            #![trigger ran(send, exec, before, limited_text(b, 100), after, res)]
            {
                &&& ran(send, exec, before, limited_text(b, 100), after, res)
                &&& if llm_valid(res) {
                    r matches WorkflowResult::BuildResult(x) && x.result == b.result && x.projectpath == b.projectpath
                        && x.executionpath == b.executionpath && x.output@ == b.output@
                } else {
                    r == WorkflowResult::LlmCallResult(res)
                }
            }
    }
}

/// `after` is `before` with `context` as the context of the steps.
pub open spec fn with_context(before: LlmCall, context: Seq<char>, after: LlmCall) -> bool {
    &&& after.messages == AIMessageList { context: after.messages.context, ..before.messages }
    &&& after.messages.context@ == context
    &&& after.transient_source_files == before.transient_source_files
    &&& only_messages_changed(before, after)
}

/// Lets the model fix a failed build: with no error there is nothing to do;
/// otherwise the report of the build (its first 100 lines of output) is the
/// problem of a `run`, and a valid outcome gives back the build result,
/// an invalid one the outcome of the model.
pub fn execute_build_llm<S: Fn(&str, u32) -> Result<JsonValue, String>, X: Fn(&JsonValue) -> ToolOutput>(
    buildresult: &Buildresult,
    llm: &mut LlmCall,
    send: &S,
    exec: &X,
) -> (r: WorkflowResult)
    requires
        call_functions_ready(*send, *exec),
        run_budget(*old(llm), 1),
    ensures
        only_messages_changed(*old(llm), *final(llm)),
        final(llm).messages.message_id.val <= old(llm).messages.message_id.val + (old(llm).max_workflow_fail + 1)
            * old(llm).max_tool_call_fail,
        fixed_by_model(*send, *exec, *old(llm), *buildresult, *final(llm), r),
{
    if buildresult.has_error() {
        let limited = buildresult.limit_lines(100);
        let diagnostic = limited.to_string();
        assert(1 * ((llm.max_workflow_fail + 1) * llm.max_tool_call_fail) == (llm.max_workflow_fail + 1)
            * llm.max_tool_call_fail);
        proof {
            assert(strings_text(limited.output@) =~= strings_text(buildresult.output@).take(
                if 100 < buildresult.output@.len() { 100int } else { buildresult.output@.len() as int },
            ));
            assert(diagnostic@ == limited_text(*buildresult, 100));
        }
        let ghost before = *llm;
        let res = llm.run(diagnostic.as_str(), send, exec);
        assert(ran(*send, *exec, before, limited_text(*buildresult, 100), *llm, res));
        if res.is_valid() {
            let b = buildresult.limit_lines(buildresult.output.len());
            assert(b.output@ =~= buildresult.output@);
            WorkflowResult::BuildResult(b)
        } else {
            WorkflowResult::LlmCallResult(res)
        }
    } else {
        WorkflowResult::Succeeded
    }
}

} // verus!
