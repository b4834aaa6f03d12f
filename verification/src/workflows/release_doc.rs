//! A workflow that writes release documentation from the history of a
//! release range.

use vstd::prelude::*;
use crate::agenttools::all_tools::ToolOutput;
use crate::json::JsonValue;
use crate::runtimetools::llmcall::{call_functions_ready, lemma_budget, llm_valid, only_messages_changed, ran, LlmCall, LlmCallResult};
use crate::runtimetools::releasedoc::{between_context_answer, llm_summary_context, since_context_answer, ReleaseDocContext};
use crate::text::{append_str, chars_eq, from_chars, opt_text, strings_text, to_chars};
use crate::vc::git::{git_error_text, latest_tag_answer, Git, GitError, GitOutput};
use crate::workflows::workflow::{run_budget, with_context, WorkflowResult};

verus! {

/// The release documentation workflow.
pub struct ReleaseDocWorkflow {
    pub llm_call: LlmCall,
    pub projdir: String,
    pub task_args: Vec<String>,
}

/// The range given by the task arguments from position `i` on: `-f` or
/// `--first` sets the first revision, `-l` or `--last` the last one, each
/// followed by its value; anything else is refused.
pub open spec fn range_from(args: Seq<Seq<char>>, i: int, first: Option<Seq<char>>, last: Seq<char>) -> Result<
    (Option<Seq<char>>, Seq<char>),
    Seq<char>,
>
    decreases args.len() - i,
{
    if i < 0 || i >= args.len() {
        Ok((first, last))
    } else if args[i] == "-f"@ || args[i] == "--first"@ {
        if i + 1 < args.len() {
            range_from(args, i + 2, Some(args[i + 1]), last)
        } else {
            Err("Missing value for "@ + args[i])
        }
    } else if args[i] == "-l"@ || args[i] == "--last"@ {
        if i + 1 < args.len() {
            range_from(args, i + 2, first, args[i + 1])
        } else {
            Err("Missing value for "@ + args[i])
        }
    } else {
        Err("Unknown release_doc argument: "@ + args[i])
    }
}

/// The range of the task: from the start given (or none) to `HEAD` unless
/// another end is given.
pub open spec fn release_range_of(args: Seq<String>) -> Result<(Option<Seq<char>>, Seq<char>), Seq<char>> {
    range_from(strings_text(args), 0, None, "HEAD"@)
}

/// The message when only the end of a range is given and there is no tag.
pub open spec fn no_tag_message() -> Seq<char> {
    "Cannot use --last without --first when the repository has no tag"@
}

/// What the context of the task's range may be.
pub open spec fn context_answer<R: Fn(&Vec<String>, &str) -> Result<GitOutput, String>>(
    run: R,
    dir: Seq<char>,
    args: Seq<String>,
    r: Result<ReleaseDocContext, GitError>,
) -> bool {
    match release_range_of(args) {
        Err(m) => r matches Err(GitError::InvalidOutput(x)) && x@ == m,
        Ok((Some(f), l)) => between_context_answer(run, dir, f, l, r),
        Ok((None, l)) => if l == "HEAD"@ {
            since_context_answer(run, dir, r)
        } else {
            exists|t: Result<Option<String>, GitError>|
                #![trigger latest_tag_answer(run, dir, t)]
                {
                    &&& latest_tag_answer(run, dir, t)
                    &&& match t {
                        Err(e) => r == Err::<ReleaseDocContext, GitError>(e),
                        Ok(None) => r matches Err(GitError::InvalidOutput(x)) && x@ == no_tag_message(),
                        Ok(Some(tag)) => between_context_answer(run, dir, tag@, l, r),
                    }
                }
        },
    }
}

/// Successive calls of `run` without a problem: from each call of `st` to
/// the next, with the outcomes `rs`.
pub open spec fn runs<S: Fn(&str, u32) -> Result<JsonValue, String>, X: Fn(&JsonValue) -> ToolOutput>(
    send: S,
    exec: X,
    st: Seq<LlmCall>,
    rs: Seq<LlmCallResult>,
) -> bool {
    &&& st.len() == rs.len() + 1
    &&& forall|j: int| #![trigger rs[j]] 0 <= j < rs.len() ==> ran(send, exec, st[j], Seq::empty(), st[j + 1], rs[j])
}

/// What the model does with the release context `c`, from the call `before`
/// to `after`: the summary of `c` becomes the context, then `run` is called
/// until the model is done (a success) or an outcome is not valid (returned),
/// at most `max_workflow_fail` times.
pub open spec fn documented<S: Fn(&str, u32) -> Result<JsonValue, String>, X: Fn(&JsonValue) -> ToolOutput>(
    send: S,
    exec: X,
    before: LlmCall,
    c: ReleaseDocContext,
    after: LlmCall,
    r: WorkflowResult,
) -> bool {
    exists|st: Seq<LlmCall>, rs: Seq<LlmCallResult>|
        #![trigger runs(send, exec, st, rs)]
        {
            &&& runs(send, exec, st, rs)
            &&& with_context(before, llm_summary_context(c), st[0])
            &&& st.last() == after
            &&& rs.len() <= before.max_workflow_fail
            &&& forall|j: int| #![trigger rs[j]] 0 <= j < rs.len() - 1 ==> llm_valid(rs[j]) && !(rs[j] is Done)
            &&& if rs.len() > 0 && rs.last() is Done {
                r is Succeeded
            } else if rs.len() > 0 && !llm_valid(rs.last()) {
                r == WorkflowResult::LlmCallResult(rs.last())
            } else {
                &&& rs.len() == before.max_workflow_fail
                &&& r matches WorkflowResult::Error(m) && m@ == "Release documentation did not finish with done"@
            }
        }
}

/// Whether `a` is one of two words.
fn is_either(a: &[char], x: &str, y: &str) -> (b: bool)
    ensures
        b == (a@ == x@ || a@ == y@),
{
    let xc = to_chars(x);
    let yc = to_chars(y);
    chars_eq(a, xc.as_slice()) || chars_eq(a, yc.as_slice())
}

impl ReleaseDocWorkflow {
    /// The workflow for the project `projdir` with the task's arguments.
    pub fn new(llm_call: LlmCall, projdir: &str, task_args: &Vec<String>) -> (r: Self)
        ensures
            r.llm_call == llm_call,
            r.projdir@ == projdir@,
            r.task_args@ == task_args@,
    {
        ReleaseDocWorkflow {
            llm_call,
            projdir: projdir.to_string(),
            task_args: crate::utils::doprocess::copy_strings(task_args),
        }
    }

    /// The release range given by the task arguments (see `range_from`).
    pub fn release_range(&self) -> (r: Result<(Option<String>, String), String>)
        ensures
            match release_range_of(self.task_args@) {
                Ok((f, l)) => r matches Ok((rf, rl)) && opt_text(rf) == f && rl@ == l,
                Err(m) => r matches Err(x) && x@ == m,
            },
    {
        let ghost args = strings_text(self.task_args@);
        let mut first: Option<String> = None;
        let mut last: String = "HEAD".to_string();
        let n = self.task_args.len();
        let mut i: usize = 0;
        while i < n
            invariant
                n == args.len(),
                args == strings_text(self.task_args@),
                i <= n,
                range_from(args, i as int, opt_text(first), last@) == release_range_of(self.task_args@),
            decreases n - i,
        {
            let a = to_chars(self.task_args[i].as_str());
            assert(a@ == args[i as int]);
            let is_first = is_either(a.as_slice(), "-f", "--first");
            let is_last = is_either(a.as_slice(), "-l", "--last");
            if is_first || is_last {
                if i + 1 >= n {
                    let mut m = to_chars("Missing value for ");
                    append_str(&mut m, self.task_args[i].as_str());
                    return Err(from_chars(m.as_slice()));
                }
                let value = self.task_args[i + 1].clone();
                assert(value@ == args[i + 1]);
                if is_first {
                    first = Some(value);
                } else {
                    last = value;
                }
                i = i + 2;
            } else {
                let mut m = to_chars("Unknown release_doc argument: ");
                append_str(&mut m, self.task_args[i].as_str());
                return Err(from_chars(m.as_slice()));
            }
        }
        Ok((first, last))
    }

    /// The context of the task's range: between the given revisions; since
    /// the latest tag when no revision is given; from the latest tag to the
    /// given end when only that is given (an error without a tag).
    pub fn create_context<R: Fn(&Vec<String>, &str) -> Result<GitOutput, String>>(&self, run: &R) -> (r: Result<ReleaseDocContext, GitError>)
        requires
            forall|a: &Vec<String>, d: &str| call_requires(*run, (a, d)),
        ensures
            context_answer(*run, self.projdir@, self.task_args@, r),
    {
        let git = Git::new(self.projdir.as_str());
        let (first, last) = match self.release_range() {
            Ok(range) => range,
            Err(m) => {
                return Err(GitError::InvalidOutput(m));
            },
        };
        match first {
            Some(f) => ReleaseDocContext::between(&git, run, f.as_str(), last.as_str()),
            None => {
                let lc = to_chars(last.as_str());
                let head = to_chars("HEAD");
                if chars_eq(lc.as_slice(), head.as_slice()) {
                    ReleaseDocContext::since_latest_tag(&git, run)
                } else {
                    let t = git.latest_tag(run);
                    let ghost tv = t;
                    assert(latest_tag_answer(*run, self.projdir@, tv));
                    match t {
                        Err(e) => Err(e),
                        Ok(None) => Err(
                            GitError::InvalidOutput(
                                "Cannot use --last without --first when the repository has no tag".to_string(),
                            ),
                        ),
                        Ok(Some(tag)) => ReleaseDocContext::between(&git, run, tag.as_str(), last.as_str()),
                    }
                }
            },
        }
    }

    /// Builds the context of the range and gives its summary to the model as
    /// the context, then lets it work (`run` without a problem) until it is
    /// done, at most `max_workflow_attempts` times; an invalid outcome ends
    /// the workflow with that outcome.
    pub fn execute<
        R: Fn(&Vec<String>, &str) -> Result<GitOutput, String>,
        S: Fn(&str, u32) -> Result<JsonValue, String>,
        X: Fn(&JsonValue) -> ToolOutput,
    >(&mut self, run: &R, send: &S, exec: &X) -> (r: WorkflowResult)
        requires
            forall|a: &Vec<String>, d: &str| call_requires(*run, (a, d)),
            call_functions_ready(*send, *exec),
            run_budget(old(self).llm_call, old(self).llm_call.max_workflow_fail as nat),
        ensures
            exists|c: Result<ReleaseDocContext, GitError>|
                #![trigger context_answer(*run, old(self).projdir@, old(self).task_args@, c)]
                {
                    &&& context_answer(*run, old(self).projdir@, old(self).task_args@, c)
                    &&& match c {
                        Err(e) => r matches WorkflowResult::Error(m) && m@
                            == "Failed to create release documentation context: "@ + git_error_text(e)
                            && *final(self) == *old(self),
                        Ok(ctx) => documented(*send, *exec, old(self).llm_call, ctx, final(self).llm_call, r),
                    }
                },
            *final(self) == (ReleaseDocWorkflow { llm_call: final(self).llm_call, ..*old(self) }),
    {
        let context = self.create_context(run);
        let ghost cv = context;
        let context = match context {
            Ok(c) => c,
            Err(e) => {
                let mut m = to_chars("Failed to create release documentation context: ");
                let et = e.to_string();
                append_str(&mut m, et.as_str());
                return WorkflowResult::Error(from_chars(m.as_slice()));
            },
        };
        let ghost before = self.llm_call;
        let summary = context.to_llm_summary_context();
        self.llm_call.set_context(summary);
        let ghost start = self.llm_call;
        assert(with_context(before, llm_summary_context(context), start));
        let ghost mut st: Seq<LlmCall> = seq![start];
        let ghost mut rs: Seq<LlmCallResult> = Seq::empty();
        let n = self.llm_call.max_workflow_attempts();
        let ghost k = ((start.max_workflow_fail + 1) * start.max_tool_call_fail) as nat;
        proof {
            reveal_strlit("");
            assert(""@ =~= Seq::<char>::empty());
        }
        let mut i: usize = 0;
        while i < n
            invariant
                call_functions_ready(*send, *exec),
                context_answer(*run, old(self).projdir@, old(self).task_args@, cv),
                cv == Ok::<ReleaseDocContext, GitError>(context),
                n == start.max_workflow_fail,
                n == before.max_workflow_fail,
                k == ((start.max_workflow_fail + 1) * start.max_tool_call_fail) as nat,
                i <= n,
                only_messages_changed(start, self.llm_call),
                self.llm_call.messages.message_id.val <= start.messages.message_id.val + i * k,
                start.messages.message_id.val + n * k < usize::MAX,
                with_context(before, llm_summary_context(context), start),
                before == old(self).llm_call,
                *self == (ReleaseDocWorkflow { llm_call: self.llm_call, ..*old(self) }),
                ""@ == Seq::<char>::empty(),
                runs(*send, *exec, st, rs),
                rs.len() == i,
                st[0] == start,
                st.last() == self.llm_call,
                forall|j: int| #![trigger rs[j]] 0 <= j < rs.len() ==> llm_valid(rs[j]) && !(rs[j] is Done),
            decreases n - i,
        {
            proof {
                lemma_budget(i as nat, n as nat, k);
                assert(1 * k == k);
            }
            let result = self.llm_call.run("", send, exec);
            proof {
                let st0 = st;
                let rs0 = rs;
                st = st.push(self.llm_call);
                rs = rs.push(result);
                assert forall|j: int| #![trigger rs[j]] 0 <= j < rs.len() implies ran(*send, *exec, st[j], Seq::empty(), st[j + 1], rs[j]) by {
                    if j < rs0.len() {
                        assert(rs[j] == rs0[j]);
                        assert(st[j] == st0[j]);
                        assert(st[j + 1] == st0[j + 1]);
                    }
                }
                assert forall|j: int| #![trigger rs[j]] 0 <= j < rs.len() - 1 implies llm_valid(rs[j]) && !(rs[j] is Done) by {
                    assert(rs[j] == rs0[j]);
                }
                assert(runs(*send, *exec, st, rs));
                assert(rs.last() == result);
            }
            if result.is_done() {
                let r = WorkflowResult::Succeeded;
                assert(documented(*send, *exec, before, context, self.llm_call, r));
                return r;
            }
            if !result.is_valid() {
                let r = WorkflowResult::LlmCallResult(result);
                assert(documented(*send, *exec, before, context, self.llm_call, r));
                return r;
            }
            i = i + 1;
        }
        let r = WorkflowResult::Error("Release documentation did not finish with done".to_string());
        proof {
            reveal_strlit("Release documentation did not finish with done");
            assert(runs(*send, *exec, st, rs));
            assert(documented(*send, *exec, before, context, self.llm_call, r));
        }
        r
    }
}

} // verus!
