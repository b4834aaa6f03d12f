//! The outer loop of the agent: the workflow is repeated until it succeeds
//! twice in a row (a first success counts as the second), or until it has
//! been tried as often as allowed.

use vstd::prelude::*;
use crate::workflows::workflow::{workflow_success, WorkflowResult};

verus! {

/// The agent: how often the workflow may be tried, and where it works.
pub struct AIAgentLoop {
    pub max_workflow_fail: usize,
    pub projdir: String,
    pub workspacedir: Option<String>,
    pub dump: bool,
}

/// The successes in a row that end at position `k` of `t`, counting one
/// success before the first run.
pub open spec fn successes_in_row(t: Seq<bool>, k: int) -> nat
    decreases k + 1,
{
    if k < 0 {
        1
    } else if k >= t.len() {
        0
    } else if t[k] {
        successes_in_row(t, k - 1) + 1
    } else {
        0
    }
}

/// The successes `t` of the runs follow the rule of the loop: it goes on
/// while there are fewer than two successes in a row and runs are left.
pub open spec fn agent_rule(t: Seq<bool>, max: nat) -> bool {
    &&& t.len() <= max
    &&& forall|k: int| -1 <= k < t.len() - 1 ==> successes_in_row(t, k) < 2
    &&& (t.len() == max || successes_in_row(t, t.len() - 1) >= 2)
}

impl AIAgentLoop {
    /// The agent for `projdir` (and the workspace, if any).
    pub fn new(max_workflow_fail: usize, projdir: String, workspacedir: Option<String>, dump: bool) -> (r: Self)
        ensures
            r == (AIAgentLoop { max_workflow_fail, projdir, workspacedir, dump }),
    {
        AIAgentLoop { max_workflow_fail, projdir, workspacedir, dump }
    }

    /// Runs the workflow `execute` by the rule of the loop (see
    /// `agent_rule`); returns the outcomes in order.
    pub fn run<E: Fn() -> WorkflowResult>(&self, execute: &E) -> (r: Vec<WorkflowResult>)
        requires
            call_requires(*execute, ()),
        ensures
            agent_rule(Seq::new(r@.len(), |i: int| workflow_success(r@[i])), self.max_workflow_fail as nat),
            forall|i: int| 0 <= i < r@.len() ==> call_ensures(*execute, (), #[trigger] r@[i]),
    {
        let mut results: Vec<WorkflowResult> = Vec::new();
        let mut okcount: usize = 1;
        let mut totalleft: usize = self.max_workflow_fail;
        let ghost mut t: Seq<bool> = Seq::empty();
        assert(t =~= Seq::new(results@.len(), |i: int| workflow_success(results@[i])));
        while okcount < 2 && totalleft > 0
            invariant
                call_requires(*execute, ()),
                results@.len() + totalleft == self.max_workflow_fail,
                t == Seq::new(results@.len(), |i: int| workflow_success(results@[i])),
                okcount == successes_in_row(t, t.len() - 1),
                forall|k: int| -1 <= k < t.len() - 1 ==> #[trigger] successes_in_row(t, k) < 2,
                forall|i: int| 0 <= i < results@.len() ==> call_ensures(*execute, (), #[trigger] results@[i]),
            decreases totalleft,
        {
            let ghost before = t;
            let wr = execute();
            let ok = wr.success();
            if !ok {
                okcount = 0;
            } else {
                okcount = okcount + 1;
            }
            results.push(wr);
            totalleft = totalleft - 1;
            proof {
                let after = Seq::new(results@.len(), |i: int| workflow_success(results@[i]));
                assert(after =~= before.push(ok));
                t = after;
                assert forall|k: int| -1 <= k < after.len() - 1 implies successes_in_row(after, k) == successes_in_row(
                    before,
                    k,
                ) by {
                    lemma_successes_push(before, ok, k);
                }
                lemma_successes_push(before, ok, before.len() - 1);
            }
        }
        results
    }
}

/// Pushing an outcome keeps the counts that end before it.
proof fn lemma_successes_push(t: Seq<bool>, b: bool, k: int)
    requires
        k < t.len(),
    ensures
        successes_in_row(t.push(b), k) == successes_in_row(t, k),
    decreases k + 1,
{
    if k >= 0 {
        lemma_successes_push(t, b, k - 1);
    }
}

} // verus!
