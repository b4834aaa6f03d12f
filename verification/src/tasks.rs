//! The kinds of task the agent can be given.

use vstd::prelude::*;
use crate::text::{chars_eq, to_chars};

verus! {

/// A task the agent can be asked to carry out.
#[derive(Debug, Clone, Copy, PartialEq, Eq, Hash, Structural)]
pub enum Tasks {
    Analyze,
    Build,
    FixCode,
    GenCode,
    ReleaseDoc,
    ReviewCode,
    ReviewDoc,
    SetupBuild,
    TranspileCode,
    WriteBlockDoc,
    WriteItemDoc,
    WriteModuleDoc,
    WriteTestCode,
}

/// The name of a task, as it is given on the command line.
pub open spec fn task_name(t: Tasks) -> Seq<char> {
    match t {
        Tasks::Analyze => "analyze"@,
        Tasks::Build => "build"@,
        Tasks::FixCode => "fix_code"@,
        Tasks::GenCode => "gen_code"@,
        Tasks::ReleaseDoc => "release_doc"@,
        Tasks::ReviewCode => "review_code"@,
        Tasks::ReviewDoc => "review_doc"@,
        Tasks::SetupBuild => "setup_build"@,
        Tasks::TranspileCode => "transpile_code"@,
        Tasks::WriteBlockDoc => "write_block_doc"@,
        Tasks::WriteItemDoc => "write_item_doc"@,
        Tasks::WriteModuleDoc => "write_module_doc"@,
        Tasks::WriteTestCode => "write_test_code"@,
    }
}

/// All tasks, in the order in which they are listed.
pub open spec fn all_tasks() -> Seq<Tasks> {
    seq![
        Tasks::Analyze,
        Tasks::Build,
        Tasks::FixCode,
        Tasks::GenCode,
        Tasks::ReleaseDoc,
        Tasks::ReviewCode,
        Tasks::ReviewDoc,
        Tasks::SetupBuild,
        Tasks::TranspileCode,
        Tasks::WriteBlockDoc,
        Tasks::WriteItemDoc,
        Tasks::WriteModuleDoc,
        Tasks::WriteTestCode,
    ]
}

impl Tasks {
    /// The name of the task.
    pub fn as_str(&self) -> (r: &'static str)
        ensures
            r@ == task_name(*self),
    {
        match self {
            Tasks::Analyze => "analyze",
            Tasks::Build => "build",
            Tasks::FixCode => "fix_code",
            Tasks::GenCode => "gen_code",
            Tasks::ReleaseDoc => "release_doc",
            Tasks::ReviewCode => "review_code",
            Tasks::ReviewDoc => "review_doc",
            Tasks::SetupBuild => "setup_build",
            Tasks::TranspileCode => "transpile_code",
            Tasks::WriteBlockDoc => "write_block_doc",
            Tasks::WriteItemDoc => "write_item_doc",
            Tasks::WriteModuleDoc => "write_module_doc",
            Tasks::WriteTestCode => "write_test_code",
        }
    }

    /// All tasks.
    pub fn all() -> (r: Vec<Tasks>)
        ensures
            r@ == all_tasks(),
    {
        let r = vec![
            Tasks::Analyze,
            Tasks::Build,
            Tasks::FixCode,
            Tasks::GenCode,
            Tasks::ReleaseDoc,
            Tasks::ReviewCode,
            Tasks::ReviewDoc,
            Tasks::SetupBuild,
            Tasks::TranspileCode,
            Tasks::WriteBlockDoc,
            Tasks::WriteItemDoc,
            Tasks::WriteModuleDoc,
            Tasks::WriteTestCode,
        ];
        assert(r@ =~= all_tasks());
        r
    }

    /// The number of tasks.
    pub fn len() -> (r: usize)
        ensures
            r == all_tasks().len(),
    {
        13
    }

    /// The names of all tasks, in order.
    pub fn to_vec_str() -> (r: Vec<&'static str>)
        ensures
            r@.len() == all_tasks().len(),
            forall|i: int| 0 <= i < r@.len() ==> #[trigger] r@[i]@ == task_name(all_tasks()[i]),
    {
        let all = Tasks::all();
        let mut r: Vec<&'static str> = Vec::new();
        for i in 0..all.len()
            invariant
                all@ == all_tasks(),
                r@.len() == i,
                forall|j: int| 0 <= j < i ==> #[trigger] r@[j]@ == task_name(all_tasks()[j]),
        {
            r.push(all[i].as_str());
        }
        r
    }

    /// The task with the given name, if there is one.
    pub fn parse(name: &str) -> (r: Option<Tasks>)
        ensures
            match r {
                Some(t) => task_name(t) == name@,
                None => forall|t: Tasks| task_name(t) != name@,
            },
            forall|t: Tasks| task_name(t) == name@ ==> r == Some(t),
    {
        let all = Tasks::all();
        let n = to_chars(name);
        for i in 0..all.len()
            invariant
                all@ == all_tasks(),
                n@ == name@,
                forall|j: int| 0 <= j < i ==> task_name(#[trigger] all_tasks()[j]) != name@,
        {
            let t = all[i];
            let tn = to_chars(t.as_str());
            if chars_eq(tn.as_slice(), n.as_slice()) {
                proof {
                    assert forall|u: Tasks| task_name(u) == name@ implies Some(t) == Some(u) by {
                        law_task_names_distinct(t, u);
                    }
                }
                return Some(t);
            }
        }
        proof {
            assert forall|t: Tasks| task_name(t) != name@ by {
                let k: int = match t {
                    Tasks::Analyze => 0,
                    Tasks::Build => 1,
                    Tasks::FixCode => 2,
                    Tasks::GenCode => 3,
                    Tasks::ReleaseDoc => 4,
                    Tasks::ReviewCode => 5,
                    Tasks::ReviewDoc => 6,
                    Tasks::SetupBuild => 7,
                    Tasks::TranspileCode => 8,
                    Tasks::WriteBlockDoc => 9,
                    Tasks::WriteItemDoc => 10,
                    Tasks::WriteModuleDoc => 11,
                    Tasks::WriteTestCode => 12,
                };
                assert(all_tasks()[k] == t);
            }
        }
        None
    }
}

/// No two tasks share a name, so a task's name gives the task back: parsing
/// the name of `a` finds `a` and nothing else.
pub proof fn law_task_names_distinct(a: Tasks, b: Tasks)
    ensures
        task_name(a) == task_name(b) ==> a == b,
{
    reveal_strlit("analyze");
    reveal_strlit("build");
    reveal_strlit("fix_code");
    reveal_strlit("gen_code");
    reveal_strlit("release_doc");
    reveal_strlit("review_code");
    reveal_strlit("review_doc");
    reveal_strlit("setup_build");
    reveal_strlit("transpile_code");
    reveal_strlit("write_block_doc");
    reveal_strlit("write_item_doc");
    reveal_strlit("write_module_doc");
    reveal_strlit("write_test_code");
    if task_name(a) == task_name(b) {
        assert(task_name(a).len() == task_name(b).len());
        assert(task_name(a)[0] == task_name(b)[0]);
        assert(task_name(a)[1] == task_name(b)[1]);
        assert(task_name(a)[2] == task_name(b)[2]);
        assert(task_name(a)[6] == task_name(b)[6]);
    }
}

} // verus!
