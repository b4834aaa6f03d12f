//! A workflow for documentation tasks: the project must build and lint
//! before the model documents it; a state that does not is restored.

use vstd::prelude::*;
use crate::agenttools::all_tools::ToolOutput;
use crate::repostate::gitstate::GitState;
use crate::repostate::RepoState;
use crate::runtimetools::buildresult::Buildresult;
use crate::workflows::buildsystem::{commands, effective_target, Buildcommand, Buildsystem};
use crate::text::strings_text;
use crate::workflows::workflow::{cmd_result, run_cmd, ProcessEnv};

verus! {

/// The documentation workflow of a project.
pub struct DocWorkflow {
    pub bc: Buildcommand,
    pub projdir: String,
    pub targetdir: String,
    pub state: GitState,
}

/// What the workflow does before documenting: it builds and lints in the
/// project, going back to the saved state (`git checkout .`) after each that
/// fails, then saves the state (`git add -A`).
pub open spec fn checked_and_saved<
    S: Fn(&Vec<String>, &Option<String>, &Option<String>) -> (i32, Vec<String>, Vec<String>),
    G: Fn(&Vec<String>, &str) -> bool,
>(spawn: S, git: G, env: ProcessEnv, w: DocWorkflow) -> bool {
    &&& exists|b1: Buildresult|
        #![trigger cmd_result(spawn, w.projdir@, strings_text(w.bc.build@), env, b1)]
        cmd_result(spawn, w.projdir@, strings_text(w.bc.build@), env, b1) && (b1.result != 0 ==> exists|ok: bool|
            crate::repostate::gitstate::ran(git, seq!["git"@, "checkout"@, "."@], w.state.path@, ok))
    &&& exists|b2: Buildresult|
        #![trigger cmd_result(spawn, w.projdir@, strings_text(w.bc.lint@), env, b2)]
        cmd_result(spawn, w.projdir@, strings_text(w.bc.lint@), env, b2) && (b2.result != 0 ==> exists|ok: bool|
            crate::repostate::gitstate::ran(git, seq!["git"@, "checkout"@, "."@], w.state.path@, ok))
    &&& exists|ok: bool| crate::repostate::gitstate::ran(git, seq!["git"@, "add"@, "-A"@], w.state.path@, ok)
}

impl DocWorkflow {
    /// The workflow for `projdir` built with `bs` into `targetdir` (taken
    /// below `cwd` when relative and `cwd` is known); its state is the git
    /// working tree of the project.
    pub fn from_buildsystem(bs: &Buildsystem, projdir: &str, targetdir: &str, cwd: Option<&str>) -> (r: Self)
        ensures
            r.bc@ == commands(*bs, projdir@, effective_target(targetdir@, crate::vc::git::opt_str(cwd))),
            r.projdir@ == projdir@,
            r.targetdir@ == targetdir@,
            r.state.path@ == projdir@,
    {
        DocWorkflow {
            bc: bs.build_cmd(projdir, targetdir, cwd),
            projdir: projdir.to_string(),
            targetdir: targetdir.to_string(),
            state: GitState::from_path(projdir),
        }
    }

    /// Builds and lints (restoring the saved state after a failure), saves
    /// the state, and lets `cb` document the project; when `cb` reports done
    /// no build is needed any more, otherwise one is.
    pub fn execute<
        S: Fn(&Vec<String>, &Option<String>, &Option<String>) -> (i32, Vec<String>, Vec<String>),
        G: Fn(&Vec<String>, &str) -> bool,
        C: Fn(&str, &str, &str, &Buildresult) -> ToolOutput,
    >(&self, env: &ProcessEnv, spawn: &S, git: &G, cb: &C) -> (r: Buildresult)
        requires
            forall|c: &Vec<String>, d: &Option<String>, f: &Option<String>| call_requires(*spawn, (c, d, f)),
            forall|c: &Vec<String>, d: &str| call_requires(*git, (c, d)),
            forall|a: &str, b: &str, c: &str, d: &Buildresult| call_requires(*cb, (a, b, c, d)),
        ensures
            checked_and_saved(*spawn, *git, *env, *self),
            exists|n: &str, p: &str, t: &str, need: Buildresult, o: ToolOutput|
                #![trigger call_ensures(*cb, (n, p, t, &need), o)]
                {
                    &&& n@ == "doc"@
                    &&& p@ == self.projdir@
                    &&& t@ == self.targetdir@
                    &&& need.result == 1 && need.projectpath@.len() == 0 && need.executionpath@.len() == 0
                    &&& strings_text(need.output@) == seq![Seq::<char>::empty()]
                    &&& call_ensures(*cb, (n, p, t, &need), o)
                    &&& r.result == if o is Done { 0i32 } else { 1i32 }
                },
            r.projectpath@.len() == 0,
            r.executionpath@.len() == 0,
            strings_text(r.output@) == seq![Seq::<char>::empty()],
    {
        let br = run_cmd(self.projdir.as_str(), &self.bc.build, env, spawn);
        let ghost b1 = br;
        if br.has_error() {
            let ok = self.state.restore(git);
            assert(crate::repostate::gitstate::ran(*git, seq!["git"@, "checkout"@, "."@], self.state.path@, ok));
        }
        assert(cmd_result(*spawn, self.projdir@, strings_text(self.bc.build@), *env, b1));
        let br = run_cmd(self.projdir.as_str(), &self.bc.lint, env, spawn);
        let ghost b2 = br;
        if br.has_error() {
            let ok = self.state.restore(git);
            assert(crate::repostate::gitstate::ran(*git, seq!["git"@, "checkout"@, "."@], self.state.path@, ok));
        }
        assert(cmd_result(*spawn, self.projdir@, strings_text(self.bc.lint@), *env, b2));
        let ok = self.state.commit(git);
        assert(crate::repostate::gitstate::ran(*git, seq!["git"@, "add"@, "-A"@], self.state.path@, ok));
        assert(checked_and_saved(*spawn, *git, *env, *self));
        let need = Buildresult::new_need_build();
        let n = "doc";
        proof {
            reveal_strlit("doc");
        }
        let pd = self.projdir.as_str();
        let td = self.targetdir.as_str();
        let res = cb(n, pd, td, &need);
        assert(call_ensures(*cb, (n, pd, td, &need), res));
        if res.is_done() {
            Buildresult::new_no_build()
        } else {
            need
        }
    }
}

} // verus!
