//! Saving and restoring the project's state with git.

use vstd::prelude::*;
use crate::repostate::RepoState;
use crate::text::strings_text;

verus! {

/// The git working tree at `path`.
#[derive(Clone, Debug)]
pub struct GitState {
    pub path: String,
}

/// `run`, called with the command `cmd` in the directory `dir`, answered `ok`.
pub open spec fn ran<R: FnOnce(&Vec<String>, &str) -> bool>(run: R, cmd: Seq<Seq<char>>, dir: Seq<char>, ok: bool) -> bool {
    exists|c: &Vec<String>, d: &str| strings_text(c@) == cmd && d@ == dir && call_ensures(run, (c, d), ok)
}

/// A command made of three words.
fn command3(a: &str, b: &str, c: &str) -> (r: Vec<String>)
    ensures
        strings_text(r@) == seq![a@, b@, c@],
{
    let r = vec![a.to_string(), b.to_string(), c.to_string()];
    assert(strings_text(r@) =~= seq![a@, b@, c@]);
    r
}

impl GitState {
    /// The working tree at `path`.
    pub fn from_path(path: &str) -> (r: GitState)
        ensures
            r.path@ == path@,
    {
        GitState { path: path.to_string() }
    }
}

impl RepoState for GitState {
    /// Stages every change: `git add -A` in the working tree.
    fn commit<R: FnOnce(&Vec<String>, &str) -> bool>(&self, run: R) -> (ok: bool)
        ensures
            ran(run, seq!["git"@, "add"@, "-A"@], self.path@, ok),
    {
        let cmd = command3("git", "add", "-A");
        let d = self.path.as_str();
        let ok = run(&cmd, d);
        assert(ran(run, seq!["git"@, "add"@, "-A"@], self.path@, ok));
        ok
    }

    /// Drops every unstaged change: `git checkout .` in the working tree.
    fn restore<R: FnOnce(&Vec<String>, &str) -> bool>(&self, run: R) -> (ok: bool)
        ensures
            ran(run, seq!["git"@, "checkout"@, "."@], self.path@, ok),
    {
        let cmd = command3("git", "checkout", ".");
        let d = self.path.as_str();
        let ok = run(&cmd, d);
        assert(ran(run, seq!["git"@, "checkout"@, "."@], self.path@, ok));
        ok
    }
}

} // verus!
