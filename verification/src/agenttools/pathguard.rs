//! Which paths the tools may read and write: the directories given on the
//! command line (`-f`), of which only the first may be written, with every
//! `.git` directory hidden. Paths are taken as the components of their
//! normalized form.

use vstd::prelude::*;
use crate::text::{chars_eq, strings_text, to_chars};

verus! {

/// The directories the tools may touch, each as the components of its
/// normalized path; the first may be written, all may be read.
pub struct PathRules {
    pub roots: Vec<Vec<String>>,
}

/// The components of each root.
pub open spec fn roots_view(roots: Seq<Vec<String>>) -> Seq<Seq<Seq<char>>> {
    Seq::new(roots.len(), |i: int| strings_text(roots[i]@))
}

/// Whether `path` lies in `root` (or is it): its components start with
/// those of `root`.
pub open spec fn lies_under(path: Seq<Seq<char>>, root: Seq<Seq<char>>) -> bool {
    root.len() <= path.len() && forall|i: int| 0 <= i < root.len() ==> path[i] == root[i]
}

/// Whether `path` passes through a `.git` directory (or is one).
pub open spec fn hidden_path(path: Seq<Seq<char>>) -> bool {
    exists|i: int| 0 <= i < path.len() && path[i] == ".git"@
}

/// Whether `path` may be read: it is not hidden and lies in one of `roots`.
pub open spec fn may_read(roots: Seq<Seq<Seq<char>>>, path: Seq<Seq<char>>) -> bool {
    !hidden_path(path) && exists|k: int| 0 <= k < roots.len() && lies_under(path, roots[k])
}

/// Whether `path` may be written: it is not hidden and lies in the first of
/// `roots`.
pub open spec fn may_write(roots: Seq<Seq<Seq<char>>>, path: Seq<Seq<char>>) -> bool {
    roots.len() > 0 && !hidden_path(path) && lies_under(path, roots[0])
}

/// Whether `path` lies in `root`.
fn lies_under_exec(path: &Vec<String>, root: &Vec<String>) -> (b: bool)
    ensures
        b == lies_under(strings_text(path@), strings_text(root@)),
{
    if root.len() > path.len() {
        return false;
    }
    let mut i: usize = 0;
    while i < root.len()
        invariant
            root@.len() <= path@.len(),
            i <= root@.len(),
            forall|j: int| 0 <= j < i ==> path@[j]@ == root@[j]@,
        decreases root@.len() - i,
    {
        let a = to_chars(path[i].as_str());
        let b = to_chars(root[i].as_str());
        if !chars_eq(a.as_slice(), b.as_slice()) {
            assert(strings_text(path@)[i as int] != strings_text(root@)[i as int]);
            return false;
        }
        i = i + 1;
    }
    true
}

/// Whether `path` passes through a `.git` directory.
fn hidden_exec(path: &Vec<String>) -> (b: bool)
    ensures
        b == hidden_path(strings_text(path@)),
{
    let git = to_chars(".git");
    proof {
        reveal_strlit(".git");
    }
    let mut i: usize = 0;
    while i < path.len()
        invariant
            git@ == ".git"@,
            i <= path@.len(),
            forall|j: int| 0 <= j < i ==> path@[j]@ != ".git"@,
        decreases path@.len() - i,
    {
        let c = to_chars(path[i].as_str());
        if chars_eq(c.as_slice(), git.as_slice()) {
            assert(strings_text(path@)[i as int] == ".git"@);
            return true;
        }
        i = i + 1;
    }
    assert forall|j: int| 0 <= j < path@.len() implies strings_text(path@)[j] != ".git"@ by {
        assert(strings_text(path@)[j] == path@[j]@);
    }
    false
}

impl PathRules {
    /// Whether the path with the components `path` may be read (see
    /// `may_read`).
    pub fn contains(&self, path: &Vec<String>) -> (b: bool)
        ensures
            b == may_read(roots_view(self.roots@), strings_text(path@)),
    {
        if hidden_exec(path) {
            return false;
        }
        let mut k: usize = 0;
        while k < self.roots.len()
            invariant
                k <= self.roots@.len(),
                !hidden_path(strings_text(path@)),
                forall|j: int|
                    0 <= j < k ==> !lies_under(strings_text(path@), #[trigger] roots_view(self.roots@)[j]),
            decreases self.roots@.len() - k,
        {
            if lies_under_exec(path, &self.roots[k]) {
                assert(roots_view(self.roots@)[k as int] == strings_text(self.roots@[k as int]@));
                assert(lies_under(strings_text(path@), roots_view(self.roots@)[k as int]));
                return true;
            }
            assert(roots_view(self.roots@)[k as int] == strings_text(self.roots@[k as int]@));
            k = k + 1;
        }
        false
    }

    /// Whether the path with the components `path` may be written (see
    /// `may_write`).
    pub fn can_write(&self, path: &Vec<String>) -> (b: bool)
        ensures
            b == may_write(roots_view(self.roots@), strings_text(path@)),
    {
        if self.roots.len() == 0 || hidden_exec(path) {
            return false;
        }
        assert(roots_view(self.roots@)[0] == strings_text(self.roots@[0]@));
        lies_under_exec(path, &self.roots[0])
    }
}

/// What may be written may be read, and nothing below a `.git` directory
/// may be read or written.
pub proof fn law_write_implies_read(roots: Seq<Seq<Seq<char>>>, path: Seq<Seq<char>>)
    ensures
        may_write(roots, path) ==> may_read(roots, path),
        hidden_path(path) ==> !may_read(roots, path) && !may_write(roots, path),
{
}

/// Only the first directory may be written: a path that lies in another
/// directory and not in the first may be read but not written.
pub proof fn law_only_first_root_writable(roots: Seq<Seq<Seq<char>>>, path: Seq<Seq<char>>, k: int)
    requires
        0 < k < roots.len(),
        lies_under(path, roots[k]),
        !lies_under(path, roots[0]),
        !hidden_path(path),
    ensures
        may_read(roots, path),
        !may_write(roots, path),
{
}

} // verus!
