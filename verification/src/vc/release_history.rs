//! The commits of a release.

use vstd::prelude::*;
use crate::text::opt_text;
use crate::vc::git::{commits_answer, commits_view, latest_tag_answer, CommitView, Git, GitCommit, GitError, GitOutput};

verus! {

/// The commits between two revisions (`from` is `None` for the start of the
/// repository).
#[derive(Debug, Clone, PartialEq, Eq)]
pub struct ReleaseHistory {
    pub from: Option<String>,
    pub to: String,
    pub commits: Vec<GitCommit>,
}

/// What `since_latest_tag` may answer: the commits from the latest tag (or
/// from the start) to `HEAD`, or the first error.
pub open spec fn since_latest_tag_answer<R: Fn(&Vec<String>, &str) -> Result<GitOutput, String>>(
    run: R,
    dir: Seq<char>,
    r: Result<ReleaseHistory, GitError>,
) -> bool {
    exists|t: Result<Option<String>, GitError>|
        #![trigger latest_tag_answer(run, dir, t)]
        {
            &&& latest_tag_answer(run, dir, t)
            &&& match t {
                Err(e) => r == Err::<ReleaseHistory, GitError>(e),
                Ok(from) => exists|c: Result<Vec<GitCommit>, GitError>|
                    #![trigger commits_answer(run, dir, opt_text(from), Some("HEAD"@), c)]
                    {
                        &&& commits_answer(run, dir, opt_text(from), Some("HEAD"@), c)
                        &&& match c {
                            Err(e) => r == Err::<ReleaseHistory, GitError>(e),
                            Ok(cs) => r matches Ok(h) && h.from == from && h.to@ == "HEAD"@ && h.commits == cs,
                        }
                    },
            }
        }
}

/// What `between` may answer: the commits from `from` to `to`, or the error.
pub open spec fn between_answer<R: Fn(&Vec<String>, &str) -> Result<GitOutput, String>>(
    run: R,
    dir: Seq<char>,
    from: Seq<char>,
    to: Seq<char>,
    r: Result<ReleaseHistory, GitError>,
) -> bool {
    exists|c: Result<Vec<GitCommit>, GitError>|
        #![trigger commits_answer(run, dir, Some(from), Some(to), c)]
        {
            &&& commits_answer(run, dir, Some(from), Some(to), c)
            &&& match c {
                Err(e) => r == Err::<ReleaseHistory, GitError>(e),
                Ok(cs) => r matches Ok(h) && opt_text(h.from) == Some(from) && h.to@ == to && h.commits == cs,
            }
        }
}

impl ReleaseHistory {
    /// The commits since the latest tag, up to `HEAD`.
    pub fn since_latest_tag<R: Fn(&Vec<String>, &str) -> Result<GitOutput, String>>(git: &Git, run: &R) -> (r: Result<Self, GitError>)
        requires
            forall|a: &Vec<String>, d: &str| call_requires(*run, (a, d)),
        ensures
            since_latest_tag_answer(*run, git.dir@, r),
    {
        let t = git.latest_tag(run);
        let ghost tv = t;
        assert(latest_tag_answer(*run, git.dir@, tv));
        match t {
            Err(e) => Err(e),
            Ok(from) => {
                let c = match &from {
                    Some(f) => git.commits(run, Some(f.as_str()), Some("HEAD")),
                    None => git.commits(run, None, Some("HEAD")),
                };
                let ghost cv = c;
                assert(commits_answer(*run, git.dir@, opt_text(from), Some("HEAD"@), cv));
                match c {
                    Err(e) => Err(e),
                    Ok(commits) => Ok(ReleaseHistory { from, to: "HEAD".to_string(), commits }),
                }
            },
        }
    }

    /// The commits from `from` to `to`.
    pub fn between<R: Fn(&Vec<String>, &str) -> Result<GitOutput, String>>(git: &Git, run: &R, from: &str, to: &str) -> (r: Result<Self, GitError>)
        requires
            forall|a: &Vec<String>, d: &str| call_requires(*run, (a, d)),
        ensures
            between_answer(*run, git.dir@, from@, to@, r),
    {
        let c = git.commits(run, Some(from), Some(to));
        let ghost cv = c;
        assert(commits_answer(*run, git.dir@, Some(from@), Some(to@), cv));
        match c {
            Err(e) => Err(e),
            Ok(commits) => Ok(ReleaseHistory { from: Some(from.to_string()), to: to.to_string(), commits }),
        }
    }
}

} // verus!
