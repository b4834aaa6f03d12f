//! The context from which the model writes release documentation: the
//! range, its commits, its diff and the files at the target revision.

use vstd::prelude::*;
use vstd::utf8::{decode_utf8, valid_utf8};
use crate::text::{append_chars, append_str, concat, from_chars, lemma_concat_push, opt_text, to_chars};
use crate::vc::git::{diff_answer, file_at_answer, files_answer, Git, GitCommit, GitError, GitOutput};
use crate::vc::release_history::{between_answer, since_latest_tag_answer, ReleaseHistory};

verus! {

/// A file at the target revision.
#[derive(Debug, Clone, PartialEq, Eq)]
pub struct ReleaseFile {
    pub path: String,
    pub content: Vec<u8>,
}

/// Everything the model is shown about a release.
#[derive(Debug, Clone, PartialEq, Eq)]
pub struct ReleaseDocContext {
    pub from: Option<String>,
    pub to: String,
    pub commits: Vec<GitCommit>,
    pub diff: Option<String>,
    pub files: Vec<ReleaseFile>,
}

/// Decodes bytes as UTF-8 (`std::str::from_utf8`).
///
/// Trusted: the bytes decode exactly when they are valid UTF-8, and then to
/// their decoding, as the documentation states.
#[verifier::external_body]
fn utf8_text(bytes: &[u8]) -> (r: Option<String>)
    ensures
        r is Some <==> valid_utf8(bytes@),
        r matches Some(s) ==> s@ == decode_utf8(bytes@),
{
    match std::str::from_utf8(bytes) {
        Ok(s) => Some(s.to_string()),
        Err(_) => None,
    }
}

/// What reading the files of `h.to` may give, with `diff` as the diff.
pub open spec fn files_read<R: Fn(&Vec<String>, &str) -> Result<GitOutput, String>>(
    run: R,
    dir: Seq<char>,
    h: ReleaseHistory,
    diff: Option<String>,
    r: Result<ReleaseDocContext, GitError>,
) -> bool {
    exists|fl: Result<Vec<String>, GitError>|
        #![trigger files_answer(run, dir, h.to@, fl)]
        {
            &&& files_answer(run, dir, h.to@, fl)
            &&& match fl {
                Err(e) => r == Err::<ReleaseDocContext, GitError>(e),
                Ok(paths) => match r {
                    Ok(ctx) => {
                        &&& ctx.from == h.from
                        &&& ctx.to == h.to
                        &&& ctx.commits == h.commits
                        &&& ctx.diff == diff
                        &&& ctx.files@.len() == paths@.len()
                        &&& forall|i: int|
                            0 <= i < paths@.len() ==> #[trigger] ctx.files@[i].path == paths@[i]
                                && file_at_answer(
                                run,
                                dir,
                                h.to@,
                                paths@[i]@,
                                Ok::<Vec<u8>, GitError>(ctx.files@[i].content),
                            )
                    },
                    Err(e) => exists|i: int|
                        0 <= i < paths@.len() && #[trigger] file_at_answer(
                            run,
                            dir,
                            h.to@,
                            paths@[i]@,
                            Err::<Vec<u8>, GitError>(e),
                        ),
                },
            }
        }
}

/// `diff` is what the diff of `h` gave: the diff from its start to its end
/// when it has a start, else nothing.
pub open spec fn diff_read<R: Fn(&Vec<String>, &str) -> Result<GitOutput, String>>(
    run: R,
    dir: Seq<char>,
    h: ReleaseHistory,
    diff: Option<String>,
) -> bool {
    match h.from {
        Some(f) => diff matches Some(d) && diff_answer(run, dir, f@, h.to@, Ok::<String, GitError>(d)),
        None => diff is None,
    }
}

/// What building the context of a history may give: its diff when it has a
/// start, then the files.
pub open spec fn from_history_answer<R: Fn(&Vec<String>, &str) -> Result<GitOutput, String>>(
    run: R,
    dir: Seq<char>,
    h: ReleaseHistory,
    r: Result<ReleaseDocContext, GitError>,
) -> bool {
    match h.from {
        Some(f) => exists|d: Result<String, GitError>|
            #![trigger diff_answer(run, dir, f@, h.to@, d)]
            {
                &&& diff_answer(run, dir, f@, h.to@, d)
                &&& match d {
                    Err(e) => r == Err::<ReleaseDocContext, GitError>(e),
                    Ok(dt) => files_read(run, dir, h, Some(dt), r),
                }
            },
        None => files_read(run, dir, h, None, r),
    }
}

/// What the context since the latest tag may be.
pub open spec fn since_context_answer<R: Fn(&Vec<String>, &str) -> Result<GitOutput, String>>(
    run: R,
    dir: Seq<char>,
    r: Result<ReleaseDocContext, GitError>,
) -> bool {
    exists|h: Result<ReleaseHistory, GitError>|
        #![trigger since_latest_tag_answer(run, dir, h)]
        {
            &&& since_latest_tag_answer(run, dir, h)
            &&& match h {
                Err(e) => r == Err::<ReleaseDocContext, GitError>(e),
                Ok(hist) => from_history_answer(run, dir, hist, r),
            }
        }
}

/// What the context from `from` to `to` may be.
pub open spec fn between_context_answer<R: Fn(&Vec<String>, &str) -> Result<GitOutput, String>>(
    run: R,
    dir: Seq<char>,
    from: Seq<char>,
    to: Seq<char>,
    r: Result<ReleaseDocContext, GitError>,
) -> bool {
    exists|h: Result<ReleaseHistory, GitError>|
        #![trigger between_answer(run, dir, from, to, h)]
        {
            &&& between_answer(run, dir, from, to, h)
            &&& match h {
                Err(e) => r == Err::<ReleaseDocContext, GitError>(e),
                Ok(hist) => from_history_answer(run, dir, hist, r),
            }
        }
}

/// The range line of a context.
pub open spec fn range_text(c: ReleaseDocContext) -> Seq<char> {
    "=== RELEASE RANGE ===\n"@ + "from: "@ + match c.from {
        Some(f) => f@,
        None => "<repository start>"@,
    } + "\nto: "@ + c.to@ + "\n"@
}

/// The diff part of a context.
pub open spec fn diff_text(c: ReleaseDocContext) -> Seq<char> {
    "\n=== DIFF ===\n"@ + match c.diff {
        Some(d) => d@,
        None => "<no previous tag; no range diff available>"@,
    }
}

/// A commit as the full context shows it.
pub open spec fn commit_block(c: GitCommit) -> Seq<char> {
    "hash: "@ + c.hash@ + "\nauthor: "@ + c.author_name@ + " <"@ + c.author_email@ + ">\ndate: "@
        + c.authored_at@ + "\nsubject: "@ + c.subject@ + "\nbody:\n"@ + c.body@ + "\n---\n"@
}

/// A commit as the summary shows it.
pub open spec fn commit_summary(c: GitCommit) -> Seq<char> {
    "hash: "@ + c.hash@ + "\ndate: "@ + c.authored_at@ + "\nsubject: "@ + c.subject@ + "\nbody:\n"@
        + c.body@ + "\n---\n"@
}

/// A file as the full context shows it: its text, or a note when it is not
/// UTF-8.
pub open spec fn file_block(f: ReleaseFile) -> Seq<char> {
    "\n--- FILE: "@ + f.path@ + " ---\n"@ + if valid_utf8(f.content@) {
        decode_utf8(f.content@)
    } else {
        "<binary file omitted>"@
    } + "\n--- END FILE ---\n"@
}

/// The full context: range, commits, diff and the files with their text.
pub open spec fn llm_context(c: ReleaseDocContext) -> Seq<char> {
    range_text(c) + "\n=== COMMITS ===\n"@ + concat(Seq::new(c.commits@.len(), |i: int| commit_block(c.commits@[i])))
        + diff_text(c) + "\n\n=== FILES AT TARGET REF ===\n"@ + concat(
        Seq::new(c.files@.len(), |i: int| file_block(c.files@[i])),
    )
}

/// The summary: range, shorter commits, diff and the paths of the files.
pub open spec fn llm_summary_context(c: ReleaseDocContext) -> Seq<char> {
    range_text(c) + "\n=== COMMITS ===\n"@ + concat(
        Seq::new(c.commits@.len(), |i: int| commit_summary(c.commits@[i])),
    ) + diff_text(c) + "\n\n=== AVAILABLE FILES AT TARGET REF ===\n"@ + concat(
        Seq::new(c.files@.len(), |i: int| c.files@[i].path@ + "\n"@),
    )
}

impl ReleaseDocContext {
    /// The context of the release since the latest tag.
    pub fn since_latest_tag<R: Fn(&Vec<String>, &str) -> Result<GitOutput, String>>(git: &Git, run: &R) -> (r: Result<Self, GitError>)
        requires
            forall|a: &Vec<String>, d: &str| call_requires(*run, (a, d)),
        ensures
            since_context_answer(*run, git.dir@, r),
    {
        let h = ReleaseHistory::since_latest_tag(git, run);
        let ghost hv = h;
        assert(since_latest_tag_answer(*run, git.dir@, hv));
        match h {
            Err(e) => Err(e),
            Ok(history) => Self::from_history(git, run, history),
        }
    }

    /// The context of the release from `from` to `to`.
    pub fn between<R: Fn(&Vec<String>, &str) -> Result<GitOutput, String>>(git: &Git, run: &R, from: &str, to: &str) -> (r: Result<Self, GitError>)
        requires
            forall|a: &Vec<String>, d: &str| call_requires(*run, (a, d)),
        ensures
            between_context_answer(*run, git.dir@, from@, to@, r),
    {
        let h = ReleaseHistory::between(git, run, from, to);
        let ghost hv = h;
        assert(between_answer(*run, git.dir@, from@, to@, hv));
        match h {
            Err(e) => Err(e),
            Ok(history) => Self::from_history(git, run, history),
        }
    }

    /// The context of a history: its diff when it has a start, and every
    /// file of its end revision with its content.
    fn from_history<R: Fn(&Vec<String>, &str) -> Result<GitOutput, String>>(git: &Git, run: &R, history: ReleaseHistory) -> (r: Result<Self, GitError>)
        requires
            forall|a: &Vec<String>, d: &str| call_requires(*run, (a, d)),
        ensures
            from_history_answer(*run, git.dir@, history, r),
    {
        let ghost h = history;
        let diff: Option<String> = match &history.from {
            Some(f) => {
                let d = git.diff(run, f.as_str(), history.to.as_str());
                let ghost dv = d;
                assert(diff_answer(*run, git.dir@, f@, history.to@, dv));
                match d {
                    Err(e) => {
                        return Err(e);
                    },
                    Ok(text) => Some(text),
                }
            },
            None => None,
        };
        let fl = git.files(run, history.to.as_str());
        let ghost flv = fl;
        assert(files_answer(*run, git.dir@, history.to@, flv));
        assert(diff_read(*run, git.dir@, h, diff));
        let paths = match fl {
            Err(e) => {
                return Err(e);
            },
            Ok(p) => p,
        };
        let mut files: Vec<ReleaseFile> = Vec::new();
        let n = paths.len();
        let mut i: usize = 0;
        while i < n
            invariant
                forall|a: &Vec<String>, d: &str| call_requires(*run, (a, d)),
                h == history,
                n == paths@.len(),
                i <= n,
                flv == Ok::<Vec<String>, GitError>(paths),
                files_answer(*run, git.dir@, h.to@, flv),
                diff_read(*run, git.dir@, h, diff),
                files@.len() == i,
                forall|j: int|
                    0 <= j < i ==> #[trigger] files@[j].path == paths@[j] && file_at_answer(
                        *run,
                        git.dir@,
                        h.to@,
                        paths@[j]@,
                        Ok::<Vec<u8>, GitError>(files@[j].content),
                    ),
            decreases n - i,
        {
            let content = git.file_at(run, history.to.as_str(), paths[i].as_str());
            let ghost cv = content;
            assert(file_at_answer(*run, git.dir@, h.to@, paths@[i as int]@, cv));
            match content {
                Err(e) => {
                    proof {
                        let r = Err::<ReleaseDocContext, GitError>(e);
                        assert(files_read(*run, git.dir@, h, diff, r));
                    }
                    return Err(e);
                },
                Ok(bytes) => {
                    files.push(ReleaseFile { path: paths[i].clone(), content: bytes });
                },
            }
            i = i + 1;
        }
        Ok(ReleaseDocContext { from: history.from, to: history.to, commits: history.commits, diff, files })
    }

    /// Appends the range and the heading of the commits.
    fn push_range(&self, v: &mut Vec<char>)
        ensures
            final(v)@ == old(v)@ + range_text(*self) + "\n=== COMMITS ===\n"@,
    {
        let ghost v0 = v@;
        append_str(v, "=== RELEASE RANGE ===\n");
        append_str(v, "from: ");
        match &self.from {
            Some(f) => append_str(v, f.as_str()),
            None => append_str(v, "<repository start>"),
        }
        append_str(v, "\nto: ");
        append_str(v, self.to.as_str());
        append_str(v, "\n");
        append_str(v, "\n=== COMMITS ===\n");
        assert(v@ =~= v0 + range_text(*self) + "\n=== COMMITS ===\n"@);
    }

    /// Appends the diff part.
    fn push_diff(&self, v: &mut Vec<char>)
        ensures
            final(v)@ == old(v)@ + diff_text(*self),
    {
        let ghost v0 = v@;
        append_str(v, "\n=== DIFF ===\n");
        match &self.diff {
            Some(d) => append_str(v, d.as_str()),
            None => append_str(v, "<no previous tag; no range diff available>"),
        }
        assert(v@ =~= v0 + diff_text(*self));
    }

    /// The full context for the model.
    pub fn to_llm_context(&self) -> (r: String)
        ensures
            r@ == llm_context(*self),
    {
        let mut v: Vec<char> = Vec::new();
        self.push_range(&mut v);
        let ghost base = v@;
        let ghost blocks = Seq::new(self.commits@.len(), |i: int| commit_block(self.commits@[i]));
        assert(blocks.take(0) =~= Seq::<Seq<char>>::empty());
        for i in 0..self.commits.len()
            invariant
                blocks == Seq::new(self.commits@.len(), |i: int| commit_block(self.commits@[i])),
                v@ == base + concat(blocks.take(i as int)),
        {
            let c = &self.commits[i];
            let ghost before = v@;
            append_str(&mut v, "hash: ");
            append_str(&mut v, c.hash.as_str());
            append_str(&mut v, "\nauthor: ");
            append_str(&mut v, c.author_name.as_str());
            append_str(&mut v, " <");
            append_str(&mut v, c.author_email.as_str());
            append_str(&mut v, ">\ndate: ");
            append_str(&mut v, c.authored_at.as_str());
            append_str(&mut v, "\nsubject: ");
            append_str(&mut v, c.subject.as_str());
            append_str(&mut v, "\nbody:\n");
            append_str(&mut v, c.body.as_str());
            append_str(&mut v, "\n---\n");
            proof {
                assert(v@ =~= before + commit_block(*c));
                assert(blocks.take(i + 1) =~= blocks.take(i as int).push(blocks[i as int]));
                lemma_concat_push(blocks.take(i as int), blocks[i as int]);
            }
        }
        assert(blocks.take(self.commits@.len() as int) =~= blocks);
        self.push_diff(&mut v);
        append_str(&mut v, "\n\n=== FILES AT TARGET REF ===\n");
        let ghost base2 = v@;
        let ghost fblocks = Seq::new(self.files@.len(), |i: int| file_block(self.files@[i]));
        assert(fblocks.take(0) =~= Seq::<Seq<char>>::empty());
        for i in 0..self.files.len()
            invariant
                fblocks == Seq::new(self.files@.len(), |i: int| file_block(self.files@[i])),
                v@ == base2 + concat(fblocks.take(i as int)),
        {
            let f = &self.files[i];
            let ghost before = v@;
            append_str(&mut v, "\n--- FILE: ");
            append_str(&mut v, f.path.as_str());
            append_str(&mut v, " ---\n");
            match utf8_text(f.content.as_slice()) {
                Some(text) => append_str(&mut v, text.as_str()),
                None => append_str(&mut v, "<binary file omitted>"),
            }
            append_str(&mut v, "\n--- END FILE ---\n");
            proof {
                assert(v@ =~= before + file_block(*f));
                assert(fblocks.take(i + 1) =~= fblocks.take(i as int).push(fblocks[i as int]));
                lemma_concat_push(fblocks.take(i as int), fblocks[i as int]);
            }
        }
        assert(fblocks.take(self.files@.len() as int) =~= fblocks);
        assert(v@ =~= llm_context(*self));
        from_chars(v.as_slice())
    }

    /// The summary for the model: commits without authors and only the
    /// paths of the files.
    pub fn to_llm_summary_context(&self) -> (r: String)
        ensures
            r@ == llm_summary_context(*self),
    {
        let mut v: Vec<char> = Vec::new();
        self.push_range(&mut v);
        let ghost base = v@;
        let ghost blocks = Seq::new(self.commits@.len(), |i: int| commit_summary(self.commits@[i]));
        assert(blocks.take(0) =~= Seq::<Seq<char>>::empty());
        for i in 0..self.commits.len()
            invariant
                blocks == Seq::new(self.commits@.len(), |i: int| commit_summary(self.commits@[i])),
                v@ == base + concat(blocks.take(i as int)),
        {
            let c = &self.commits[i];
            let ghost before = v@;
            append_str(&mut v, "hash: ");
            append_str(&mut v, c.hash.as_str());
            append_str(&mut v, "\ndate: ");
            append_str(&mut v, c.authored_at.as_str());
            append_str(&mut v, "\nsubject: ");
            append_str(&mut v, c.subject.as_str());
            append_str(&mut v, "\nbody:\n");
            append_str(&mut v, c.body.as_str());
            append_str(&mut v, "\n---\n");
            proof {
                assert(v@ =~= before + commit_summary(*c));
                assert(blocks.take(i + 1) =~= blocks.take(i as int).push(blocks[i as int]));
                lemma_concat_push(blocks.take(i as int), blocks[i as int]);
            }
        }
        assert(blocks.take(self.commits@.len() as int) =~= blocks);
        self.push_diff(&mut v);
        append_str(&mut v, "\n\n=== AVAILABLE FILES AT TARGET REF ===\n");
        let ghost base2 = v@;
        let ghost pblocks = Seq::new(self.files@.len(), |i: int| self.files@[i].path@ + "\n"@);
        assert(pblocks.take(0) =~= Seq::<Seq<char>>::empty());
        for i in 0..self.files.len()
            invariant
                pblocks == Seq::new(self.files@.len(), |i: int| self.files@[i].path@ + "\n"@),
                v@ == base2 + concat(pblocks.take(i as int)),
        {
            let ghost before = v@;
            append_str(&mut v, self.files[i].path.as_str());
            append_str(&mut v, "\n");
            proof {
                assert(v@ =~= before + pblocks[i as int]);
                assert(pblocks.take(i + 1) =~= pblocks.take(i as int).push(pblocks[i as int]));
                lemma_concat_push(pblocks.take(i as int), pblocks[i as int]);
            }
        }
        assert(pblocks.take(self.files@.len() as int) =~= pblocks);
        assert(v@ =~= llm_summary_context(*self));
        from_chars(v.as_slice())
    }
}

} // verus!
