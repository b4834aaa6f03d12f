//! Reading a git repository. Each query runs one git command through the
//! caller's `run` (which starts `git` with the arguments in the repository
//! directory and reports what it printed); what the query answers is read
//! from that output here.

use vstd::prelude::*;
use vstd::utf8::{decode_utf8, valid_utf8};
use crate::text::{
    append_chars, append_str, from_chars, join, join_chars, lines, lines_chars, signed_decimal,
    signed_decimal_chars, split_chars, splitn_char, split_char, strings_text, to_chars, trim, trim_chars,
    trim_end, trim_end_chars, is_white, lead_ws, trail_ws, lemma_split_concat, lemma_split_free,
    lemma_splitn_is_split,
};

verus! {

/// What a finished git command reported.
#[derive(Clone, Debug)]
pub struct GitOutput {
    pub success: bool,
    pub code: Option<i32>,
    pub stdout: Vec<u8>,
    pub stderr: Vec<u8>,
}

/// Why a git query failed: git could not be run (with the reason), the
/// command failed, or its output could not be read.
#[derive(Debug)]
pub enum GitError {
    Io(String),
    CommandFailed { args: Vec<String>, status: Option<i32>, stderr: String },
    InvalidOutput(String),
}

/// A commit as `git log` describes it.
#[derive(Clone, Debug, PartialEq, Eq)]
pub struct GitCommit {
    pub hash: String,
    pub author_name: String,
    pub author_email: String,
    pub authored_at: String,
    pub subject: String,
    pub body: String,
}

/// What a commit holds.
pub struct CommitView {
    pub hash: Seq<char>,
    pub author_name: Seq<char>,
    pub author_email: Seq<char>,
    pub authored_at: Seq<char>,
    pub subject: Seq<char>,
    pub body: Seq<char>,
}

impl View for GitCommit {
    type V = CommitView;

    open spec fn view(&self) -> CommitView {
        CommitView {
            hash: self.hash@,
            author_name: self.author_name@,
            author_email: self.author_email@,
            authored_at: self.authored_at@,
            subject: self.subject@,
            body: self.body@,
        }
    }
}

/// What the commits hold.
pub open spec fn commits_view(v: Seq<GitCommit>) -> Seq<CommitView> {
    Seq::new(v.len(), |i: int| v[i]@)
}

/// The repository in the directory `dir`.
#[derive(Clone, Debug)]
pub struct Git {
    pub dir: String,
}

/// The text of `bytes` with each invalid UTF-8 sequence replaced by
/// U+FFFD, as `String::from_utf8_lossy` gives it.
pub uninterp spec fn lossy_utf8(bytes: Seq<u8>) -> Seq<char>;

/// Reads bytes as text (`String::from_utf8_lossy`).
///
/// Trusted: the result is `lossy_utf8` of the bytes, and for valid UTF-8 it
/// is their decoding, as the documentation states.
#[verifier::external_body]
pub(crate) fn lossy_text(bytes: &[u8]) -> (r: String)
    ensures
        r@ == lossy_utf8(bytes@),
        valid_utf8(bytes@) ==> r@ == decode_utf8(bytes@),
{
    String::from_utf8_lossy(bytes).into_owned()
}

/// `run`, called with the arguments `args` in the directory `dir`,
/// answered `out`.
pub open spec fn git_ran<R: Fn(&Vec<String>, &str) -> Result<GitOutput, String>>(
    run: R,
    args: Seq<Seq<char>>,
    dir: Seq<char>,
    out: Result<GitOutput, String>,
) -> bool {
    exists|a: &Vec<String>, d: &str| strings_text(a@) == args && d@ == dir && call_ensures(run, (a, d), out)
}

/// The standard output of a command that ran and succeeded.
pub open spec fn run_text(out: Result<GitOutput, String>) -> Option<Seq<char>> {
    match out {
        Ok(o) => if o.success {
            Some(lossy_utf8(o.stdout@))
        } else {
            None
        },
        Err(_) => None,
    }
}

/// `e` reports that the command `args` could not be run, or failed.
pub open spec fn failed_as(e: GitError, out: Result<GitOutput, String>, args: Seq<Seq<char>>) -> bool {
    match out {
        Err(m) => e matches GitError::Io(x) && x@ == m@,
        Ok(o) => e matches GitError::CommandFailed { args: a, status, stderr } && strings_text(a@) == args
            && status == o.code && stderr@ == lossy_utf8(o.stderr@),
    }
}

/// `e` reports that git could not be run, as `out` says.
pub open spec fn io_failed_as(e: GitError, out: Result<GitOutput, String>) -> bool {
    out matches Err(m) && e matches GitError::Io(x) && x@ == m@
}

/// The text of an optional exit code as `Debug` writes it.
pub open spec fn status_text(s: Option<i32>) -> Seq<char> {
    match s {
        Some(c) => "Some("@ + signed_decimal(c as int) + ")"@,
        None => "None"@,
    }
}

/// The message of an error (its `Display` output).
pub open spec fn git_error_text(e: GitError) -> Seq<char> {
    match e {
        GitError::Io(m) => "failed to execute git: "@ + m@,
        GitError::CommandFailed { args, status, stderr } => "git "@ + join(strings_text(args@), " "@)
            + " failed with status "@ + status_text(status) + ": "@ + trim(stderr@),
        GitError::InvalidOutput(m) => "invalid git output: "@ + m@,
    }
}

/// The arguments of a command, as strings.
fn args_of(parts: &[&str]) -> (r: Vec<String>)
    ensures
        strings_text(r@) == Seq::new(parts@.len(), |i: int| parts@[i]@),
{
    let mut r: Vec<String> = Vec::new();
    for i in 0..parts.len()
        invariant
            r@.len() == i,
            forall|j: int| 0 <= j < i ==> #[trigger] r@[j]@ == parts@[j]@,
    {
        r.push(parts[i].to_string());
    }
    assert(strings_text(r@) =~= Seq::new(parts@.len(), |i: int| parts@[i]@));
    r
}

/// The trimmed, non-empty lines of `text`.
pub open spec fn trimmed_lines(text: Seq<char>) -> Seq<Seq<char>> {
    Seq::new(lines(text).len(), |i: int| trim(lines(text)[i])).filter(|l: Seq<char>| l.len() > 0)
}

/// The non-empty lines of `text`.
pub open spec fn nonempty_lines(text: Seq<char>) -> Seq<Seq<char>> {
    lines(text).filter(|l: Seq<char>| l.len() > 0)
}

/// The pieces that are not empty, each optionally trimmed first.
fn keep_nonempty(parts: &Vec<Vec<char>>, trimmed: bool) -> (r: Vec<String>)
    ensures
        strings_text(r@) == if trimmed {
            Seq::new(parts@.len(), |i: int| trim(parts@[i]@)).filter(|l: Seq<char>| l.len() > 0)
        } else {
            Seq::new(parts@.len(), |i: int| parts@[i]@).filter(|l: Seq<char>| l.len() > 0)
        },
{
    let ghost src = if trimmed {
        Seq::new(parts@.len(), |i: int| trim(parts@[i]@))
    } else {
        Seq::new(parts@.len(), |i: int| parts@[i]@)
    };
    let ghost keep = |l: Seq<char>| l.len() > 0;
    let mut r: Vec<String> = Vec::new();
    for i in 0..parts.len()
        invariant
            src.len() == parts@.len(),
            src == if trimmed {
                Seq::new(parts@.len(), |i: int| trim(parts@[i]@))
            } else {
                Seq::new(parts@.len(), |i: int| parts@[i]@)
            },
            keep == (|l: Seq<char>| l.len() > 0),
            strings_text(r@) == src.take(i as int).filter(keep),
    {
        let piece = if trimmed {
            trim_chars(parts[i].as_slice())
        } else {
            let mut c: Vec<char> = Vec::new();
            append_chars(&mut c, parts[i].as_slice());
            c
        };
        assert(piece@ == src[i as int]);
        let ghost before = strings_text(r@);
        if piece.len() > 0 {
            r.push(from_chars(piece.as_slice()));
        }
        proof {
            assert(src.take(i + 1).drop_last() =~= src.take(i as int));
            assert(src.take(i + 1).last() == src[i as int]);
            assert(src.take(i + 1).filter(keep) == if keep(src[i as int]) {
                before.push(src[i as int])
            } else {
                before
            }) by {
                reveal(Seq::filter);
            }
            assert(strings_text(r@) =~= src.take(i + 1).filter(keep));
        }
    }
    assert(src.take(parts@.len() as int) =~= src);
    r
}

impl GitError {
    /// The message of the error.
    pub fn to_string(&self) -> (r: String)
        ensures
            r@ == git_error_text(*self),
    {
        let mut v: Vec<char>;
        match self {
            GitError::Io(m) => {
                v = to_chars("failed to execute git: ");
                append_str(&mut v, m.as_str());
            },
            GitError::CommandFailed { args, status, stderr } => {
                v = to_chars("git ");
                let mut parts: Vec<Vec<char>> = Vec::new();
                for i in 0..args.len()
                    invariant
                        parts@.len() == i,
                        forall|j: int| 0 <= j < i ==> #[trigger] parts@[j]@ == args@[j]@,
                {
                    parts.push(to_chars(args[i].as_str()));
                }
                let sp = to_chars(" ");
                let j = join_chars(&parts, sp.as_slice());
                assert(parts@.map_values(|p: Vec<char>| p@) =~= strings_text(args@));
                append_chars(&mut v, j.as_slice());
                append_str(&mut v, " failed with status ");
                match status {
                    Some(c) => {
                        append_str(&mut v, "Some(");
                        let d = signed_decimal_chars(*c as i64);
                        append_chars(&mut v, d.as_slice());
                        append_str(&mut v, ")");
                    },
                    None => append_str(&mut v, "None"),
                }
                append_str(&mut v, ": ");
                let e = to_chars(stderr.as_str());
                let t = trim_chars(e.as_slice());
                append_chars(&mut v, t.as_slice());
            },
            GitError::InvalidOutput(m) => {
                v = to_chars("invalid git output: ");
                append_str(&mut v, m.as_str());
            },
        }
        assert(v@ =~= git_error_text(*self));
        from_chars(v.as_slice())
    }
}

impl Git {
    /// The repository in `dir`.
    pub fn new(dir: &str) -> (r: Git)
        ensures
            r.dir@ == dir@,
    {
        Git { dir: dir.to_string() }
    }

    /// The directory of the repository.
    pub fn dir(&self) -> (r: &str)
        ensures
            r@ == self.dir@,
    {
        self.dir.as_str()
    }

    /// Runs git with `args` and returns what it printed when it succeeded.
    fn run<R: Fn(&Vec<String>, &str) -> Result<GitOutput, String>>(&self, run: &R, args: Vec<String>) -> (r: Result<String, GitError>)
        requires
            forall|a: &Vec<String>, d: &str| call_requires(*run, (a, d)),
        ensures
            exists|out: Result<GitOutput, String>|
                {
                    &&& git_ran(*run, strings_text(args@), self.dir@, out)
                    &&& match run_text(out) {
                        Some(t) => r matches Ok(s) && s@ == t,
                        None => r matches Err(e) && failed_as(e, out, strings_text(args@)),
                    }
                },
    {
        let d = self.dir.as_str();
        let out = run(&args, d);
        assert(git_ran(*run, strings_text(args@), self.dir@, out));
        match out {
            Err(m) => Err(GitError::Io(m)),
            Ok(o) => {
                if o.success {
                    Ok(lossy_text(o.stdout.as_slice()))
                } else {
                    let stderr = lossy_text(o.stderr.as_slice());
                    Err(GitError::CommandFailed { args, status: o.code, stderr })
                }
            },
        }
    }

    /// Runs git with `args` and returns its report.
    fn run_raw<R: Fn(&Vec<String>, &str) -> Result<GitOutput, String>>(&self, run: &R, args: Vec<String>) -> (r: Result<GitOutput, GitError>)
        requires
            forall|a: &Vec<String>, d: &str| call_requires(*run, (a, d)),
        ensures
            exists|out: Result<GitOutput, String>|
                {
                    &&& git_ran(*run, strings_text(args@), self.dir@, out)
                    &&& match out {
                        Ok(o) => r == Ok::<GitOutput, GitError>(o),
                        Err(_) => r matches Err(e) && io_failed_as(e, out),
                    }
                },
    {
        let d = self.dir.as_str();
        let out = run(&args, d);
        assert(git_ran(*run, strings_text(args@), self.dir@, out));
        match out {
            Err(m) => Err(GitError::Io(m)),
            Ok(o) => Ok(o),
        }
    }

    /// Whether the directory is inside a work tree: `git rev-parse
    /// --is-inside-work-tree` succeeds and prints `true`.
    pub fn is_repository<R: Fn(&Vec<String>, &str) -> Result<GitOutput, String>>(&self, run: &R) -> (r: Result<bool, GitError>)
        requires
            forall|a: &Vec<String>, d: &str| call_requires(*run, (a, d)),
        ensures
            exists|out: Result<GitOutput, String>|
                {
                    &&& git_ran(*run, seq!["rev-parse"@, "--is-inside-work-tree"@], self.dir@, out)
                    &&& match out {
                        Ok(o) => r == Ok::<bool, GitError>(o.success && trim(lossy_utf8(o.stdout@)) == "true"@),
                        Err(_) => r matches Err(e) && io_failed_as(e, out),
                    }
                },
    {
        let args = args_of(&["rev-parse", "--is-inside-work-tree"]);
        assert(strings_text(args@) =~= seq!["rev-parse"@, "--is-inside-work-tree"@]);
        let out = self.run_raw(run, args);
        match out {
            Err(e) => Err(e),
            Ok(o) => {
                let text = lossy_text(o.stdout.as_slice());
                let c = to_chars(text.as_str());
                let t = trim_chars(c.as_slice());
                let tr = to_chars("true");
                Ok(o.success && crate::text::chars_eq(t.as_slice(), tr.as_slice()))
            },
        }
    }

    /// The top directory of the work tree: the trimmed output of `git
    /// rev-parse --show-toplevel`.
    pub fn repository_root<R: Fn(&Vec<String>, &str) -> Result<GitOutput, String>>(&self, run: &R) -> (r: Result<String, GitError>)
        requires
            forall|a: &Vec<String>, d: &str| call_requires(*run, (a, d)),
        ensures
            exists|out: Result<GitOutput, String>|
                {
                    &&& git_ran(*run, seq!["rev-parse"@, "--show-toplevel"@], self.dir@, out)
                    &&& match run_text(out) {
                        Some(t) => r matches Ok(s) && s@ == trim(t),
                        None => r matches Err(e) && failed_as(e, out, seq!["rev-parse"@, "--show-toplevel"@]),
                    }
                },
    {
        let args = args_of(&["rev-parse", "--show-toplevel"]);
        assert(strings_text(args@) =~= seq!["rev-parse"@, "--show-toplevel"@]);
        match self.run(run, args) {
            Err(e) => Err(e),
            Ok(value) => {
                let c = to_chars(value.as_str());
                let t = trim_chars(c.as_slice());
                Ok(from_chars(t.as_slice()))
            },
        }
    }

    /// The checked-out branch: the trimmed output of `git branch
    /// --show-current`, or `None` when that is empty (a detached head).
    pub fn current_branch<R: Fn(&Vec<String>, &str) -> Result<GitOutput, String>>(&self, run: &R) -> (r: Result<Option<String>, GitError>)
        requires
            forall|a: &Vec<String>, d: &str| call_requires(*run, (a, d)),
        ensures
            exists|out: Result<GitOutput, String>|
                {
                    &&& git_ran(*run, seq!["branch"@, "--show-current"@], self.dir@, out)
                    &&& match run_text(out) {
                        Some(t) => r matches Ok(b) && if trim(t).len() == 0 {
                            b is None
                        } else {
                            b matches Some(s) && s@ == trim(t)
                        },
                        None => r matches Err(e) && failed_as(e, out, seq!["branch"@, "--show-current"@]),
                    }
                },
    {
        let args = args_of(&["branch", "--show-current"]);
        assert(strings_text(args@) =~= seq!["branch"@, "--show-current"@]);
        match self.run(run, args) {
            Err(e) => Err(e),
            Ok(value) => {
                let c = to_chars(value.as_str());
                let t = trim_chars(c.as_slice());
                if t.len() == 0 {
                    Ok(None)
                } else {
                    Ok(Some(from_chars(t.as_slice())))
                }
            },
        }
    }

    /// The tags in version order: the trimmed non-empty lines of `git tag
    /// --list --sort=version:refname`.
    pub fn tags<R: Fn(&Vec<String>, &str) -> Result<GitOutput, String>>(&self, run: &R) -> (r: Result<Vec<String>, GitError>)
        requires
            forall|a: &Vec<String>, d: &str| call_requires(*run, (a, d)),
        ensures
            exists|out: Result<GitOutput, String>|
                {
                    &&& git_ran(*run, seq!["tag"@, "--list"@, "--sort=version:refname"@], self.dir@, out)
                    &&& match run_text(out) {
                        Some(t) => r matches Ok(v) && strings_text(v@) == trimmed_lines(t),
                        None => r matches Err(e) && failed_as(
                            e,
                            out,
                            seq!["tag"@, "--list"@, "--sort=version:refname"@],
                        ),
                    }
                },
    {
        let args = args_of(&["tag", "--list", "--sort=version:refname"]);
        assert(strings_text(args@) =~= seq!["tag"@, "--list"@, "--sort=version:refname"@]);
        match self.run(run, args) {
            Err(e) => Err(e),
            Ok(value) => {
                let c = to_chars(value.as_str());
                let ls = lines_chars(c.as_slice());
                let r = keep_nonempty(&ls, true);
                assert(Seq::new(ls@.len(), |i: int| trim(ls@[i]@)) =~= Seq::new(
                    lines(c@).len(),
                    |i: int| trim(lines(c@)[i]),
                ));
                Ok(r)
            },
        }
    }

    /// The most recent tag reachable from the head: the trimmed output of
    /// `git describe --tags --abbrev=0` when it succeeds and is not empty,
    /// else `None`.
    pub fn latest_tag<R: Fn(&Vec<String>, &str) -> Result<GitOutput, String>>(&self, run: &R) -> (r: Result<Option<String>, GitError>)
        requires
            forall|a: &Vec<String>, d: &str| call_requires(*run, (a, d)),
        ensures
            latest_tag_answer(*run, self.dir@, r),
    {
        let args = args_of(&["describe", "--tags", "--abbrev=0"]);
        assert(strings_text(args@) =~= describe_args());
        let res = self.run_raw(run, args);
        let ghost out = choose|out: Result<GitOutput, String>|
            git_ran(*run, describe_args(), self.dir@, out) && match out {
                Ok(o) => res == Ok::<GitOutput, GitError>(o),
                Err(_) => res matches Err(e) && io_failed_as(e, out),
            };
        let r = match res {
            Err(e) => Err(e),
            Ok(o) => {
                if o.success {
                    let text = lossy_text(o.stdout.as_slice());
                    let c = to_chars(text.as_str());
                    let t = trim_chars(c.as_slice());
                    if t.len() > 0 {
                        Ok(Some(from_chars(t.as_slice())))
                    } else {
                        Ok(None)
                    }
                } else {
                    Ok(None)
                }
            },
        };
        assert(git_ran(*run, describe_args(), self.dir@, out));
        r
    }
}

} // verus!

verus! {

/// The separator between the fields of a commit in the log format.
pub open spec fn field_sep() -> char {
    '\u{1f}'
}

/// The separator after each commit in the log format.
pub open spec fn record_sep() -> char {
    '\u{1e}'
}

/// The `--format` argument that makes `git log` print each commit as hash,
/// author name, author e-mail, author date, subject and body, separated by
/// `field_sep` and followed by `record_sep`.
pub open spec fn log_format() -> Seq<char> {
    "--format=%H"@ + seq![field_sep()] + "%an"@ + seq![field_sep()] + "%ae"@ + seq![field_sep()] + "%aI"@
        + seq![field_sep()] + "%s"@ + seq![field_sep()] + "%b"@ + seq![record_sep()]
}

/// The revision range for `git log`: `from..to`, `from..HEAD` without an
/// end, just `to` without a start, and none without either.
pub open spec fn log_range(from: Option<Seq<char>>, to: Option<Seq<char>>) -> Option<Seq<char>> {
    match (from, to) {
        (Some(f), Some(t)) => Some(f + ".."@ + t),
        (Some(f), None) => Some(f + "..HEAD"@),
        (None, Some(t)) => Some(t),
        (None, None) => None,
    }
}

/// The characters of an optional string slice.
pub open spec fn opt_str(o: Option<&str>) -> Option<Seq<char>> {
    match o {
        Some(s) => Some(s@),
        None => None,
    }
}

/// The arguments of `git log` for a range.
pub open spec fn log_args(from: Option<Seq<char>>, to: Option<Seq<char>>) -> Seq<Seq<char>> {
    let base = seq!["log"@, "--no-decorate"@, log_format()];
    match log_range(from, to) {
        Some(r) => base.push(r),
        None => base,
    }
}

/// The records of a log: the trimmed, non-empty pieces between record
/// separators.
pub open spec fn commit_records(output: Seq<char>) -> Seq<Seq<char>> {
    let parts = split_char(output, record_sep());
    Seq::new(parts.len(), |i: int| trim(parts[i])).filter(|r: Seq<char>| r.len() > 0)
}

/// A record read as a commit: six fields (the last, the body, with trailing
/// white space removed), or `None` when there are fewer.
pub open spec fn parse_record(rec: Seq<char>) -> Option<CommitView> {
    let f = splitn_char(rec, field_sep(), 6);
    if f.len() == 6 {
        Some(
            CommitView {
                hash: f[0],
                author_name: f[1],
                author_email: f[2],
                authored_at: f[3],
                subject: f[4],
                body: trim_end(f[5]),
            },
        )
    } else {
        None
    }
}

/// The records read as commits, or the first record that is not one.
pub open spec fn parse_records(recs: Seq<Seq<char>>) -> Result<Seq<CommitView>, Seq<char>>
    decreases recs.len(),
{
    if recs.len() == 0 {
        Ok(Seq::empty())
    } else {
        match parse_records(recs.drop_last()) {
            Err(e) => Err(e),
            Ok(cs) => match parse_record(recs.last()) {
                Some(c) => Ok(cs.push(c)),
                None => Err(recs.last()),
            },
        }
    }
}

/// Once a prefix of the records holds a bad record, so do all longer ones.
proof fn lemma_parse_error_stays(recs: Seq<Seq<char>>, i: int, e: Seq<char>)
    requires
        0 <= i <= recs.len(),
        parse_records(recs.take(i)) == Err::<Seq<CommitView>, Seq<char>>(e),
    ensures
        parse_records(recs) == Err::<Seq<CommitView>, Seq<char>>(e),
    decreases recs.len() - i,
{
    if i < recs.len() {
        assert(recs.take(i + 1).drop_last() =~= recs.take(i));
        lemma_parse_error_stays(recs, i + 1, e);
    } else {
        assert(recs.take(i) =~= recs);
    }
}

/// The commits of a log, or the first record that is not a commit.
pub fn parse_commits(output: &str) -> (r: Result<Vec<GitCommit>, GitError>)
    ensures
        match parse_records(commit_records(output@)) {
            Ok(cs) => r matches Ok(v) && commits_view(v@) == cs,
            Err(rec) => r matches Err(GitError::InvalidOutput(m)) && m@ == rec,
        },
{
    let c = to_chars(output);
    let parts = split_chars(c.as_slice(), '\u{1e}', None);
    let records = keep_nonempty(&parts, true);
    let ghost recs = strings_text(records@);
    proof {
        assert(Seq::new(parts@.len(), |i: int| trim(parts@[i]@)) =~= Seq::new(
            split_char(c@, record_sep()).len(),
            |i: int| trim(split_char(c@, record_sep())[i]),
        ));
        assert(recs == commit_records(output@));
    }
    let mut commits: Vec<GitCommit> = Vec::new();
    let n = records.len();
    assert(recs.take(0) =~= Seq::<Seq<char>>::empty());
    assert(commits_view(commits@) =~= Seq::<CommitView>::empty());
    for i in 0..n
        invariant
            n == records@.len(),
            recs == strings_text(records@),
            recs == commit_records(output@),
            parse_records(recs.take(i as int)) == Ok::<Seq<CommitView>, Seq<char>>(commits_view(commits@)),
    {
        let rc = to_chars(records[i].as_str());
        let fields = split_chars(rc.as_slice(), '\u{1f}', Some(6));
        proof {
            assert(recs.take(i + 1).drop_last() =~= recs.take(i as int));
            assert(recs.take(i + 1).last() == recs[i as int]);
            assert(rc@ == recs[i as int]);
        }
        let ghost fv = Seq::new(fields@.len(), |j: int| fields@[j]@);
        assert(fv == splitn_char(recs[i as int], field_sep(), 6));
        if fields.len() != 6 {
            proof {
                assert(parse_record(recs[i as int]) is None);
                assert(parse_records(recs.take(i + 1)) == Err::<Seq<CommitView>, Seq<char>>(recs[i as int]));
                lemma_parse_error_stays(recs, i + 1, recs[i as int]);
            }
            return Err(GitError::InvalidOutput(from_chars(rc.as_slice())));
        }
        let body = trim_end_chars(fields[5].as_slice());
        let commit = GitCommit {
            hash: from_chars(fields[0].as_slice()),
            author_name: from_chars(fields[1].as_slice()),
            author_email: from_chars(fields[2].as_slice()),
            authored_at: from_chars(fields[3].as_slice()),
            subject: from_chars(fields[4].as_slice()),
            body: from_chars(body.as_slice()),
        };
        let ghost before = commits_view(commits@);
        proof {
            assert(fv[0] == fields@[0]@);
            assert(fv[5] == fields@[5]@);
            assert(parse_record(recs[i as int]) == Some(commit@));
        }
        commits.push(commit);
        assert(commits_view(commits@) =~= before.push(commit@));
    }
    assert(recs.take(n as int) =~= recs);
    Ok(commits)
}

/// A field of the log format: neither separator occurs in it.
pub open spec fn plain_field(f: Seq<char>) -> bool {
    !f.contains('\u{1f}') && !f.contains('\u{1e}')
}

/// The commit with the fields as `git log` prints them in the order of the
/// log format: hash, author name, author e-mail, author date, subject and
/// body, each followed by the field separator but the body, which is
/// followed by the record separator.
pub open spec fn log_entry(h: Seq<char>, n: Seq<char>, e: Seq<char>, d: Seq<char>, s: Seq<char>, b: Seq<char>) -> Seq<char> {
    h + seq!['\u{1f}'] + n + seq!['\u{1f}'] + e + seq!['\u{1f}'] + d + seq!['\u{1f}'] + s + seq!['\u{1f}'] + b
        + seq!['\u{1e}']
}

/// The commit with the given fields.
pub open spec fn commit_of(h: Seq<char>, n: Seq<char>, e: Seq<char>, d: Seq<char>, s: Seq<char>, b: Seq<char>) -> CommitView {
    CommitView { hash: h, author_name: n, author_email: e, authored_at: d, subject: s, body: b }
}

/// The fields a log entry can hold and read back: no separator in any, a
/// hash that does not start with white space, a body that does not end
/// with it.
pub open spec fn entry_fields(h: Seq<char>, n: Seq<char>, e: Seq<char>, d: Seq<char>, s: Seq<char>, b: Seq<char>) -> bool {
    &&& plain_field(h)
    &&& plain_field(n)
    &&& plain_field(e)
    &&& plain_field(d)
    &&& plain_field(s)
    &&& plain_field(b)
    &&& h.len() > 0 && !is_white(h[0])
    &&& b.len() == 0 || !is_white(b.last())
}

/// The record of an entry: what stands before its record separator is kept
/// whole by trimming and reads as the commit.
#[verifier::spinoff_prover]
#[verifier::rlimit(50)]
proof fn lemma_entry_record(h: Seq<char>, n: Seq<char>, e: Seq<char>, d: Seq<char>, s: Seq<char>, b: Seq<char>)
    requires
        entry_fields(h, n, e, d, s, b),
    ensures
        ({
            let rec = log_entry(h, n, e, d, s, b).drop_last();
            &&& log_entry(h, n, e, d, s, b) == rec + seq!['\u{1e}']
            &&& rec.len() > 0
            &&& !rec.contains('\u{1e}')
            &&& trim(rec) == rec
            &&& parse_record(rec) == Some(commit_of(h, n, e, d, s, b))
        }),
{
    broadcast use vstd::seq_lib::lemma_seq_concat_contains_all_elements;
    let fs = '\u{1f}';
    let rs = '\u{1e}';
    let x1 = h + seq![fs] + n;
    let x2 = x1 + seq![fs] + e;
    let x3 = x2 + seq![fs] + d;
    let x4 = x3 + seq![fs] + s;
    let rec = x4 + seq![fs] + b;
    assert(log_entry(h, n, e, d, s, b) =~= rec + seq![rs]);
    assert((rec + seq![rs]).drop_last() =~= rec);
    assert(!seq![fs].contains(rs));
    assert(!rec.contains(rs));
    assert(rec[0] == h[0]);
    assert(lead_ws(rec) == 0);
    assert(rec.skip(0) =~= rec);
    if b.len() == 0 {
        assert(rec.last() == fs);
    } else {
        assert(rec.last() == b.last());
    }
    assert(trail_ws(rec) == 0);
    assert(trim(rec) =~= rec);
    lemma_split_free(h, fs);
    lemma_split_free(n, fs);
    lemma_split_free(e, fs);
    lemma_split_free(d, fs);
    lemma_split_free(s, fs);
    lemma_split_free(b, fs);
    lemma_split_concat(h, n, fs);
    lemma_split_concat(x1, e, fs);
    lemma_split_concat(x2, d, fs);
    lemma_split_concat(x3, s, fs);
    lemma_split_concat(x4, b, fs);
    assert(split_char(rec, fs) =~= seq![h, n, e, d, s, b]);
    lemma_splitn_is_split(rec, fs, 6);
    assert(trim_end(b) =~= b) by {
        assert(trail_ws(b) == 0);
    }
}

/// Trimming an empty piece leaves it empty.
proof fn lemma_trim_empty()
    ensures
        trim(Seq::<char>::empty()) == Seq::<char>::empty(),
{
    assert(lead_ws(Seq::<char>::empty()) == 0);
    assert(trail_ws(Seq::<char>::empty()) == 0);
    assert(trim(Seq::<char>::empty()) =~= Seq::<char>::empty());
}

/// Reading the log back gives the commit that was written: the entry of one
/// commit in the log format (see `entry_fields` for what its fields may
/// hold) reads as exactly that commit, each field in its place.
#[verifier::spinoff_prover]
#[verifier::rlimit(50)]
pub proof fn law_log_entry_round_trip(
    h: Seq<char>,
    n: Seq<char>,
    e: Seq<char>,
    d: Seq<char>,
    s: Seq<char>,
    b: Seq<char>,
)
    requires
        entry_fields(h, n, e, d, s, b),
    ensures
        parse_records(commit_records(log_entry(h, n, e, d, s, b))) == Ok::<Seq<CommitView>, Seq<char>>(
            seq![CommitView { hash: h, author_name: n, author_email: e, authored_at: d, subject: s, body: b }],
        ),
{
    lemma_entry_record(h, n, e, d, s, b);
    lemma_trim_empty();
    let rs = '\u{1e}';
    let rec = log_entry(h, n, e, d, s, b).drop_last();
    assert(log_entry(h, n, e, d, s, b) =~= rec + seq![rs] + Seq::<char>::empty());
    lemma_split_concat(rec, Seq::<char>::empty(), rs);
    lemma_split_free(rec, rs);
    assert(split_char(Seq::<char>::empty(), rs) =~= seq![Seq::<char>::empty()]);
    let parts = split_char(log_entry(h, n, e, d, s, b), rs);
    assert(parts =~= seq![rec, Seq::<char>::empty()]);
    let trimmed = Seq::new(parts.len(), |i: int| trim(parts[i]));
    assert(trimmed =~= seq![rec, Seq::<char>::empty()]);
    let keep = |r: Seq<char>| r.len() > 0;
    reveal_with_fuel(Seq::filter, 3);
    assert(seq![rec, Seq::<char>::empty()].drop_last() =~= seq![rec]);
    assert(seq![rec].drop_last() =~= Seq::<Seq<char>>::empty());
    assert(seq![rec, Seq::<char>::empty()].filter(keep) =~= seq![rec]);
    assert(commit_records(log_entry(h, n, e, d, s, b)) =~= seq![rec]);
    assert(seq![rec].last() == rec);
    assert(parse_records(Seq::<Seq<char>>::empty()) == Ok::<Seq<CommitView>, Seq<char>>(Seq::empty()));
    assert(Seq::<CommitView>::empty().push(commit_of(h, n, e, d, s, b)) =~= seq![commit_of(h, n, e, d, s, b)]);
}

/// Two entries, one after the other, read as the two commits in the same
/// order, each with its own fields.
#[verifier::spinoff_prover]
#[verifier::rlimit(50)]
pub proof fn law_log_two_entries(
    h1: Seq<char>,
    n1: Seq<char>,
    e1: Seq<char>,
    d1: Seq<char>,
    s1: Seq<char>,
    b1: Seq<char>,
    h2: Seq<char>,
    n2: Seq<char>,
    e2: Seq<char>,
    d2: Seq<char>,
    s2: Seq<char>,
    b2: Seq<char>,
)
    requires
        entry_fields(h1, n1, e1, d1, s1, b1),
        entry_fields(h2, n2, e2, d2, s2, b2),
    ensures
        parse_records(commit_records(log_entry(h1, n1, e1, d1, s1, b1) + log_entry(h2, n2, e2, d2, s2, b2)))
            == Ok::<Seq<CommitView>, Seq<char>>(
            seq![
                CommitView { hash: h1, author_name: n1, author_email: e1, authored_at: d1, subject: s1, body: b1 },
                CommitView { hash: h2, author_name: n2, author_email: e2, authored_at: d2, subject: s2, body: b2 },
            ],
        ),
{
    lemma_entry_record(h1, n1, e1, d1, s1, b1);
    lemma_entry_record(h2, n2, e2, d2, s2, b2);
    lemma_trim_empty();
    let rs = '\u{1e}';
    let r1 = log_entry(h1, n1, e1, d1, s1, b1).drop_last();
    let r2 = log_entry(h2, n2, e2, d2, s2, b2).drop_last();
    let log = log_entry(h1, n1, e1, d1, s1, b1) + log_entry(h2, n2, e2, d2, s2, b2);
    assert(log =~= r1 + seq![rs] + (r2 + seq![rs] + Seq::<char>::empty()));
    lemma_split_concat(r1, r2 + seq![rs] + Seq::<char>::empty(), rs);
    lemma_split_concat(r2, Seq::<char>::empty(), rs);
    lemma_split_free(r1, rs);
    lemma_split_free(r2, rs);
    assert(split_char(Seq::<char>::empty(), rs) =~= seq![Seq::<char>::empty()]);
    let parts = split_char(log, rs);
    assert(parts =~= seq![r1, r2, Seq::<char>::empty()]);
    let trimmed = Seq::new(parts.len(), |i: int| trim(parts[i]));
    assert(trimmed =~= seq![r1, r2, Seq::<char>::empty()]);
    let keep = |r: Seq<char>| r.len() > 0;
    reveal_with_fuel(Seq::filter, 4);
    assert(seq![r1, r2, Seq::<char>::empty()].drop_last() =~= seq![r1, r2]);
    assert(seq![r1, r2].drop_last() =~= seq![r1]);
    assert(seq![r1].drop_last() =~= Seq::<Seq<char>>::empty());
    assert(seq![r1, r2, Seq::<char>::empty()].filter(keep) =~= seq![r1, r2]);
    assert(commit_records(log) =~= seq![r1, r2]);
    reveal_with_fuel(parse_records, 3);
    assert(parse_records(Seq::<Seq<char>>::empty()) == Ok::<Seq<CommitView>, Seq<char>>(Seq::empty()));
    assert(seq![r1, r2].last() == r2);
    assert(seq![r1].last() == r1);
    let c1 = commit_of(h1, n1, e1, d1, s1, b1);
    let c2 = commit_of(h2, n2, e2, d2, s2, b2);
    assert(parse_records(seq![r1]) == Ok::<Seq<CommitView>, Seq<char>>(seq![c1])) by {
        assert(Seq::<CommitView>::empty().push(c1) =~= seq![c1]);
    }
    assert(seq![c1].push(c2) =~= seq![c1, c2]);
}

impl Git {
    /// The commits of a range (see `log_range`), newest first, read from
    /// `git log`.
    pub fn commits<R: Fn(&Vec<String>, &str) -> Result<GitOutput, String>>(
        &self,
        run: &R,
        from: Option<&str>,
        to: Option<&str>,
    ) -> (r: Result<Vec<GitCommit>, GitError>)
        requires
            forall|a: &Vec<String>, d: &str| call_requires(*run, (a, d)),
        ensures
            commits_answer(*run, self.dir@, opt_str(from), opt_str(to), r),
    {
        let range: Option<String> = match (from, to) {
            (Some(f), Some(t)) => {
                let mut v = to_chars(f);
                append_str(&mut v, "..");
                append_str(&mut v, t);
                Some(from_chars(v.as_slice()))
            },
            (Some(f), None) => {
                let mut v = to_chars(f);
                append_str(&mut v, "..HEAD");
                Some(from_chars(v.as_slice()))
            },
            (None, Some(t)) => Some(t.to_string()),
            (None, None) => None,
        };
        let mut fmt = to_chars("--format=%H");
        fmt.push('\u{1f}');
        append_str(&mut fmt, "%an");
        fmt.push('\u{1f}');
        append_str(&mut fmt, "%ae");
        fmt.push('\u{1f}');
        append_str(&mut fmt, "%aI");
        fmt.push('\u{1f}');
        append_str(&mut fmt, "%s");
        fmt.push('\u{1f}');
        append_str(&mut fmt, "%b");
        fmt.push('\u{1e}');
        assert(fmt@ =~= log_format());
        let mut args: Vec<String> = Vec::new();
        args.push("log".to_string());
        args.push("--no-decorate".to_string());
        args.push(from_chars(fmt.as_slice()));
        let ghost fv = opt_str(from);
        let ghost tv = opt_str(to);
        match range {
            Some(rg) => {
                args.push(rg);
            },
            None => {},
        }
        proof {
            match log_range(fv, tv) {
                Some(x) => {
                    assert(strings_text(args@) =~= seq!["log"@, "--no-decorate"@, log_format()].push(x));
                },
                None => {
                    assert(strings_text(args@) =~= seq!["log"@, "--no-decorate"@, log_format()]);
                },
            }
            assert(strings_text(args@) == log_args(fv, tv));
        }
        let ghost la = log_args(fv, tv);
        let res = self.run(run, args);
        let ghost out = choose|out: Result<GitOutput, String>|
            {
                &&& git_ran(*run, la, self.dir@, out)
                &&& match run_text(out) {
                    Some(t) => res matches Ok(s) && s@ == t,
                    None => res matches Err(e) && failed_as(e, out, la),
                }
            };
        let r = match res {
            Err(e) => Err(e),
            Ok(output) => parse_commits(output.as_str()),
        };
        assert(git_ran(*run, la, self.dir@, out));
        r
    }

    /// The difference between two revisions: the output of `git diff
    /// --no-ext-diff --binary from to`.
    pub fn diff<R: Fn(&Vec<String>, &str) -> Result<GitOutput, String>>(&self, run: &R, from: &str, to: &str) -> (r: Result<String, GitError>)
        requires
            forall|a: &Vec<String>, d: &str| call_requires(*run, (a, d)),
        ensures
            diff_answer(*run, self.dir@, from@, to@, r),
    {
        let args = args_of(&["diff", "--no-ext-diff", "--binary", from, to]);
        assert(strings_text(args@) =~= diff_args(from@, to@));
        let res = self.run(run, args);
        let ghost out = choose|out: Result<GitOutput, String>|
            git_ran(*run, diff_args(from@, to@), self.dir@, out) && match run_text(out) {
                Some(t) => res matches Ok(s) && s@ == t,
                None => res matches Err(e) && failed_as(e, out, diff_args(from@, to@)),
            };
        assert(git_ran(*run, diff_args(from@, to@), self.dir@, out));
        res
    }

    /// The files of a revision: the non-empty lines of `git ls-tree -r
    /// --name-only reference`.
    pub fn files<R: Fn(&Vec<String>, &str) -> Result<GitOutput, String>>(&self, run: &R, reference: &str) -> (r: Result<Vec<String>, GitError>)
        requires
            forall|a: &Vec<String>, d: &str| call_requires(*run, (a, d)),
        ensures
            files_answer(*run, self.dir@, reference@, r),
    {
        let args = args_of(&["ls-tree", "-r", "--name-only", reference]);
        assert(strings_text(args@) =~= files_args(reference@));
        let res = self.run(run, args);
        let ghost out = choose|out: Result<GitOutput, String>|
            git_ran(*run, files_args(reference@), self.dir@, out) && match run_text(out) {
                Some(t) => res matches Ok(s) && s@ == t,
                None => res matches Err(e) && failed_as(e, out, files_args(reference@)),
            };
        let r = match res {
            Err(e) => Err(e),
            Ok(value) => {
                let c = to_chars(value.as_str());
                let ls = lines_chars(c.as_slice());
                let r = keep_nonempty(&ls, false);
                assert(Seq::new(ls@.len(), |i: int| ls@[i]@) =~= lines(c@));
                Ok(r)
            },
        };
        assert(git_ran(*run, files_args(reference@), self.dir@, out));
        r
    }

    /// The content of `path` at a revision: the bytes printed by `git show
    /// --no-ext-diff reference:path`; an error when the command fails.
    pub fn file_at<R: Fn(&Vec<String>, &str) -> Result<GitOutput, String>>(
        &self,
        run: &R,
        reference: &str,
        path: &str,
    ) -> (r: Result<Vec<u8>, GitError>)
        requires
            forall|a: &Vec<String>, d: &str| call_requires(*run, (a, d)),
        ensures
            file_at_answer(*run, self.dir@, reference@, path@, r),
    {
        let mut obj = to_chars(reference);
        append_str(&mut obj, ":");
        append_str(&mut obj, path);
        let object = from_chars(obj.as_slice());
        let mut args: Vec<String> = Vec::new();
        args.push("show".to_string());
        args.push("--no-ext-diff".to_string());
        args.push(object);
        let ghost a = show_args(reference@, path@);
        assert(strings_text(args@) =~= a);
        let res = self.run_raw(run, args);
        let ghost out = choose|out: Result<GitOutput, String>|
            git_ran(*run, a, self.dir@, out) && match out {
                Ok(o) => res == Ok::<GitOutput, GitError>(o),
                Err(_) => res matches Err(e) && io_failed_as(e, out),
            };
        let r = match res {
            Err(e) => Err(e),
            Ok(o) => {
                if !o.success {
                    let mut failed_args: Vec<String> = Vec::new();
                    failed_args.push("show".to_string());
                    failed_args.push("--no-ext-diff".to_string());
                    failed_args.push(from_chars(obj.as_slice()));
                    assert(strings_text(failed_args@) =~= a);
                    let stderr = lossy_text(o.stderr.as_slice());
                    Err(GitError::CommandFailed { args: failed_args, status: o.code, stderr })
                } else {
                    Ok(o.stdout)
                }
            },
        };
        assert(git_ran(*run, a, self.dir@, out));
        r
    }
}

} // verus!

verus! {

/// The arguments of `git describe` for the latest tag.
pub open spec fn describe_args() -> Seq<Seq<char>> {
    seq!["describe"@, "--tags"@, "--abbrev=0"@]
}

/// What `latest_tag` may answer when `run` reports for the repository in `dir`.
pub open spec fn latest_tag_answer<R: Fn(&Vec<String>, &str) -> Result<GitOutput, String>>(run: R, dir: Seq<char>, r: Result<Option<String>, GitError>) -> bool {
    exists|out: Result<GitOutput, String>|
        #![trigger git_ran(run, describe_args(), dir, out)]
        {
            &&& git_ran(run, describe_args(), dir, out)
            &&& match out {
                Ok(o) => r matches Ok(tag) && if o.success && trim(lossy_utf8(o.stdout@)).len() > 0 {
                    tag matches Some(s) && s@ == trim(lossy_utf8(o.stdout@))
                } else {
                    tag is None
                },
                Err(_) => r matches Err(e) && io_failed_as(e, out),
            }
        }
}

/// What `commits` may answer for the range from `from` to `to`.
pub open spec fn commits_answer<R: Fn(&Vec<String>, &str) -> Result<GitOutput, String>>(
    run: R,
    dir: Seq<char>,
    from: Option<Seq<char>>,
    to: Option<Seq<char>>,
    r: Result<Vec<GitCommit>, GitError>,
) -> bool {
    exists|out: Result<GitOutput, String>|
        #![trigger git_ran(run, log_args(from, to), dir, out)]
        {
            &&& git_ran(run, log_args(from, to), dir, out)
            &&& match run_text(out) {
                Some(t) => match parse_records(commit_records(t)) {
                    Ok(cs) => r matches Ok(v) && commits_view(v@) == cs,
                    Err(rec) => r matches Err(GitError::InvalidOutput(m)) && m@ == rec,
                },
                None => r matches Err(e) && failed_as(e, out, log_args(from, to)),
            }
        }
}

/// The arguments of `git diff` between two revisions.
pub open spec fn diff_args(from: Seq<char>, to: Seq<char>) -> Seq<Seq<char>> {
    seq!["diff"@, "--no-ext-diff"@, "--binary"@, from, to]
}

/// What `diff` may answer.
pub open spec fn diff_answer<R: Fn(&Vec<String>, &str) -> Result<GitOutput, String>>(run: R, dir: Seq<char>, from: Seq<char>, to: Seq<char>, r: Result<String, GitError>) -> bool {
    exists|out: Result<GitOutput, String>|
        #![trigger git_ran(run, diff_args(from, to), dir, out)]
        {
            &&& git_ran(run, diff_args(from, to), dir, out)
            &&& match run_text(out) {
                Some(t) => r matches Ok(s) && s@ == t,
                None => r matches Err(e) && failed_as(e, out, diff_args(from, to)),
            }
        }
}

/// The arguments of `git ls-tree` for a revision.
pub open spec fn files_args(reference: Seq<char>) -> Seq<Seq<char>> {
    seq!["ls-tree"@, "-r"@, "--name-only"@, reference]
}

/// What `files` may answer.
pub open spec fn files_answer<R: Fn(&Vec<String>, &str) -> Result<GitOutput, String>>(run: R, dir: Seq<char>, reference: Seq<char>, r: Result<Vec<String>, GitError>) -> bool {
    exists|out: Result<GitOutput, String>|
        #![trigger git_ran(run, files_args(reference), dir, out)]
        {
            &&& git_ran(run, files_args(reference), dir, out)
            &&& match run_text(out) {
                Some(t) => r matches Ok(v) && strings_text(v@) == nonempty_lines(t),
                None => r matches Err(e) && failed_as(e, out, files_args(reference)),
            }
        }
}

/// The arguments of `git show` for a file at a revision.
pub open spec fn show_args(reference: Seq<char>, path: Seq<char>) -> Seq<Seq<char>> {
    seq!["show"@, "--no-ext-diff"@, reference + ":"@ + path]
}

/// What `file_at` may answer.
pub open spec fn file_at_answer<R: Fn(&Vec<String>, &str) -> Result<GitOutput, String>>(
    run: R,
    dir: Seq<char>,
    reference: Seq<char>,
    path: Seq<char>,
    r: Result<Vec<u8>, GitError>,
) -> bool {
    exists|out: Result<GitOutput, String>|
        #![trigger git_ran(run, show_args(reference, path), dir, out)]
        {
            &&& git_ran(run, show_args(reference, path), dir, out)
            &&& match out {
                Ok(o) => if o.success {
                    r matches Ok(b) && b@ == o.stdout@
                } else {
                    r matches Err(e) && failed_as(e, out, show_args(reference, path))
                },
                Err(_) => r matches Err(e) && io_failed_as(e, out),
            }
        }
}

} // verus!
