//! Reading the command line. Paths are made canonical, and task files read,
//! by the caller's functions; everything else is decided here.

use vstd::prelude::*;
use crate::aimessage::FileEntry;
use crate::tasks::{all_tasks, task_name, Tasks};
use crate::text::{append_chars, append_str, chars_eq, from_chars, join, join_chars, strings_text, to_chars};

verus! {

/// The arguments of a run.
#[derive(Debug)]
pub struct Args {
    pub language: String,
    pub task: String,
    pub taskdata: Option<FileEntry>,
    pub subtask: Vec<String>,
    pub config: Option<String>,
    pub select: Vec<String>,
    pub pathfilter: Vec<String>,
    pub builddir: Option<String>,
    pub workspace: Option<String>,
    pub start_service: Option<String>,
    pub debug: bool,
    pub help: bool,
}

impl Args {
    /// Whether the agent runs in a workspace.
    pub fn is_workspace(&self) -> (b: bool)
        ensures
            b == self.workspace is Some,
    {
        self.workspace.is_some()
    }
}

/// The options as given, before any path is looked at.
pub struct RawArgs {
    pub language: Option<Seq<char>>,
    pub task: Option<Seq<char>>,
    pub taskdata: Option<Seq<char>>,
    pub subtask: Seq<Seq<char>>,
    pub select: Seq<Seq<char>>,
    pub config: Option<Seq<char>>,
    pub pathfilter: Seq<Seq<char>>,
    pub builddir: Option<Seq<char>>,
    pub workspace: Option<Seq<char>>,
    pub start_service: Option<Seq<char>>,
    pub debug: bool,
    pub help: bool,
}

/// No option given yet.
pub open spec fn no_args() -> RawArgs {
    RawArgs {
        language: None,
        task: None,
        taskdata: None,
        subtask: Seq::empty(),
        select: Seq::empty(),
        config: None,
        pathfilter: Seq::empty(),
        builddir: None,
        workspace: None,
        start_service: None,
        debug: false,
        help: false,
    }
}

/// The position of the first `:` in `s`.
pub open spec fn colon_at(s: Seq<char>) -> Option<int> {
    if exists|i: int| 0 <= i < s.len() && s[i] == ':' {
        Some(choose|i: int| 0 <= i < s.len() && s[i] == ':' && forall|j: int| 0 <= j < i ==> s[j] != ':')
    } else {
        None
    }
}

/// Whether `a` is the short or the long form of an option.
pub open spec fn is_opt(a: Seq<char>, short: Seq<char>, long: Seq<char>) -> bool {
    a == short || a == long
}

/// The options that take a value.
#[derive(Clone, Copy, Debug, PartialEq, Eq, Structural)]
pub enum ValueOption {
    Lang,
    Task,
    Select,
    Config,
    PathFilter,
    BuildDir,
    Workspace,
    Run,
}

/// The long name of an option that takes a value.
pub open spec fn option_name(o: ValueOption) -> Seq<char> {
    match o {
        ValueOption::Lang => "--lang"@,
        ValueOption::Task => "--task"@,
        ValueOption::Select => "--select"@,
        ValueOption::Config => "--config"@,
        ValueOption::PathFilter => "--pathfilter"@,
        ValueOption::BuildDir => "--builddir"@,
        ValueOption::Workspace => "--workspace"@,
        ValueOption::Run => "--run"@,
    }
}

/// The option that `a` names, if it takes a value.
pub open spec fn value_option(a: Seq<char>) -> Option<ValueOption> {
    if is_opt(a, "-l"@, "--lang"@) {
        Some(ValueOption::Lang)
    } else if is_opt(a, "-t"@, "--task"@) {
        Some(ValueOption::Task)
    } else if is_opt(a, "-s"@, "--select"@) {
        Some(ValueOption::Select)
    } else if is_opt(a, "-c"@, "--config"@) {
        Some(ValueOption::Config)
    } else if is_opt(a, "-f"@, "--pathfilter"@) {
        Some(ValueOption::PathFilter)
    } else if is_opt(a, "-b"@, "--builddir"@) {
        Some(ValueOption::BuildDir)
    } else if is_opt(a, "-w"@, "--workspace"@) {
        Some(ValueOption::Workspace)
    } else if is_opt(a, "-r"@, "--run"@) {
        Some(ValueOption::Run)
    } else {
        None
    }
}

/// The options after the option `name` with the value `v`.
pub open spec fn with_value(st: RawArgs, o: ValueOption, v: Seq<char>) -> RawArgs {
    match o {
        ValueOption::Lang => RawArgs { language: Some(v), ..st },
        ValueOption::Task => if st.task is None {
            match colon_at(v) {
                Some(c) => RawArgs { task: Some(v.take(c)), taskdata: Some(v.skip(c + 1)), ..st },
                None => RawArgs { task: Some(v), ..st },
            }
        } else {
            RawArgs { subtask: st.subtask.push(v), ..st }
        },
        ValueOption::Select => RawArgs { select: st.select.push(v), ..st },
        ValueOption::Config => RawArgs { config: Some(v), ..st },
        ValueOption::PathFilter => RawArgs { pathfilter: st.pathfilter.push(v), ..st },
        ValueOption::BuildDir => RawArgs { builddir: Some(v), ..st },
        ValueOption::Workspace => RawArgs { workspace: Some(v), ..st },
        ValueOption::Run => RawArgs { start_service: Some(v), ..st },
    }
}

/// The options read from position `i` on, starting from `st`: each option
/// with a value needs one; the first `-t` names the task (with the data of
/// the task after a `:`), later ones add subtasks; unknown options are
/// refused.
pub open spec fn scan_args(args: Seq<Seq<char>>, i: int, st: RawArgs) -> Result<RawArgs, Seq<char>>
    decreases args.len() - i,
{
    if i < 0 || i >= args.len() {
        Ok(st)
    } else {
        let a = args[i];
        match value_option(a) {
            Some(o) => if i + 1 >= args.len() {
                Err("Missing value for "@ + option_name(o))
            } else {
                scan_args(args, i + 2, with_value(st, o, args[i + 1]))
            },
            None => if is_opt(a, "-d"@, "--debug"@) {
                scan_args(args, i + 1, RawArgs { debug: true, ..st })
            } else if is_opt(a, "-h"@, "--help"@) {
                scan_args(args, i + 1, RawArgs { help: true, ..st })
            } else {
                Err("Unknown argument: "@ + a)
            },
        }
    }
}

/// The message for a path of the option `o` that cannot be made canonical,
/// for the options whose values are such paths.
pub open spec fn path_message(o: ValueOption) -> Option<Seq<char>> {
    match o {
        ValueOption::Task => Some("Invalid path for --task"@),
        ValueOption::Select => Some("Invalid path for --subtask"@),
        ValueOption::PathFilter => Some("Invalid path for --pathfilter"@),
        _ => None,
    }
}

/// Whether the value of the option `o`, read with the options `st` so far,
/// is a path: that of `--select`, of `--pathfilter`, and of every `--task`
/// after the first.
pub open spec fn is_path_value(st: RawArgs, o: ValueOption) -> bool {
    match o {
        ValueOption::Select => true,
        ValueOption::PathFilter => true,
        ValueOption::Task => st.task is Some,
        _ => false,
    }
}

/// `canon`, called on `v`, gave no path.
pub open spec fn refused_at<C: Fn(&str) -> Option<String>>(canon: C, v: Seq<char>) -> bool {
    exists|s: &str| s@ == v && call_ensures(canon, (s,), None::<String>)
}

/// `canon`, called on `v`, gave a path.
pub open spec fn accepted_at<C: Fn(&str) -> Option<String>>(canon: C, v: Seq<char>) -> bool {
    exists|s: &str, p: String| s@ == v && call_ensures(canon, (s,), Some(p))
}

/// Reading `args` from position `i` on with the options `st`, the paths
/// before some path value were accepted by `canon`, that value was refused,
/// and `x` is the message for its option.
pub open spec fn scan_refused<C: Fn(&str) -> Option<String>>(
    canon: C,
    args: Seq<Seq<char>>,
    i: int,
    st: RawArgs,
    x: Seq<char>,
) -> bool
    decreases args.len() - i,
{
    if i < 0 || i >= args.len() {
        false
    } else {
        let a = args[i];
        match value_option(a) {
            Some(o) => if i + 1 >= args.len() {
                false
            } else if is_path_value(st, o) {
                (path_message(o) == Some(x) && refused_at(canon, args[i + 1])) || (accepted_at(canon, args[i + 1])
                    && scan_refused(canon, args, i + 2, with_value(st, o, args[i + 1]), x))
            } else {
                scan_refused(canon, args, i + 2, with_value(st, o, args[i + 1]), x)
            },
            None => if is_opt(a, "-d"@, "--debug"@) {
                scan_refused(canon, args, i + 1, RawArgs { debug: true, ..st }, x)
            } else if is_opt(a, "-h"@, "--help"@) {
                scan_refused(canon, args, i + 1, RawArgs { help: true, ..st }, x)
            } else {
                false
            },
        }
    }
}

/// Reading `args` from position `i` on with the options `st`, `canon`
/// accepted every path value up to where the reading stops.
pub open spec fn scan_accepted<C: Fn(&str) -> Option<String>>(
    canon: C,
    args: Seq<Seq<char>>,
    i: int,
    st: RawArgs,
) -> bool
    decreases args.len() - i,
{
    if i < 0 || i >= args.len() {
        true
    } else {
        let a = args[i];
        match value_option(a) {
            Some(o) => if i + 1 >= args.len() {
                true
            } else if is_path_value(st, o) {
                accepted_at(canon, args[i + 1]) && scan_accepted(canon, args, i + 2, with_value(st, o, args[i + 1]))
            } else {
                scan_accepted(canon, args, i + 2, with_value(st, o, args[i + 1]))
            },
            None => if is_opt(a, "-d"@, "--debug"@) {
                scan_accepted(canon, args, i + 1, RawArgs { debug: true, ..st })
            } else if is_opt(a, "-h"@, "--help"@) {
                scan_accepted(canon, args, i + 1, RawArgs { help: true, ..st })
            } else {
                true
            },
        }
    }
}

/// `x` reports that `canon` could not make canonical a value that the
/// command line `args` gives as a path (see `scan_refused`).
pub open spec fn path_refused<C: Fn(&str) -> Option<String>>(canon: C, args: Seq<Seq<char>>, x: Seq<char>) -> bool {
    scan_refused(canon, args, 0, no_args(), x)
}

/// The message for a task that is neither known nor a file.
pub open spec fn invalid_task_message(task: Seq<char>) -> Seq<char> {
    "Invalid task '"@ + task + "'. Must be one of ["@ + join(
        Seq::new(all_tasks().len(), |i: int| task_name(all_tasks()[i])),
        ", "@,
    ) + "] or a valid file path."@
}

/// Whether a task is one of the known ones.
pub open spec fn known_task(task: Seq<char>) -> bool {
    exists|t: Tasks| task_name(t) == task
}

/// `canon` made `raw` the canonical path `p`.
pub open spec fn canonical<C: Fn(&str) -> Option<String>>(canon: C, raw: Seq<char>, p: String) -> bool {
    exists|s: &str| s@ == raw && call_ensures(canon, (s,), Some(p))
}

/// `strict` made `raw` the canonical path `p`.
pub open spec fn strictly_canonical<K: Fn(&str) -> String>(strict: K, raw: Seq<char>, p: String) -> bool {
    exists|s: &str| s@ == raw && call_ensures(strict, (s,), p)
}

/// The arguments `a` are the options `raw` with their paths made canonical
/// (by `canon`, or by `strict` for the build directory and the workspace)
/// and the data of the task read by `entry`.
pub open spec fn args_from<C: Fn(&str) -> Option<String>, K: Fn(&str) -> String, T: Fn(&str) -> FileEntry>(
    raw: RawArgs,
    a: Args,
    canon: C,
    strict: K,
    entry: T,
) -> bool {
    &&& a.subtask@.len() == raw.subtask.len()
    &&& forall|i: int| 0 <= i < raw.subtask.len() ==> canonical(canon, raw.subtask[i], #[trigger] a.subtask@[i])
    &&& a.select@.len() == raw.select.len()
    &&& forall|i: int| 0 <= i < raw.select.len() ==> canonical(canon, raw.select[i], #[trigger] a.select@[i])
    &&& a.pathfilter@.len() == raw.pathfilter.len()
    &&& forall|i: int|
        0 <= i < raw.pathfilter.len() ==> canonical(canon, raw.pathfilter[i], #[trigger] a.pathfilter@[i])
    &&& crate::text::opt_text(a.config) == raw.config
    &&& crate::text::opt_text(a.start_service) == raw.start_service
    &&& a.debug == raw.debug
    &&& a.help == raw.help
    &&& (a.builddir is Some <==> raw.builddir is Some)
    &&& (raw.builddir matches Some(b) ==> strictly_canonical(strict, b, a.builddir->0))
    &&& (a.workspace is Some <==> raw.workspace is Some)
    &&& (raw.workspace matches Some(w) ==> strictly_canonical(strict, w, a.workspace->0))
    &&& (a.taskdata is Some <==> raw.taskdata is Some)
    &&& (raw.taskdata matches Some(d) ==> exists|s: &str|
        s@ == d && call_ensures(entry, (s,), a.taskdata->0))
}

} // verus!

verus! {

/// The options of the command line `args` (without the program name).
pub open spec fn scanned_args(args: Seq<String>) -> Result<RawArgs, Seq<char>> {
    scan_args(strings_text(args), 0, no_args())
}

/// What a check of the required options finds missing, if anything: the
/// language, the task, or a path filter.
pub open spec fn missing_required(raw: RawArgs) -> Option<Seq<char>> {
    if raw.language is None || raw.task is None {
        Some("Missing required argument --task"@)
    } else if raw.pathfilter.len() == 0 {
        Some("Missing required argument --pathfilter (must be provided at least once)"@)
    } else {
        None
    }
}

/// The task of `raw` is neither known nor a file (as `is_file` answered),
/// and `x` says so.
pub open spec fn task_rejected<E: Fn(&str) -> bool>(raw: RawArgs, x: Seq<char>, is_file: E) -> bool {
    &&& missing_required(raw) is None
    &&& match raw.task {
        Some(t) => !known_task(t) && x == invalid_task_message(t) && exists|s: &str|
            s@ == t && call_ensures(is_file, (s,), false),
        None => false,
    }
}

/// The first `:` of `v`, if there is one.
fn find_colon(v: &[char]) -> (r: Option<usize>)
    ensures
        r matches Some(c) ==> c < v@.len() && v@[c as int] == ':' && colon_at(v@) == Some(c as int),
        match colon_at(v@) {
            Some(c) => r == Some(c as usize),
            None => r is None,
        },
{
    let mut i: usize = 0;
    while i < v.len()
        invariant
            i <= v@.len(),
            forall|j: int| 0 <= j < i ==> v@[j] != ':',
        decreases v@.len() - i,
    {
        if v[i] == ':' {
            proof {
                let c = choose|k: int| 0 <= k < v@.len() && v@[k] == ':' && forall|j: int| 0 <= j < k ==> v@[j] != ':';
                assert(0 <= i < v@.len() && v@[i as int] == ':' && forall|j: int| 0 <= j < i ==> v@[j] != ':');
                assert(c == i) by {
                    if c < i {
                    } else if c > i {
                    }
                }
            }
            return Some(i);
        }
        i = i + 1;
    }
    None
}

/// Whether the characters are `short` or `long`.
fn is_opt_exec(a: &[char], short: &str, long: &str) -> (b: bool)
    ensures
        b == is_opt(a@, short@, long@),
{
    let s = to_chars(short);
    let l = to_chars(long);
    chars_eq(a, s.as_slice()) || chars_eq(a, l.as_slice())
}

/// The options read so far, with their paths made canonical.
struct ParseState {
    language: Option<String>,
    task: Option<String>,
    taskdata: Option<FileEntry>,
    subtask: Vec<String>,
    select: Vec<String>,
    config: Option<String>,
    pathfilter: Vec<String>,
    builddir: Option<String>,
    workspace: Option<String>,
    start_service: Option<String>,
    debug: bool,
    help: bool,
}

/// `ps` holds the options `st` with their paths made canonical.
spec fn state_ok<C: Fn(&str) -> Option<String>, K: Fn(&str) -> String, T: Fn(&str) -> FileEntry>(
    ps: ParseState,
    st: RawArgs,
    canon: C,
    strict: K,
    entry: T,
) -> bool {
    &&& crate::text::opt_text(ps.language) == st.language
    &&& crate::text::opt_text(ps.task) == st.task
    &&& crate::text::opt_text(ps.config) == st.config
    &&& crate::text::opt_text(ps.start_service) == st.start_service
    &&& ps.debug == st.debug
    &&& ps.help == st.help
    &&& ps.subtask@.len() == st.subtask.len()
    &&& forall|k: int| 0 <= k < st.subtask.len() ==> canonical(canon, st.subtask[k], #[trigger] ps.subtask@[k])
    &&& ps.select@.len() == st.select.len()
    &&& forall|k: int| 0 <= k < st.select.len() ==> canonical(canon, st.select[k], #[trigger] ps.select@[k])
    &&& ps.pathfilter@.len() == st.pathfilter.len()
    &&& forall|k: int|
        0 <= k < st.pathfilter.len() ==> canonical(canon, st.pathfilter[k], #[trigger] ps.pathfilter@[k])
    &&& (ps.builddir is Some <==> st.builddir is Some)
    &&& (st.builddir matches Some(b) ==> strictly_canonical(strict, b, ps.builddir->0))
    &&& (ps.workspace is Some <==> st.workspace is Some)
    &&& (st.workspace matches Some(w) ==> strictly_canonical(strict, w, ps.workspace->0))
    &&& (ps.taskdata is Some <==> st.taskdata is Some)
    &&& (st.taskdata matches Some(d) ==> exists|s: &str| s@ == d && call_ensures(entry, (s,), ps.taskdata->0))
}

/// Adds `p`, made canonical from `raw`, to `v`.
proof fn lemma_push_canonical<C: Fn(&str) -> Option<String>>(
    old_v: Seq<String>,
    new_v: Seq<String>,
    old_raw: Seq<Seq<char>>,
    raw: Seq<char>,
    canon: C,
)
    requires
        old_v.len() == old_raw.len(),
        forall|k: int| 0 <= k < old_raw.len() ==> canonical(canon, old_raw[k], #[trigger] old_v[k]),
        new_v.len() == old_v.len() + 1,
        forall|k: int| 0 <= k < old_v.len() ==> new_v[k] == old_v[k],
        canonical(canon, raw, new_v[old_v.len() as int]),
    ensures
        forall|k: int| 0 <= k < old_raw.len() + 1 ==> canonical(canon, old_raw.push(raw)[k], #[trigger] new_v[k]),
{
    assert forall|k: int| 0 <= k < old_raw.len() + 1 implies canonical(canon, old_raw.push(raw)[k], #[trigger] new_v[k]) by {
        if k < old_raw.len() {
            assert(new_v[k] == old_v[k]);
        }
    }
}

/// Takes the value `value` of the option `o` into the state; an invalid
/// path is an error.
fn take_value<C: Fn(&str) -> Option<String>, K: Fn(&str) -> String, T: Fn(&str) -> FileEntry>(
    ps: &mut ParseState,
    o: ValueOption,
    value: &str,
    canon: &C,
    strict: &K,
    entry: &T,
    Ghost(st): Ghost<RawArgs>,
) -> (r: Result<(), String>)
    requires
        state_ok(*old(ps), st, *canon, *strict, *entry),
        forall|s: &str| call_requires(*canon, (s,)),
        forall|s: &str| call_requires(*strict, (s,)),
        forall|s: &str| call_requires(*entry, (s,)),
    ensures
        r is Ok ==> state_ok(*final(ps), with_value(st, o, value@), *canon, *strict, *entry),
        r is Ok && is_path_value(st, o) ==> accepted_at(*canon, value@),
        r matches Err(x) ==> is_path_value(st, o) && path_message(o) == Some(x@) && refused_at(*canon, value@),
{
    let ghost v = value@;
    match o {
    ValueOption::Lang => {
        ps.language = Some(value.to_string());
        assert(state_ok(*ps, with_value(st, o, value@), *canon, *strict, *entry));
    },
    ValueOption::Task => {
        if ps.task.is_none() {
            let vc = to_chars(value);
            match find_colon(vc.as_slice()) {
                Some(c) => {
                    assert(c < vc.len());
                    let before = crate::text::slice_range(vc.as_slice(), 0, c);
                    let after = crate::text::slice_range(vc.as_slice(), c + 1, vc.len());
                    ps.task = Some(from_chars(before.as_slice()));
                    let after_s = from_chars(after.as_slice());
                    let after_str = after_s.as_str();
                    let e = entry(after_str);
                    proof {
                        assert(before@ =~= v.take(c as int));
                        assert(after@ =~= v.skip(c + 1));
                        assert(call_ensures(*entry, (after_str,), e));
                    }
                    ps.taskdata = Some(e);
                    assert(exists|s: &str| s@ == v.skip(c + 1) && call_ensures(*entry, (s,), e));
                    assert(state_ok(*ps, with_value(st, o, value@), *canon, *strict, *entry));
                },
                None => {
                    ps.task = Some(value.to_string());
                    assert(state_ok(*ps, with_value(st, o, value@), *canon, *strict, *entry));
                },
            }
        } else {
            let res = canon(value);
            let file = match res {
                Some(p) => p,
                None => {
                    assert(call_ensures(*canon, (value,), None::<String>));
                    proof {
                        reveal_strlit("Invalid path for --task");
                    }
                    return Err("Invalid path for --task".to_string());
                },
            };
            assert(canonical(*canon, v, file));
            let ghost old_v = ps.subtask@;
            ps.subtask.push(file);
            proof {
                lemma_push_canonical(old_v, ps.subtask@, st.subtask, v, *canon);
            }
            assert(state_ok(*ps, with_value(st, o, value@), *canon, *strict, *entry));
        }
    },
    ValueOption::Select => {
        let res = canon(value);
        let file = match res {
            Some(p) => p,
            None => {
                assert(call_ensures(*canon, (value,), None::<String>));
                proof {
                    reveal_strlit("Invalid path for --subtask");
                }
                return Err("Invalid path for --subtask".to_string());
            },
        };
        assert(canonical(*canon, v, file));
        let ghost old_v = ps.select@;
        ps.select.push(file);
        proof {
            lemma_push_canonical(old_v, ps.select@, st.select, v, *canon);
        }
    },
    ValueOption::Config => {
        ps.config = Some(value.to_string());
        assert(state_ok(*ps, with_value(st, o, value@), *canon, *strict, *entry));
    },
    ValueOption::PathFilter => {
        let res = canon(value);
        let dir = match res {
            Some(p) => p,
            None => {
                assert(call_ensures(*canon, (value,), None::<String>));
                proof {
                    reveal_strlit("Invalid path for --pathfilter");
                }
                return Err("Invalid path for --pathfilter".to_string());
            },
        };
        assert(canonical(*canon, v, dir));
        let ghost old_v = ps.pathfilter@;
        ps.pathfilter.push(dir);
        proof {
            lemma_push_canonical(old_v, ps.pathfilter@, st.pathfilter, v, *canon);
        }
    },
    ValueOption::BuildDir => {
        let p = strict(value);
        assert(strictly_canonical(*strict, v, p));
        ps.builddir = Some(p);
    },
    ValueOption::Workspace => {
        let p = strict(value);
        assert(strictly_canonical(*strict, v, p));
        ps.workspace = Some(p);
    },
    ValueOption::Run => {
        ps.start_service = Some(value.to_string());
    },
    }
    Ok(())
}

/// The name of the option `a` that takes a value, if it is one.
fn value_option_exec(a: &[char]) -> (r: Option<ValueOption>)
    ensures
        r == value_option(a@),
{
    if is_opt_exec(a, "-l", "--lang") {
        Some(ValueOption::Lang)
    } else if is_opt_exec(a, "-t", "--task") {
        Some(ValueOption::Task)
    } else if is_opt_exec(a, "-s", "--select") {
        Some(ValueOption::Select)
    } else if is_opt_exec(a, "-c", "--config") {
        Some(ValueOption::Config)
    } else if is_opt_exec(a, "-f", "--pathfilter") {
        Some(ValueOption::PathFilter)
    } else if is_opt_exec(a, "-b", "--builddir") {
        Some(ValueOption::BuildDir)
    } else if is_opt_exec(a, "-w", "--workspace") {
        Some(ValueOption::Workspace)
    } else if is_opt_exec(a, "-r", "--run") {
        Some(ValueOption::Run)
    } else {
        None
    }
}

/// The long name of an option that takes a value.
fn option_name_exec(o: ValueOption) -> (r: &'static str)
    ensures
        r@ == option_name(o),
{
    match o {
        ValueOption::Lang => "--lang",
        ValueOption::Task => "--task",
        ValueOption::Select => "--select",
        ValueOption::Config => "--config",
        ValueOption::PathFilter => "--pathfilter",
        ValueOption::BuildDir => "--builddir",
        ValueOption::Workspace => "--workspace",
        ValueOption::Run => "--run",
    }
}

/// Reads the command line `args` (without the program name), see
/// `scan_args`: paths are made canonical by `canon` (an invalid one is an
/// error), the build directory and the workspace by `strict`, the data of
/// the task read by `entry`. With `--help` or `--run` nothing more is
/// checked and language and task stay empty; otherwise the language, the
/// task and a path filter are required, and the task must be known or a
/// file (as `is_file` tells).
pub fn parse_args<
    C: Fn(&str) -> Option<String>,
    K: Fn(&str) -> String,
    E: Fn(&str) -> bool,
    T: Fn(&str) -> FileEntry,
>(args: &Vec<String>, canon: &C, strict: &K, is_file: &E, entry: &T) -> (r: Result<Args, String>)
    requires
        forall|s: &str| call_requires(*canon, (s,)),
        forall|s: &str| call_requires(*strict, (s,)),
        forall|s: &str| call_requires(*is_file, (s,)),
        forall|s: &str| call_requires(*entry, (s,)),
    ensures
        match scanned_args(args@) {
            Err(m) => r matches Err(x) && ((x@ == m && scan_accepted(*canon, strings_text(args@), 0, no_args()))
                || path_refused(*canon, strings_text(args@), x@)),
            Ok(raw) => match r {
                Ok(a) => {
                    &&& args_from(raw, a, *canon, *strict, *entry)
                    &&& if raw.help || raw.start_service is Some {
                        a.language@.len() == 0 && a.task@.len() == 0
                    } else {
                        &&& missing_required(raw) is None
                        &&& raw.language == Some(a.language@)
                        &&& raw.task == Some(a.task@)
                        &&& (known_task(a.task@) || exists|s: &str| s@ == a.task@ && call_ensures(*is_file, (s,), true))
                    }
                },
                Err(x) => path_refused(*canon, strings_text(args@), x@) || (!(raw.help || raw.start_service is Some) && (
                missing_required(raw) == Some(x@) || task_rejected(raw, x@, *is_file))),
            },
        },
{
    let ghost av = strings_text(args@);
    let ghost mut st = no_args();
    let mut ps = ParseState {
        language: None,
        task: None,
        taskdata: None,
        subtask: Vec::new(),
        select: Vec::new(),
        config: None,
        pathfilter: Vec::new(),
        builddir: None,
        workspace: None,
        start_service: None,
        debug: false,
        help: false,
    };
    let n = args.len();
    let mut i: usize = 0;
    while i < n
        invariant
            n == av.len(),
            av == strings_text(args@),
            i <= n,
            forall|s: &str| call_requires(*canon, (s,)),
            forall|s: &str| call_requires(*strict, (s,)),
            forall|s: &str| call_requires(*entry, (s,)),
            scanned_args(args@) == scan_args(av, i as int, st),
            state_ok(ps, st, *canon, *strict, *entry),
            forall|x: Seq<char>|
                #[trigger] scan_refused(*canon, av, i as int, st, x) ==> scan_refused(*canon, av, 0, no_args(), x),
            scan_accepted(*canon, av, i as int, st) ==> scan_accepted(*canon, av, 0, no_args()),
        decreases n - i,
    {
        let a = to_chars(args[i].as_str());
        assert(a@ == av[i as int]);
        match value_option_exec(a.as_slice()) {
            Some(o) => {
                if i + 1 >= n {
                    let mut m = to_chars("Missing value for ");
                    append_str(&mut m, option_name_exec(o));
                    return Err(from_chars(m.as_slice()));
                }
                let value = args[i + 1].as_str();
                assert(value@ == av[i + 1]);
                match take_value(&mut ps, o, value, canon, strict, entry, Ghost(st)) {
                    Ok(()) => {},
                    Err(x) => {
                        proof {
                            assert(value_option(av[i as int]) == Some(o));
                            assert(scan_refused(*canon, av, i as int, st, x@));
                            assert(path_refused(*canon, av, x@));
                        }
                        return Err(x);
                    },
                }
                proof {
                    let st0 = st;
                    assert(value_option(av[i as int]) == Some(o));
                    st = with_value(st, o, value@);
                    assert(scan_accepted(*canon, av, i + 2, st) ==> scan_accepted(*canon, av, i as int, st0));
                    assert forall|x: Seq<char>|
                        #[trigger] scan_refused(*canon, av, i + 2, st, x) implies scan_refused(*canon, av, 0, no_args(), x) by {
                        assert(scan_refused(*canon, av, i as int, st0, x));
                    }
                }
                i = i + 2;
            },
            None => {
                if is_opt_exec(a.as_slice(), "-d", "--debug") {
                    ps.debug = true;
                    proof {
                        let st0 = st;
                        st = RawArgs { debug: true, ..st };
                        assert(scan_accepted(*canon, av, i + 1, st) ==> scan_accepted(*canon, av, i as int, st0));
                        assert forall|x: Seq<char>|
                            #[trigger] scan_refused(*canon, av, i + 1, st, x) implies scan_refused(*canon, av, 0, no_args(), x) by {
                            assert(scan_refused(*canon, av, i as int, st0, x));
                        }
                    }
                    i = i + 1;
                } else if is_opt_exec(a.as_slice(), "-h", "--help") {
                    ps.help = true;
                    proof {
                        let st0 = st;
                        st = RawArgs { help: true, ..st };
                        assert(scan_accepted(*canon, av, i + 1, st) ==> scan_accepted(*canon, av, i as int, st0));
                        assert forall|x: Seq<char>|
                            #[trigger] scan_refused(*canon, av, i + 1, st, x) implies scan_refused(*canon, av, 0, no_args(), x) by {
                            assert(scan_refused(*canon, av, i as int, st0, x));
                        }
                    }
                    i = i + 1;
                } else {
                    let mut m = to_chars("Unknown argument: ");
                    append_chars(&mut m, a.as_slice());
                    return Err(from_chars(m.as_slice()));
                }
            },
        }
    }
    assert(scanned_args(args@) == Ok::<RawArgs, Seq<char>>(st));
    let ParseState {
        language,
        task,
        taskdata,
        subtask,
        select,
        config,
        pathfilter,
        builddir,
        workspace,
        start_service,
        debug,
        help,
    } = ps;
    if help || start_service.is_some() {
        return Ok(
            Args {
                language: String::new(),
                task: String::new(),
                taskdata,
                subtask,
                config,
                select,
                pathfilter,
                builddir,
                workspace,
                start_service,
                debug,
                help,
            },
        );
    }
    let lang_value = match language {
        Some(l) => l,
        None => {
            return Err("Missing required argument --task".to_string());
        },
    };
    let task_value = match task {
        Some(t) => t,
        None => {
            return Err("Missing required argument --task".to_string());
        },
    };
    if pathfilter.len() == 0 {
        return Err("Missing required argument --pathfilter (must be provided at least once)".to_string());
    }
    let is_known = Tasks::parse(task_value.as_str()).is_some();
    if !is_known {
        let tv = task_value.as_str();
        let is_path = is_file(tv);
        if !is_path {
            let names = Tasks::to_vec_str();
            let mut parts: Vec<Vec<char>> = Vec::new();
            for k in 0..names.len()
                invariant
                    names@.len() == all_tasks().len(),
                    forall|j: int| 0 <= j < names@.len() ==> #[trigger] names@[j]@ == task_name(all_tasks()[j]),
                    parts@.len() == k,
                    forall|j: int| 0 <= j < k ==> #[trigger] parts@[j]@ == task_name(all_tasks()[j]),
            {
                parts.push(to_chars(names[k]));
            }
            let sep = to_chars(", ");
            let joined = join_chars(&parts, sep.as_slice());
            assert(parts@.map_values(|p: Vec<char>| p@) =~= Seq::new(
                all_tasks().len(),
                |j: int| task_name(all_tasks()[j]),
            ));
            let mut m = to_chars("Invalid task '");
            append_str(&mut m, tv);
            append_str(&mut m, "'. Must be one of [");
            append_chars(&mut m, joined.as_slice());
            append_str(&mut m, "] or a valid file path.");
            assert(m@ =~= invalid_task_message(task_value@));
            assert(call_ensures(*is_file, (tv,), false));
            return Err(from_chars(m.as_slice()));
        }
        assert(call_ensures(*is_file, (tv,), true));
    }
    Ok(
        Args {
            language: lang_value,
            task: task_value,
            taskdata,
            subtask,
            config,
            select,
            pathfilter,
            builddir,
            workspace,
            start_service,
            debug,
            help,
        },
    )
}

} // verus!

verus! {

/// The help text before the list of languages.
pub open spec fn help_head() -> Seq<char> {
    "aifix [option]+\n-l --lang [required, invalid with -w switch]: select task: one of: "@
}

/// The help text between the languages and the tasks.
pub open spec fn help_middle() -> Seq<char> {
    "\n        or provide path to taskdesciption\n-t --task [required, multiple possible invalid with -w switch]:\n    - first -t selects task: one of: "@
}

/// The help text after the tasks.
pub open spec fn help_tail() -> Seq<char> {
    "\n    - following are paths to subtasks that enhance the task description\n-s --select [optional, multiple possible]: one or more files or dirs,\n    - if task needs a file to operate and none is given a random file will be choosen\n-c --config [optional]: load config from path\n    - default config will be generated in path if no config availabe\n    - default config path is ~/.config/aifix/config.json\n-f --pathfilter [multiple, required at least once]: directory list\n-b --builddir [default = target(rust) or build(other)]: set builddir\n-w --workspace [optional]: running in workspace (mode): path to workspace\n    - llm does not load files, all files are loaded at once from current workspace,\n    - also task descripton is here and may be named like e.g.: `task.md`\n-d --debug [default = false]: dump debug\n-r --run [optional providername in config] run server; if set other settings will be ignored\n-h --help [default = false]: dump help\n"@
}

/// The help text: the options, with the known languages and tasks.
pub open spec fn help_text_of(languages: Seq<Seq<char>>) -> Seq<char> {
    help_head() + join(languages, ", "@) + help_middle() + join(
        Seq::new(all_tasks().len(), |i: int| task_name(all_tasks()[i])),
        ", "@,
    ) + help_tail()
}

/// The help text for the given languages.
pub fn help(languages: &Vec<String>) -> (r: String)
    ensures
        r@ == help_text_of(strings_text(languages@)),
{
    let mut m = to_chars("aifix [option]+\n-l --lang [required, invalid with -w switch]: select task: one of: ");
    let mut langs: Vec<Vec<char>> = Vec::new();
    for k in 0..languages.len()
        invariant
            langs@.len() == k,
            forall|j: int| 0 <= j < k ==> #[trigger] langs@[j]@ == languages@[j]@,
    {
        langs.push(to_chars(languages[k].as_str()));
    }
    let sep = to_chars(", ");
    let lj = join_chars(&langs, sep.as_slice());
    assert(langs@.map_values(|p: Vec<char>| p@) =~= strings_text(languages@));
    append_chars(&mut m, lj.as_slice());
    append_str(&mut m, "\n        or provide path to taskdesciption\n-t --task [required, multiple possible invalid with -w switch]:\n    - first -t selects task: one of: ");
    let names = Tasks::to_vec_str();
    let mut parts: Vec<Vec<char>> = Vec::new();
    for k in 0..names.len()
        invariant
            names@.len() == all_tasks().len(),
            forall|j: int| 0 <= j < names@.len() ==> #[trigger] names@[j]@ == task_name(all_tasks()[j]),
            parts@.len() == k,
            forall|j: int| 0 <= j < k ==> #[trigger] parts@[j]@ == task_name(all_tasks()[j]),
    {
        parts.push(to_chars(names[k]));
    }
    let tj = join_chars(&parts, sep.as_slice());
    assert(parts@.map_values(|p: Vec<char>| p@) =~= Seq::new(all_tasks().len(), |j: int| task_name(all_tasks()[j])));
    append_chars(&mut m, tj.as_slice());
    append_str(&mut m, "\n    - following are paths to subtasks that enhance the task description\n-s --select [optional, multiple possible]: one or more files or dirs,\n    - if task needs a file to operate and none is given a random file will be choosen\n-c --config [optional]: load config from path\n    - default config will be generated in path if no config availabe\n    - default config path is ~/.config/aifix/config.json\n-f --pathfilter [multiple, required at least once]: directory list\n-b --builddir [default = target(rust) or build(other)]: set builddir\n-w --workspace [optional]: running in workspace (mode): path to workspace\n    - llm does not load files, all files are loaded at once from current workspace,\n    - also task descripton is here and may be named like e.g.: `task.md`\n-d --debug [default = false]: dump debug\n-r --run [optional providername in config] run server; if set other settings will be ignored\n-h --help [default = false]: dump help\n");
    assert(m@ =~= help_text_of(strings_text(languages@)));
    from_chars(m.as_slice())
}

} // verus!

verus! {

proof fn lemma_option_name_l()
    ensures
        value_option("-l"@) == Some(ValueOption::Lang),
{
    reveal_strlit("-l");
    reveal_strlit("--lang");
    reveal_strlit("-t");
    reveal_strlit("--task");
    reveal_strlit("-s");
    reveal_strlit("--select");
    reveal_strlit("-c");
    reveal_strlit("--config");
    reveal_strlit("-f");
    reveal_strlit("--pathfilter");
    reveal_strlit("-b");
    reveal_strlit("--builddir");
    reveal_strlit("-w");
    reveal_strlit("--workspace");
    reveal_strlit("-r");
    reveal_strlit("--run");
    reveal_strlit("-d");
    reveal_strlit("--debug");
    reveal_strlit("-h");
    reveal_strlit("--help");
    assert("-l"@.len() != "--lang"@.len());
    assert("-l"@[1] != "-t"@[1]);
    assert("-l"@.len() != "--task"@.len());
    assert("-l"@[1] != "-s"@[1]);
    assert("-l"@.len() != "--select"@.len());
    assert("-l"@[1] != "-c"@[1]);
    assert("-l"@.len() != "--config"@.len());
    assert("-l"@[1] != "-f"@[1]);
    assert("-l"@.len() != "--pathfilter"@.len());
    assert("-l"@[1] != "-b"@[1]);
    assert("-l"@.len() != "--builddir"@.len());
    assert("-l"@[1] != "-w"@[1]);
    assert("-l"@.len() != "--workspace"@.len());
    assert("-l"@[1] != "-r"@[1]);
    assert("-l"@.len() != "--run"@.len());
    assert("-l"@[1] != "-d"@[1]);
    assert("-l"@.len() != "--debug"@.len());
    assert("-l"@[1] != "-h"@[1]);
    assert("-l"@.len() != "--help"@.len());
}

proof fn lemma_option_name_lang()
    ensures
        value_option("--lang"@) == Some(ValueOption::Lang),
{
    reveal_strlit("-l");
    reveal_strlit("--lang");
    reveal_strlit("-t");
    reveal_strlit("--task");
    reveal_strlit("-s");
    reveal_strlit("--select");
    reveal_strlit("-c");
    reveal_strlit("--config");
    reveal_strlit("-f");
    reveal_strlit("--pathfilter");
    reveal_strlit("-b");
    reveal_strlit("--builddir");
    reveal_strlit("-w");
    reveal_strlit("--workspace");
    reveal_strlit("-r");
    reveal_strlit("--run");
    reveal_strlit("-d");
    reveal_strlit("--debug");
    reveal_strlit("-h");
    reveal_strlit("--help");
    assert("--lang"@.len() != "-l"@.len());
    assert("--lang"@.len() != "-t"@.len());
    assert("--lang"@[2] != "--task"@[2]);
    assert("--lang"@.len() != "-s"@.len());
    assert("--lang"@.len() != "--select"@.len());
    assert("--lang"@.len() != "-c"@.len());
    assert("--lang"@.len() != "--config"@.len());
    assert("--lang"@.len() != "-f"@.len());
    assert("--lang"@.len() != "--pathfilter"@.len());
    assert("--lang"@.len() != "-b"@.len());
    assert("--lang"@.len() != "--builddir"@.len());
    assert("--lang"@.len() != "-w"@.len());
    assert("--lang"@.len() != "--workspace"@.len());
    assert("--lang"@.len() != "-r"@.len());
    assert("--lang"@.len() != "--run"@.len());
    assert("--lang"@.len() != "-d"@.len());
    assert("--lang"@.len() != "--debug"@.len());
    assert("--lang"@.len() != "-h"@.len());
    assert("--lang"@[2] != "--help"@[2]);
}

proof fn lemma_option_name_t()
    ensures
        value_option("-t"@) == Some(ValueOption::Task),
{
    reveal_strlit("-l");
    reveal_strlit("--lang");
    reveal_strlit("-t");
    reveal_strlit("--task");
    reveal_strlit("-s");
    reveal_strlit("--select");
    reveal_strlit("-c");
    reveal_strlit("--config");
    reveal_strlit("-f");
    reveal_strlit("--pathfilter");
    reveal_strlit("-b");
    reveal_strlit("--builddir");
    reveal_strlit("-w");
    reveal_strlit("--workspace");
    reveal_strlit("-r");
    reveal_strlit("--run");
    reveal_strlit("-d");
    reveal_strlit("--debug");
    reveal_strlit("-h");
    reveal_strlit("--help");
    assert("-t"@[1] != "-l"@[1]);
    assert("-t"@.len() != "--lang"@.len());
    assert("-t"@.len() != "--task"@.len());
    assert("-t"@[1] != "-s"@[1]);
    assert("-t"@.len() != "--select"@.len());
    assert("-t"@[1] != "-c"@[1]);
    assert("-t"@.len() != "--config"@.len());
    assert("-t"@[1] != "-f"@[1]);
    assert("-t"@.len() != "--pathfilter"@.len());
    assert("-t"@[1] != "-b"@[1]);
    assert("-t"@.len() != "--builddir"@.len());
    assert("-t"@[1] != "-w"@[1]);
    assert("-t"@.len() != "--workspace"@.len());
    assert("-t"@[1] != "-r"@[1]);
    assert("-t"@.len() != "--run"@.len());
    assert("-t"@[1] != "-d"@[1]);
    assert("-t"@.len() != "--debug"@.len());
    assert("-t"@[1] != "-h"@[1]);
    assert("-t"@.len() != "--help"@.len());
}

proof fn lemma_option_name_task()
    ensures
        value_option("--task"@) == Some(ValueOption::Task),
{
    reveal_strlit("-l");
    reveal_strlit("--lang");
    reveal_strlit("-t");
    reveal_strlit("--task");
    reveal_strlit("-s");
    reveal_strlit("--select");
    reveal_strlit("-c");
    reveal_strlit("--config");
    reveal_strlit("-f");
    reveal_strlit("--pathfilter");
    reveal_strlit("-b");
    reveal_strlit("--builddir");
    reveal_strlit("-w");
    reveal_strlit("--workspace");
    reveal_strlit("-r");
    reveal_strlit("--run");
    reveal_strlit("-d");
    reveal_strlit("--debug");
    reveal_strlit("-h");
    reveal_strlit("--help");
    assert("--task"@.len() != "-l"@.len());
    assert("--task"@[2] != "--lang"@[2]);
    assert("--task"@.len() != "-t"@.len());
    assert("--task"@.len() != "-s"@.len());
    assert("--task"@.len() != "--select"@.len());
    assert("--task"@.len() != "-c"@.len());
    assert("--task"@.len() != "--config"@.len());
    assert("--task"@.len() != "-f"@.len());
    assert("--task"@.len() != "--pathfilter"@.len());
    assert("--task"@.len() != "-b"@.len());
    assert("--task"@.len() != "--builddir"@.len());
    assert("--task"@.len() != "-w"@.len());
    assert("--task"@.len() != "--workspace"@.len());
    assert("--task"@.len() != "-r"@.len());
    assert("--task"@.len() != "--run"@.len());
    assert("--task"@.len() != "-d"@.len());
    assert("--task"@.len() != "--debug"@.len());
    assert("--task"@.len() != "-h"@.len());
    assert("--task"@[2] != "--help"@[2]);
}

proof fn lemma_option_name_s()
    ensures
        value_option("-s"@) == Some(ValueOption::Select),
{
    reveal_strlit("-l");
    reveal_strlit("--lang");
    reveal_strlit("-t");
    reveal_strlit("--task");
    reveal_strlit("-s");
    reveal_strlit("--select");
    reveal_strlit("-c");
    reveal_strlit("--config");
    reveal_strlit("-f");
    reveal_strlit("--pathfilter");
    reveal_strlit("-b");
    reveal_strlit("--builddir");
    reveal_strlit("-w");
    reveal_strlit("--workspace");
    reveal_strlit("-r");
    reveal_strlit("--run");
    reveal_strlit("-d");
    reveal_strlit("--debug");
    reveal_strlit("-h");
    reveal_strlit("--help");
    assert("-s"@[1] != "-l"@[1]);
    assert("-s"@.len() != "--lang"@.len());
    assert("-s"@[1] != "-t"@[1]);
    assert("-s"@.len() != "--task"@.len());
    assert("-s"@.len() != "--select"@.len());
    assert("-s"@[1] != "-c"@[1]);
    assert("-s"@.len() != "--config"@.len());
    assert("-s"@[1] != "-f"@[1]);
    assert("-s"@.len() != "--pathfilter"@.len());
    assert("-s"@[1] != "-b"@[1]);
    assert("-s"@.len() != "--builddir"@.len());
    assert("-s"@[1] != "-w"@[1]);
    assert("-s"@.len() != "--workspace"@.len());
    assert("-s"@[1] != "-r"@[1]);
    assert("-s"@.len() != "--run"@.len());
    assert("-s"@[1] != "-d"@[1]);
    assert("-s"@.len() != "--debug"@.len());
    assert("-s"@[1] != "-h"@[1]);
    assert("-s"@.len() != "--help"@.len());
}

proof fn lemma_option_name_select()
    ensures
        value_option("--select"@) == Some(ValueOption::Select),
{
    reveal_strlit("-l");
    reveal_strlit("--lang");
    reveal_strlit("-t");
    reveal_strlit("--task");
    reveal_strlit("-s");
    reveal_strlit("--select");
    reveal_strlit("-c");
    reveal_strlit("--config");
    reveal_strlit("-f");
    reveal_strlit("--pathfilter");
    reveal_strlit("-b");
    reveal_strlit("--builddir");
    reveal_strlit("-w");
    reveal_strlit("--workspace");
    reveal_strlit("-r");
    reveal_strlit("--run");
    reveal_strlit("-d");
    reveal_strlit("--debug");
    reveal_strlit("-h");
    reveal_strlit("--help");
    assert("--select"@.len() != "-l"@.len());
    assert("--select"@.len() != "--lang"@.len());
    assert("--select"@.len() != "-t"@.len());
    assert("--select"@.len() != "--task"@.len());
    assert("--select"@.len() != "-s"@.len());
    assert("--select"@.len() != "-c"@.len());
    assert("--select"@[2] != "--config"@[2]);
    assert("--select"@.len() != "-f"@.len());
    assert("--select"@.len() != "--pathfilter"@.len());
    assert("--select"@.len() != "-b"@.len());
    assert("--select"@.len() != "--builddir"@.len());
    assert("--select"@.len() != "-w"@.len());
    assert("--select"@.len() != "--workspace"@.len());
    assert("--select"@.len() != "-r"@.len());
    assert("--select"@.len() != "--run"@.len());
    assert("--select"@.len() != "-d"@.len());
    assert("--select"@.len() != "--debug"@.len());
    assert("--select"@.len() != "-h"@.len());
    assert("--select"@.len() != "--help"@.len());
}

proof fn lemma_option_name_c()
    ensures
        value_option("-c"@) == Some(ValueOption::Config),
{
    reveal_strlit("-l");
    reveal_strlit("--lang");
    reveal_strlit("-t");
    reveal_strlit("--task");
    reveal_strlit("-s");
    reveal_strlit("--select");
    reveal_strlit("-c");
    reveal_strlit("--config");
    reveal_strlit("-f");
    reveal_strlit("--pathfilter");
    reveal_strlit("-b");
    reveal_strlit("--builddir");
    reveal_strlit("-w");
    reveal_strlit("--workspace");
    reveal_strlit("-r");
    reveal_strlit("--run");
    reveal_strlit("-d");
    reveal_strlit("--debug");
    reveal_strlit("-h");
    reveal_strlit("--help");
    assert("-c"@[1] != "-l"@[1]);
    assert("-c"@.len() != "--lang"@.len());
    assert("-c"@[1] != "-t"@[1]);
    assert("-c"@.len() != "--task"@.len());
    assert("-c"@[1] != "-s"@[1]);
    assert("-c"@.len() != "--select"@.len());
    assert("-c"@.len() != "--config"@.len());
    assert("-c"@[1] != "-f"@[1]);
    assert("-c"@.len() != "--pathfilter"@.len());
    assert("-c"@[1] != "-b"@[1]);
    assert("-c"@.len() != "--builddir"@.len());
    assert("-c"@[1] != "-w"@[1]);
    assert("-c"@.len() != "--workspace"@.len());
    assert("-c"@[1] != "-r"@[1]);
    assert("-c"@.len() != "--run"@.len());
    assert("-c"@[1] != "-d"@[1]);
    assert("-c"@.len() != "--debug"@.len());
    assert("-c"@[1] != "-h"@[1]);
    assert("-c"@.len() != "--help"@.len());
}

proof fn lemma_option_name_config()
    ensures
        value_option("--config"@) == Some(ValueOption::Config),
{
    reveal_strlit("-l");
    reveal_strlit("--lang");
    reveal_strlit("-t");
    reveal_strlit("--task");
    reveal_strlit("-s");
    reveal_strlit("--select");
    reveal_strlit("-c");
    reveal_strlit("--config");
    reveal_strlit("-f");
    reveal_strlit("--pathfilter");
    reveal_strlit("-b");
    reveal_strlit("--builddir");
    reveal_strlit("-w");
    reveal_strlit("--workspace");
    reveal_strlit("-r");
    reveal_strlit("--run");
    reveal_strlit("-d");
    reveal_strlit("--debug");
    reveal_strlit("-h");
    reveal_strlit("--help");
    assert("--config"@.len() != "-l"@.len());
    assert("--config"@.len() != "--lang"@.len());
    assert("--config"@.len() != "-t"@.len());
    assert("--config"@.len() != "--task"@.len());
    assert("--config"@.len() != "-s"@.len());
    assert("--config"@[2] != "--select"@[2]);
    assert("--config"@.len() != "-c"@.len());
    assert("--config"@.len() != "-f"@.len());
    assert("--config"@.len() != "--pathfilter"@.len());
    assert("--config"@.len() != "-b"@.len());
    assert("--config"@.len() != "--builddir"@.len());
    assert("--config"@.len() != "-w"@.len());
    assert("--config"@.len() != "--workspace"@.len());
    assert("--config"@.len() != "-r"@.len());
    assert("--config"@.len() != "--run"@.len());
    assert("--config"@.len() != "-d"@.len());
    assert("--config"@.len() != "--debug"@.len());
    assert("--config"@.len() != "-h"@.len());
    assert("--config"@.len() != "--help"@.len());
}

proof fn lemma_option_name_f()
    ensures
        value_option("-f"@) == Some(ValueOption::PathFilter),
{
    reveal_strlit("-l");
    reveal_strlit("--lang");
    reveal_strlit("-t");
    reveal_strlit("--task");
    reveal_strlit("-s");
    reveal_strlit("--select");
    reveal_strlit("-c");
    reveal_strlit("--config");
    reveal_strlit("-f");
    reveal_strlit("--pathfilter");
    reveal_strlit("-b");
    reveal_strlit("--builddir");
    reveal_strlit("-w");
    reveal_strlit("--workspace");
    reveal_strlit("-r");
    reveal_strlit("--run");
    reveal_strlit("-d");
    reveal_strlit("--debug");
    reveal_strlit("-h");
    reveal_strlit("--help");
    assert("-f"@[1] != "-l"@[1]);
    assert("-f"@.len() != "--lang"@.len());
    assert("-f"@[1] != "-t"@[1]);
    assert("-f"@.len() != "--task"@.len());
    assert("-f"@[1] != "-s"@[1]);
    assert("-f"@.len() != "--select"@.len());
    assert("-f"@[1] != "-c"@[1]);
    assert("-f"@.len() != "--config"@.len());
    assert("-f"@.len() != "--pathfilter"@.len());
    assert("-f"@[1] != "-b"@[1]);
    assert("-f"@.len() != "--builddir"@.len());
    assert("-f"@[1] != "-w"@[1]);
    assert("-f"@.len() != "--workspace"@.len());
    assert("-f"@[1] != "-r"@[1]);
    assert("-f"@.len() != "--run"@.len());
    assert("-f"@[1] != "-d"@[1]);
    assert("-f"@.len() != "--debug"@.len());
    assert("-f"@[1] != "-h"@[1]);
    assert("-f"@.len() != "--help"@.len());
}

proof fn lemma_option_name_pathfilter()
    ensures
        value_option("--pathfilter"@) == Some(ValueOption::PathFilter),
{
    reveal_strlit("-l");
    reveal_strlit("--lang");
    reveal_strlit("-t");
    reveal_strlit("--task");
    reveal_strlit("-s");
    reveal_strlit("--select");
    reveal_strlit("-c");
    reveal_strlit("--config");
    reveal_strlit("-f");
    reveal_strlit("--pathfilter");
    reveal_strlit("-b");
    reveal_strlit("--builddir");
    reveal_strlit("-w");
    reveal_strlit("--workspace");
    reveal_strlit("-r");
    reveal_strlit("--run");
    reveal_strlit("-d");
    reveal_strlit("--debug");
    reveal_strlit("-h");
    reveal_strlit("--help");
    assert("--pathfilter"@.len() != "-l"@.len());
    assert("--pathfilter"@.len() != "--lang"@.len());
    assert("--pathfilter"@.len() != "-t"@.len());
    assert("--pathfilter"@.len() != "--task"@.len());
    assert("--pathfilter"@.len() != "-s"@.len());
    assert("--pathfilter"@.len() != "--select"@.len());
    assert("--pathfilter"@.len() != "-c"@.len());
    assert("--pathfilter"@.len() != "--config"@.len());
    assert("--pathfilter"@.len() != "-f"@.len());
    assert("--pathfilter"@.len() != "-b"@.len());
    assert("--pathfilter"@.len() != "--builddir"@.len());
    assert("--pathfilter"@.len() != "-w"@.len());
    assert("--pathfilter"@.len() != "--workspace"@.len());
    assert("--pathfilter"@.len() != "-r"@.len());
    assert("--pathfilter"@.len() != "--run"@.len());
    assert("--pathfilter"@.len() != "-d"@.len());
    assert("--pathfilter"@.len() != "--debug"@.len());
    assert("--pathfilter"@.len() != "-h"@.len());
    assert("--pathfilter"@.len() != "--help"@.len());
}

proof fn lemma_option_name_b()
    ensures
        value_option("-b"@) == Some(ValueOption::BuildDir),
{
    reveal_strlit("-l");
    reveal_strlit("--lang");
    reveal_strlit("-t");
    reveal_strlit("--task");
    reveal_strlit("-s");
    reveal_strlit("--select");
    reveal_strlit("-c");
    reveal_strlit("--config");
    reveal_strlit("-f");
    reveal_strlit("--pathfilter");
    reveal_strlit("-b");
    reveal_strlit("--builddir");
    reveal_strlit("-w");
    reveal_strlit("--workspace");
    reveal_strlit("-r");
    reveal_strlit("--run");
    reveal_strlit("-d");
    reveal_strlit("--debug");
    reveal_strlit("-h");
    reveal_strlit("--help");
    assert("-b"@[1] != "-l"@[1]);
    assert("-b"@.len() != "--lang"@.len());
    assert("-b"@[1] != "-t"@[1]);
    assert("-b"@.len() != "--task"@.len());
    assert("-b"@[1] != "-s"@[1]);
    assert("-b"@.len() != "--select"@.len());
    assert("-b"@[1] != "-c"@[1]);
    assert("-b"@.len() != "--config"@.len());
    assert("-b"@[1] != "-f"@[1]);
    assert("-b"@.len() != "--pathfilter"@.len());
    assert("-b"@.len() != "--builddir"@.len());
    assert("-b"@[1] != "-w"@[1]);
    assert("-b"@.len() != "--workspace"@.len());
    assert("-b"@[1] != "-r"@[1]);
    assert("-b"@.len() != "--run"@.len());
    assert("-b"@[1] != "-d"@[1]);
    assert("-b"@.len() != "--debug"@.len());
    assert("-b"@[1] != "-h"@[1]);
    assert("-b"@.len() != "--help"@.len());
}

proof fn lemma_option_name_builddir()
    ensures
        value_option("--builddir"@) == Some(ValueOption::BuildDir),
{
    reveal_strlit("-l");
    reveal_strlit("--lang");
    reveal_strlit("-t");
    reveal_strlit("--task");
    reveal_strlit("-s");
    reveal_strlit("--select");
    reveal_strlit("-c");
    reveal_strlit("--config");
    reveal_strlit("-f");
    reveal_strlit("--pathfilter");
    reveal_strlit("-b");
    reveal_strlit("--builddir");
    reveal_strlit("-w");
    reveal_strlit("--workspace");
    reveal_strlit("-r");
    reveal_strlit("--run");
    reveal_strlit("-d");
    reveal_strlit("--debug");
    reveal_strlit("-h");
    reveal_strlit("--help");
    assert("--builddir"@.len() != "-l"@.len());
    assert("--builddir"@.len() != "--lang"@.len());
    assert("--builddir"@.len() != "-t"@.len());
    assert("--builddir"@.len() != "--task"@.len());
    assert("--builddir"@.len() != "-s"@.len());
    assert("--builddir"@.len() != "--select"@.len());
    assert("--builddir"@.len() != "-c"@.len());
    assert("--builddir"@.len() != "--config"@.len());
    assert("--builddir"@.len() != "-f"@.len());
    assert("--builddir"@.len() != "--pathfilter"@.len());
    assert("--builddir"@.len() != "-b"@.len());
    assert("--builddir"@.len() != "-w"@.len());
    assert("--builddir"@.len() != "--workspace"@.len());
    assert("--builddir"@.len() != "-r"@.len());
    assert("--builddir"@.len() != "--run"@.len());
    assert("--builddir"@.len() != "-d"@.len());
    assert("--builddir"@.len() != "--debug"@.len());
    assert("--builddir"@.len() != "-h"@.len());
    assert("--builddir"@.len() != "--help"@.len());
}

proof fn lemma_option_name_w()
    ensures
        value_option("-w"@) == Some(ValueOption::Workspace),
{
    reveal_strlit("-l");
    reveal_strlit("--lang");
    reveal_strlit("-t");
    reveal_strlit("--task");
    reveal_strlit("-s");
    reveal_strlit("--select");
    reveal_strlit("-c");
    reveal_strlit("--config");
    reveal_strlit("-f");
    reveal_strlit("--pathfilter");
    reveal_strlit("-b");
    reveal_strlit("--builddir");
    reveal_strlit("-w");
    reveal_strlit("--workspace");
    reveal_strlit("-r");
    reveal_strlit("--run");
    reveal_strlit("-d");
    reveal_strlit("--debug");
    reveal_strlit("-h");
    reveal_strlit("--help");
    assert("-w"@[1] != "-l"@[1]);
    assert("-w"@.len() != "--lang"@.len());
    assert("-w"@[1] != "-t"@[1]);
    assert("-w"@.len() != "--task"@.len());
    assert("-w"@[1] != "-s"@[1]);
    assert("-w"@.len() != "--select"@.len());
    assert("-w"@[1] != "-c"@[1]);
    assert("-w"@.len() != "--config"@.len());
    assert("-w"@[1] != "-f"@[1]);
    assert("-w"@.len() != "--pathfilter"@.len());
    assert("-w"@[1] != "-b"@[1]);
    assert("-w"@.len() != "--builddir"@.len());
    assert("-w"@.len() != "--workspace"@.len());
    assert("-w"@[1] != "-r"@[1]);
    assert("-w"@.len() != "--run"@.len());
    assert("-w"@[1] != "-d"@[1]);
    assert("-w"@.len() != "--debug"@.len());
    assert("-w"@[1] != "-h"@[1]);
    assert("-w"@.len() != "--help"@.len());
}

proof fn lemma_option_name_workspace()
    ensures
        value_option("--workspace"@) == Some(ValueOption::Workspace),
{
    reveal_strlit("-l");
    reveal_strlit("--lang");
    reveal_strlit("-t");
    reveal_strlit("--task");
    reveal_strlit("-s");
    reveal_strlit("--select");
    reveal_strlit("-c");
    reveal_strlit("--config");
    reveal_strlit("-f");
    reveal_strlit("--pathfilter");
    reveal_strlit("-b");
    reveal_strlit("--builddir");
    reveal_strlit("-w");
    reveal_strlit("--workspace");
    reveal_strlit("-r");
    reveal_strlit("--run");
    reveal_strlit("-d");
    reveal_strlit("--debug");
    reveal_strlit("-h");
    reveal_strlit("--help");
    assert("--workspace"@.len() != "-l"@.len());
    assert("--workspace"@.len() != "--lang"@.len());
    assert("--workspace"@.len() != "-t"@.len());
    assert("--workspace"@.len() != "--task"@.len());
    assert("--workspace"@.len() != "-s"@.len());
    assert("--workspace"@.len() != "--select"@.len());
    assert("--workspace"@.len() != "-c"@.len());
    assert("--workspace"@.len() != "--config"@.len());
    assert("--workspace"@.len() != "-f"@.len());
    assert("--workspace"@.len() != "--pathfilter"@.len());
    assert("--workspace"@.len() != "-b"@.len());
    assert("--workspace"@.len() != "--builddir"@.len());
    assert("--workspace"@.len() != "-w"@.len());
    assert("--workspace"@.len() != "-r"@.len());
    assert("--workspace"@.len() != "--run"@.len());
    assert("--workspace"@.len() != "-d"@.len());
    assert("--workspace"@.len() != "--debug"@.len());
    assert("--workspace"@.len() != "-h"@.len());
    assert("--workspace"@.len() != "--help"@.len());
}

proof fn lemma_option_name_r()
    ensures
        value_option("-r"@) == Some(ValueOption::Run),
{
    reveal_strlit("-l");
    reveal_strlit("--lang");
    reveal_strlit("-t");
    reveal_strlit("--task");
    reveal_strlit("-s");
    reveal_strlit("--select");
    reveal_strlit("-c");
    reveal_strlit("--config");
    reveal_strlit("-f");
    reveal_strlit("--pathfilter");
    reveal_strlit("-b");
    reveal_strlit("--builddir");
    reveal_strlit("-w");
    reveal_strlit("--workspace");
    reveal_strlit("-r");
    reveal_strlit("--run");
    reveal_strlit("-d");
    reveal_strlit("--debug");
    reveal_strlit("-h");
    reveal_strlit("--help");
    assert("-r"@[1] != "-l"@[1]);
    assert("-r"@.len() != "--lang"@.len());
    assert("-r"@[1] != "-t"@[1]);
    assert("-r"@.len() != "--task"@.len());
    assert("-r"@[1] != "-s"@[1]);
    assert("-r"@.len() != "--select"@.len());
    assert("-r"@[1] != "-c"@[1]);
    assert("-r"@.len() != "--config"@.len());
    assert("-r"@[1] != "-f"@[1]);
    assert("-r"@.len() != "--pathfilter"@.len());
    assert("-r"@[1] != "-b"@[1]);
    assert("-r"@.len() != "--builddir"@.len());
    assert("-r"@[1] != "-w"@[1]);
    assert("-r"@.len() != "--workspace"@.len());
    assert("-r"@.len() != "--run"@.len());
    assert("-r"@[1] != "-d"@[1]);
    assert("-r"@.len() != "--debug"@.len());
    assert("-r"@[1] != "-h"@[1]);
    assert("-r"@.len() != "--help"@.len());
}

proof fn lemma_option_name_run()
    ensures
        value_option("--run"@) == Some(ValueOption::Run),
{
    reveal_strlit("-l");
    reveal_strlit("--lang");
    reveal_strlit("-t");
    reveal_strlit("--task");
    reveal_strlit("-s");
    reveal_strlit("--select");
    reveal_strlit("-c");
    reveal_strlit("--config");
    reveal_strlit("-f");
    reveal_strlit("--pathfilter");
    reveal_strlit("-b");
    reveal_strlit("--builddir");
    reveal_strlit("-w");
    reveal_strlit("--workspace");
    reveal_strlit("-r");
    reveal_strlit("--run");
    reveal_strlit("-d");
    reveal_strlit("--debug");
    reveal_strlit("-h");
    reveal_strlit("--help");
    assert("--run"@.len() != "-l"@.len());
    assert("--run"@.len() != "--lang"@.len());
    assert("--run"@.len() != "-t"@.len());
    assert("--run"@.len() != "--task"@.len());
    assert("--run"@.len() != "-s"@.len());
    assert("--run"@.len() != "--select"@.len());
    assert("--run"@.len() != "-c"@.len());
    assert("--run"@.len() != "--config"@.len());
    assert("--run"@.len() != "-f"@.len());
    assert("--run"@.len() != "--pathfilter"@.len());
    assert("--run"@.len() != "-b"@.len());
    assert("--run"@.len() != "--builddir"@.len());
    assert("--run"@.len() != "-w"@.len());
    assert("--run"@.len() != "--workspace"@.len());
    assert("--run"@.len() != "-r"@.len());
    assert("--run"@.len() != "-d"@.len());
    assert("--run"@.len() != "--debug"@.len());
    assert("--run"@.len() != "-h"@.len());
    assert("--run"@.len() != "--help"@.len());
}

proof fn lemma_option_name_d()
    ensures
        value_option("-d"@) is None,
{
    reveal_strlit("-l");
    reveal_strlit("--lang");
    reveal_strlit("-t");
    reveal_strlit("--task");
    reveal_strlit("-s");
    reveal_strlit("--select");
    reveal_strlit("-c");
    reveal_strlit("--config");
    reveal_strlit("-f");
    reveal_strlit("--pathfilter");
    reveal_strlit("-b");
    reveal_strlit("--builddir");
    reveal_strlit("-w");
    reveal_strlit("--workspace");
    reveal_strlit("-r");
    reveal_strlit("--run");
    reveal_strlit("-d");
    reveal_strlit("--debug");
    reveal_strlit("-h");
    reveal_strlit("--help");
    assert("-d"@[1] != "-l"@[1]);
    assert("-d"@.len() != "--lang"@.len());
    assert("-d"@[1] != "-t"@[1]);
    assert("-d"@.len() != "--task"@.len());
    assert("-d"@[1] != "-s"@[1]);
    assert("-d"@.len() != "--select"@.len());
    assert("-d"@[1] != "-c"@[1]);
    assert("-d"@.len() != "--config"@.len());
    assert("-d"@[1] != "-f"@[1]);
    assert("-d"@.len() != "--pathfilter"@.len());
    assert("-d"@[1] != "-b"@[1]);
    assert("-d"@.len() != "--builddir"@.len());
    assert("-d"@[1] != "-w"@[1]);
    assert("-d"@.len() != "--workspace"@.len());
    assert("-d"@[1] != "-r"@[1]);
    assert("-d"@.len() != "--run"@.len());
    assert("-d"@.len() != "--debug"@.len());
    assert("-d"@[1] != "-h"@[1]);
    assert("-d"@.len() != "--help"@.len());
}

proof fn lemma_option_name_debug()
    ensures
        value_option("--debug"@) is None,
{
    reveal_strlit("-l");
    reveal_strlit("--lang");
    reveal_strlit("-t");
    reveal_strlit("--task");
    reveal_strlit("-s");
    reveal_strlit("--select");
    reveal_strlit("-c");
    reveal_strlit("--config");
    reveal_strlit("-f");
    reveal_strlit("--pathfilter");
    reveal_strlit("-b");
    reveal_strlit("--builddir");
    reveal_strlit("-w");
    reveal_strlit("--workspace");
    reveal_strlit("-r");
    reveal_strlit("--run");
    reveal_strlit("-d");
    reveal_strlit("--debug");
    reveal_strlit("-h");
    reveal_strlit("--help");
    assert("--debug"@.len() != "-l"@.len());
    assert("--debug"@.len() != "--lang"@.len());
    assert("--debug"@.len() != "-t"@.len());
    assert("--debug"@.len() != "--task"@.len());
    assert("--debug"@.len() != "-s"@.len());
    assert("--debug"@.len() != "--select"@.len());
    assert("--debug"@.len() != "-c"@.len());
    assert("--debug"@.len() != "--config"@.len());
    assert("--debug"@.len() != "-f"@.len());
    assert("--debug"@.len() != "--pathfilter"@.len());
    assert("--debug"@.len() != "-b"@.len());
    assert("--debug"@.len() != "--builddir"@.len());
    assert("--debug"@.len() != "-w"@.len());
    assert("--debug"@.len() != "--workspace"@.len());
    assert("--debug"@.len() != "-r"@.len());
    assert("--debug"@.len() != "--run"@.len());
    assert("--debug"@.len() != "-d"@.len());
    assert("--debug"@.len() != "-h"@.len());
    assert("--debug"@.len() != "--help"@.len());
}

proof fn lemma_option_name_h()
    ensures
        value_option("-h"@) is None,
        !is_opt("-h"@, "-d"@, "--debug"@),
{
    reveal_strlit("-l");
    reveal_strlit("--lang");
    reveal_strlit("-t");
    reveal_strlit("--task");
    reveal_strlit("-s");
    reveal_strlit("--select");
    reveal_strlit("-c");
    reveal_strlit("--config");
    reveal_strlit("-f");
    reveal_strlit("--pathfilter");
    reveal_strlit("-b");
    reveal_strlit("--builddir");
    reveal_strlit("-w");
    reveal_strlit("--workspace");
    reveal_strlit("-r");
    reveal_strlit("--run");
    reveal_strlit("-d");
    reveal_strlit("--debug");
    reveal_strlit("-h");
    reveal_strlit("--help");
    assert("-h"@[1] != "-l"@[1]);
    assert("-h"@.len() != "--lang"@.len());
    assert("-h"@[1] != "-t"@[1]);
    assert("-h"@.len() != "--task"@.len());
    assert("-h"@[1] != "-s"@[1]);
    assert("-h"@.len() != "--select"@.len());
    assert("-h"@[1] != "-c"@[1]);
    assert("-h"@.len() != "--config"@.len());
    assert("-h"@[1] != "-f"@[1]);
    assert("-h"@.len() != "--pathfilter"@.len());
    assert("-h"@[1] != "-b"@[1]);
    assert("-h"@.len() != "--builddir"@.len());
    assert("-h"@[1] != "-w"@[1]);
    assert("-h"@.len() != "--workspace"@.len());
    assert("-h"@[1] != "-r"@[1]);
    assert("-h"@.len() != "--run"@.len());
    assert("-h"@[1] != "-d"@[1]);
    assert("-h"@.len() != "--debug"@.len());
    assert("-h"@.len() != "--help"@.len());
}

proof fn lemma_option_name_help()
    ensures
        value_option("--help"@) is None,
        !is_opt("--help"@, "-d"@, "--debug"@),
{
    reveal_strlit("-l");
    reveal_strlit("--lang");
    reveal_strlit("-t");
    reveal_strlit("--task");
    reveal_strlit("-s");
    reveal_strlit("--select");
    reveal_strlit("-c");
    reveal_strlit("--config");
    reveal_strlit("-f");
    reveal_strlit("--pathfilter");
    reveal_strlit("-b");
    reveal_strlit("--builddir");
    reveal_strlit("-w");
    reveal_strlit("--workspace");
    reveal_strlit("-r");
    reveal_strlit("--run");
    reveal_strlit("-d");
    reveal_strlit("--debug");
    reveal_strlit("-h");
    reveal_strlit("--help");
    assert("--help"@.len() != "-l"@.len());
    assert("--help"@[2] != "--lang"@[2]);
    assert("--help"@.len() != "-t"@.len());
    assert("--help"@[2] != "--task"@[2]);
    assert("--help"@.len() != "-s"@.len());
    assert("--help"@.len() != "--select"@.len());
    assert("--help"@.len() != "-c"@.len());
    assert("--help"@.len() != "--config"@.len());
    assert("--help"@.len() != "-f"@.len());
    assert("--help"@.len() != "--pathfilter"@.len());
    assert("--help"@.len() != "-b"@.len());
    assert("--help"@.len() != "--builddir"@.len());
    assert("--help"@.len() != "-w"@.len());
    assert("--help"@.len() != "--workspace"@.len());
    assert("--help"@.len() != "-r"@.len());
    assert("--help"@.len() != "--run"@.len());
    assert("--help"@.len() != "-d"@.len());
    assert("--help"@.len() != "--debug"@.len());
    assert("--help"@.len() != "-h"@.len());
}

/// The names of the options are told apart as the original's `match`
/// does: each names its own option.
proof fn lemma_option_names()
    ensures
        value_option("-l"@) == Some(ValueOption::Lang),
        value_option("--lang"@) == Some(ValueOption::Lang),
        value_option("-t"@) == Some(ValueOption::Task),
        value_option("--task"@) == Some(ValueOption::Task),
        value_option("-s"@) == Some(ValueOption::Select),
        value_option("--select"@) == Some(ValueOption::Select),
        value_option("-c"@) == Some(ValueOption::Config),
        value_option("--config"@) == Some(ValueOption::Config),
        value_option("-f"@) == Some(ValueOption::PathFilter),
        value_option("--pathfilter"@) == Some(ValueOption::PathFilter),
        value_option("-b"@) == Some(ValueOption::BuildDir),
        value_option("--builddir"@) == Some(ValueOption::BuildDir),
        value_option("-w"@) == Some(ValueOption::Workspace),
        value_option("--workspace"@) == Some(ValueOption::Workspace),
        value_option("-r"@) == Some(ValueOption::Run),
        value_option("--run"@) == Some(ValueOption::Run),
        value_option("-d"@) is None,
        value_option("--debug"@) is None,
        value_option("-h"@) is None,
        value_option("--help"@) is None,
        !is_opt("-h"@, "-d"@, "--debug"@),
        !is_opt("--help"@, "-d"@, "--debug"@),
{
    lemma_option_name_l();
    lemma_option_name_lang();
    lemma_option_name_t();
    lemma_option_name_task();
    lemma_option_name_s();
    lemma_option_name_select();
    lemma_option_name_c();
    lemma_option_name_config();
    lemma_option_name_f();
    lemma_option_name_pathfilter();
    lemma_option_name_b();
    lemma_option_name_builddir();
    lemma_option_name_w();
    lemma_option_name_workspace();
    lemma_option_name_r();
    lemma_option_name_run();
    lemma_option_name_d();
    lemma_option_name_debug();
    lemma_option_name_h();
    lemma_option_name_help();
}

/// Reading from position `p.len() + i` of `p + rest` is reading `rest` from
/// position `i`.
proof fn lemma_scan_shift(p: Seq<Seq<char>>, rest: Seq<Seq<char>>, i: int, st: RawArgs)
    requires
        0 <= i,
    ensures
        scan_args(p + rest, p.len() + i, st) == scan_args(rest, i, st),
    decreases rest.len() - i,
{
    let args = p + rest;
    if i < rest.len() {
        assert(args[p.len() + i] == rest[i]);
        if i + 1 < rest.len() {
            assert(args[p.len() + i + 1] == rest[i + 1]);
        }
        match value_option(rest[i]) {
            Some(o) => {
                if i + 1 < rest.len() {
                    lemma_scan_shift(p, rest, i + 2, with_value(st, o, rest[i + 1]));
                }
            },
            None => {
                lemma_scan_shift(p, rest, i + 1, RawArgs { debug: true, ..st });
                lemma_scan_shift(p, rest, i + 1, RawArgs { help: true, ..st });
            },
        }
    }
}

/// An option with a value, read first: the rest of the command line is
/// read with the value taken.
proof fn lemma_scan_value(name: Seq<char>, v: Seq<char>, rest: Seq<Seq<char>>, st: RawArgs, o: ValueOption)
    requires
        value_option(name) == Some(o),
    ensures
        scan_args(seq![name, v] + rest, 0, st) == scan_args(rest, 0, with_value(st, o, v)),
{
    let args = seq![name, v] + rest;
    assert(args[0] == name);
    assert(args[1] == v);
    lemma_scan_shift(seq![name, v], rest, 0, with_value(st, o, v));
}

/// A flag, read first: the rest of the command line is read with the flag
/// set.
proof fn lemma_scan_flag(name: Seq<char>, rest: Seq<Seq<char>>, st: RawArgs, next: RawArgs)
    requires
        value_option(name) is None,
        is_opt(name, "-d"@, "--debug"@) ==> next == (RawArgs { debug: true, ..st }),
        !is_opt(name, "-d"@, "--debug"@) && is_opt(name, "-h"@, "--help"@) ==> next == (RawArgs { help: true, ..st }),
        is_opt(name, "-d"@, "--debug"@) || is_opt(name, "-h"@, "--help"@),
    ensures
        scan_args(seq![name] + rest, 0, st) == scan_args(rest, 0, next),
{
    let args = seq![name] + rest;
    assert(args[0] == name);
    lemma_scan_shift(seq![name], rest, 0, next);
}

/// What each option does when it is read: `-l`/`--lang v` sets the
/// language, `-c`/`--config v` the configuration file, `-b`/`--builddir v`
/// the build directory, `-w`/`--workspace v` the workspace and `-r`/`--run
/// v` the provider to serve; `-s`/`--select v` and `-f`/`--pathfilter v`
/// add a selected path and a path filter; `-d`/`--debug` and `-h`/`--help`
/// set their flag. Nothing else changes, and the rest of the command line
/// is read after it.
pub proof fn law_option_effects(v: Seq<char>, rest: Seq<Seq<char>>, st: RawArgs)
    ensures
        scan_args(seq!["-l"@, v] + rest, 0, st) == scan_args(rest, 0, RawArgs { language: Some(v), ..st }),
        scan_args(seq!["--lang"@, v] + rest, 0, st) == scan_args(rest, 0, RawArgs { language: Some(v), ..st }),
        scan_args(seq!["-c"@, v] + rest, 0, st) == scan_args(rest, 0, RawArgs { config: Some(v), ..st }),
        scan_args(seq!["--config"@, v] + rest, 0, st) == scan_args(rest, 0, RawArgs { config: Some(v), ..st }),
        scan_args(seq!["-b"@, v] + rest, 0, st) == scan_args(rest, 0, RawArgs { builddir: Some(v), ..st }),
        scan_args(seq!["--builddir"@, v] + rest, 0, st) == scan_args(rest, 0, RawArgs { builddir: Some(v), ..st }),
        scan_args(seq!["-w"@, v] + rest, 0, st) == scan_args(rest, 0, RawArgs { workspace: Some(v), ..st }),
        scan_args(seq!["--workspace"@, v] + rest, 0, st) == scan_args(rest, 0, RawArgs { workspace: Some(v), ..st }),
        scan_args(seq!["-r"@, v] + rest, 0, st) == scan_args(rest, 0, RawArgs { start_service: Some(v), ..st }),
        scan_args(seq!["--run"@, v] + rest, 0, st) == scan_args(rest, 0, RawArgs { start_service: Some(v), ..st }),
        scan_args(seq!["-s"@, v] + rest, 0, st) == scan_args(rest, 0, RawArgs { select: st.select.push(v), ..st }),
        scan_args(seq!["--select"@, v] + rest, 0, st) == scan_args(rest, 0, RawArgs { select: st.select.push(v), ..st }),
        scan_args(seq!["-f"@, v] + rest, 0, st) == scan_args(rest, 0, RawArgs { pathfilter: st.pathfilter.push(v), ..st }),
        scan_args(seq!["--pathfilter"@, v] + rest, 0, st) == scan_args(
            rest,
            0,
            RawArgs { pathfilter: st.pathfilter.push(v), ..st },
        ),
        scan_args(seq!["-d"@] + rest, 0, st) == scan_args(rest, 0, RawArgs { debug: true, ..st }),
        scan_args(seq!["--debug"@] + rest, 0, st) == scan_args(rest, 0, RawArgs { debug: true, ..st }),
        scan_args(seq!["-h"@] + rest, 0, st) == scan_args(rest, 0, RawArgs { help: true, ..st }),
        scan_args(seq!["--help"@] + rest, 0, st) == scan_args(rest, 0, RawArgs { help: true, ..st }),
{
    lemma_option_names();
    lemma_scan_value("-l"@, v, rest, st, ValueOption::Lang);
    lemma_scan_value("--lang"@, v, rest, st, ValueOption::Lang);
    lemma_scan_value("-c"@, v, rest, st, ValueOption::Config);
    lemma_scan_value("--config"@, v, rest, st, ValueOption::Config);
    lemma_scan_value("-b"@, v, rest, st, ValueOption::BuildDir);
    lemma_scan_value("--builddir"@, v, rest, st, ValueOption::BuildDir);
    lemma_scan_value("-w"@, v, rest, st, ValueOption::Workspace);
    lemma_scan_value("--workspace"@, v, rest, st, ValueOption::Workspace);
    lemma_scan_value("-r"@, v, rest, st, ValueOption::Run);
    lemma_scan_value("--run"@, v, rest, st, ValueOption::Run);
    lemma_scan_value("-s"@, v, rest, st, ValueOption::Select);
    lemma_scan_value("--select"@, v, rest, st, ValueOption::Select);
    lemma_scan_value("-f"@, v, rest, st, ValueOption::PathFilter);
    lemma_scan_value("--pathfilter"@, v, rest, st, ValueOption::PathFilter);
    reveal_strlit("-d");
    reveal_strlit("--debug");
    reveal_strlit("-h");
    reveal_strlit("--help");
    lemma_scan_flag("-d"@, rest, st, RawArgs { debug: true, ..st });
    lemma_scan_flag("--debug"@, rest, st, RawArgs { debug: true, ..st });
    lemma_scan_flag("-h"@, rest, st, RawArgs { help: true, ..st });
    lemma_scan_flag("--help"@, rest, st, RawArgs { help: true, ..st });
}

/// What `-t`/`--task v` does when it is read: the first names the task
/// (with the task data after the first `:` of `v`, when there is one), every
/// later one adds a subtask; the rest of the command line is read after it.
pub proof fn law_task_option(name: Seq<char>, v: Seq<char>, rest: Seq<Seq<char>>, st: RawArgs)
    requires
        name == "-t"@ || name == "--task"@,
    ensures
        st.task is Some ==> scan_args(seq![name, v] + rest, 0, st) == scan_args(
            rest,
            0,
            RawArgs { subtask: st.subtask.push(v), ..st },
        ),
        st.task is None && !v.contains(':') ==> scan_args(seq![name, v] + rest, 0, st) == scan_args(
            rest,
            0,
            RawArgs { task: Some(v), ..st },
        ),
        forall|c: int|
            st.task is None && 0 <= c < v.len() && v[c] == ':' && (forall|j: int| 0 <= j < c ==> v[j] != ':')
                ==> scan_args(seq![name, v] + rest, 0, st) == scan_args(
                rest,
                0,
                RawArgs { task: Some(v.take(c)), taskdata: Some(v.skip(c + 1)), ..st },
            ),
{
    lemma_option_names();
    lemma_scan_value(name, v, rest, st, ValueOption::Task);
    if st.task is None {
        if !v.contains(':') {
            assert(!exists|i: int| 0 <= i < v.len() && v[i] == ':');
        }
        assert forall|c: int|
            0 <= c < v.len() && v[c] == ':' && (forall|j: int| 0 <= j < c ==> v[j] != ':') implies colon_at(v)
            == Some(c) by {
            let k = choose|i: int| 0 <= i < v.len() && v[i] == ':' && forall|j: int| 0 <= j < i ==> v[j] != ':';
            assert(0 <= k < v.len() && v[k] == ':' && forall|j: int| 0 <= j < k ==> v[j] != ':');
            if k < c {
            } else if k > c {
            }
        }
    }
}

/// The provider to serve is set only by `-r`/`--run`: reading a command
/// line that sets it (where it was not set before) passes one of them.
pub proof fn law_run_only_from_run_option(args: Seq<Seq<char>>, i: int, st: RawArgs, raw: RawArgs)
    requires
        0 <= i,
        scan_args(args, i, st) == Ok::<RawArgs, Seq<char>>(raw),
        raw.start_service != st.start_service,
    ensures
        exists|j: int| i <= j < args.len() && (args[j] == "-r"@ || args[j] == "--run"@),
    decreases args.len() - i,
{
    if i < args.len() {
        let a = args[i];
        match value_option(a) {
            Some(o) => {
                if i + 1 < args.len() {
                    let next = with_value(st, o, args[i + 1]);
                    if o == ValueOption::Run {
                        assert(is_opt(a, "-r"@, "--run"@));
                    } else {
                        assert(next.start_service == st.start_service);
                        law_run_only_from_run_option(args, i + 2, next, raw);
                    }
                }
            },
            None => {
                if is_opt(a, "-d"@, "--debug"@) {
                    law_run_only_from_run_option(args, i + 1, RawArgs { debug: true, ..st }, raw);
                } else if is_opt(a, "-h"@, "--help"@) {
                    law_run_only_from_run_option(args, i + 1, RawArgs { help: true, ..st }, raw);
                }
            },
        }
    }
}

/// An option that needs a value but ends the command line is refused,
/// naming the option by its long name.
pub proof fn law_missing_value(st: RawArgs)
    ensures
        scan_args(seq!["-l"@], 0, st) == Err::<RawArgs, Seq<char>>("Missing value for "@ + "--lang"@),
        scan_args(seq!["--lang"@], 0, st) == Err::<RawArgs, Seq<char>>("Missing value for "@ + "--lang"@),
        scan_args(seq!["-t"@], 0, st) == Err::<RawArgs, Seq<char>>("Missing value for "@ + "--task"@),
        scan_args(seq!["--task"@], 0, st) == Err::<RawArgs, Seq<char>>("Missing value for "@ + "--task"@),
        scan_args(seq!["-s"@], 0, st) == Err::<RawArgs, Seq<char>>("Missing value for "@ + "--select"@),
        scan_args(seq!["--select"@], 0, st) == Err::<RawArgs, Seq<char>>("Missing value for "@ + "--select"@),
        scan_args(seq!["-c"@], 0, st) == Err::<RawArgs, Seq<char>>("Missing value for "@ + "--config"@),
        scan_args(seq!["--config"@], 0, st) == Err::<RawArgs, Seq<char>>("Missing value for "@ + "--config"@),
        scan_args(seq!["-f"@], 0, st) == Err::<RawArgs, Seq<char>>("Missing value for "@ + "--pathfilter"@),
        scan_args(seq!["--pathfilter"@], 0, st) == Err::<RawArgs, Seq<char>>("Missing value for "@ + "--pathfilter"@),
        scan_args(seq!["-b"@], 0, st) == Err::<RawArgs, Seq<char>>("Missing value for "@ + "--builddir"@),
        scan_args(seq!["--builddir"@], 0, st) == Err::<RawArgs, Seq<char>>("Missing value for "@ + "--builddir"@),
        scan_args(seq!["-w"@], 0, st) == Err::<RawArgs, Seq<char>>("Missing value for "@ + "--workspace"@),
        scan_args(seq!["--workspace"@], 0, st) == Err::<RawArgs, Seq<char>>("Missing value for "@ + "--workspace"@),
        scan_args(seq!["-r"@], 0, st) == Err::<RawArgs, Seq<char>>("Missing value for "@ + "--run"@),
        scan_args(seq!["--run"@], 0, st) == Err::<RawArgs, Seq<char>>("Missing value for "@ + "--run"@),
{
    lemma_option_names();
    reveal_strlit("--lang");
    reveal_strlit("--task");
    reveal_strlit("--select");
    reveal_strlit("--config");
    reveal_strlit("--pathfilter");
    reveal_strlit("--builddir");
    reveal_strlit("--workspace");
    reveal_strlit("--run");
    reveal_strlit("Missing value for ");
    assert(seq!["-l"@][0] == "-l"@);
    assert(seq!["--lang"@][0] == "--lang"@);
    assert(seq!["-t"@][0] == "-t"@);
    assert(seq!["--task"@][0] == "--task"@);
    assert(seq!["-s"@][0] == "-s"@);
    assert(seq!["--select"@][0] == "--select"@);
    assert(seq!["-c"@][0] == "-c"@);
    assert(seq!["--config"@][0] == "--config"@);
    assert(seq!["-f"@][0] == "-f"@);
    assert(seq!["--pathfilter"@][0] == "--pathfilter"@);
    assert(seq!["-b"@][0] == "-b"@);
    assert(seq!["--builddir"@][0] == "--builddir"@);
    assert(seq!["-w"@][0] == "-w"@);
    assert(seq!["--workspace"@][0] == "--workspace"@);
    assert(seq!["-r"@][0] == "-r"@);
    assert(seq!["--run"@][0] == "--run"@);
}

/// Anything that is not one of the options is refused, and named.
pub proof fn law_unknown_argument(a: Seq<char>, rest: Seq<Seq<char>>, st: RawArgs)
    requires
        a != "-l"@,
        a != "--lang"@,
        a != "-t"@,
        a != "--task"@,
        a != "-s"@,
        a != "--select"@,
        a != "-c"@,
        a != "--config"@,
        a != "-f"@,
        a != "--pathfilter"@,
        a != "-b"@,
        a != "--builddir"@,
        a != "-w"@,
        a != "--workspace"@,
        a != "-r"@,
        a != "--run"@,
        a != "-d"@,
        a != "--debug"@,
        a != "-h"@,
        a != "--help"@,
    ensures
        scan_args(seq![a] + rest, 0, st) == Err::<RawArgs, Seq<char>>("Unknown argument: "@ + a),
{
    assert((seq![a] + rest)[0] == a);
}

} // verus!
