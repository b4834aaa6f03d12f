//! Running an external command and collecting what it prints. The process
//! itself is started by the caller; this module decides what is run and how
//! the output is gathered.

use vstd::prelude::*;
use crate::text::{append_str, from_chars, opt_text, to_chars, trim_end, trim_end_chars, strings_text};

verus! {

/// A command (program and arguments) and the directory to run it in.
pub struct DoProcess {
    pub cmd: Vec<String>,
    pub cwd: Option<String>,
}


/// The `RUSTFLAGS` a build is run with: a path remapping of `src` below the
/// current directory and `-Dwarnings`, after the flags already set; none
/// when the current directory is not known.
pub open spec fn merged_flags(current_dir: Option<Seq<char>>, existing: Option<Seq<char>>) -> Option<Seq<char>> {
    match current_dir {
        None => None,
        Some(d) => {
            let remap = "--remap-path-prefix src="@ + d + "/src"@;
            Some(
                match existing {
                    Some(e) => e + " "@ + remap + " -Dwarnings"@,
                    None => remap + " -Dwarnings"@,
                },
            )
        },
    }
}

/// A copy of the strings.
pub fn copy_strings(v: &Vec<String>) -> (r: Vec<String>)
    ensures
        r@ == v@,
{
    let mut r: Vec<String> = Vec::new();
    for i in 0..v.len()
        invariant
            r@ == v@.take(i as int),
    {
        r.push(v[i].clone());
        assert(v@.take(i + 1) =~= v@.take(i as int).push(v@[i as int]));
    }
    assert(v@.take(v@.len() as int) =~= v@);
    r
}

/// Appends all of `more` to `v`.
fn append_strings(v: &mut Vec<String>, more: Vec<String>)
    ensures
        final(v)@ == old(v)@ + more@,
{
    let ghost v0 = v@;
    for s in it: more
        invariant
            it.seq() == more@,
            v@ == v0 + more@.take(it.index() as int),
    {
        v.push(s);
        assert(more@.take(it.index() + 1) =~= more@.take(it.index() as int).push(s));
    }
    assert(more@.take(more@.len() as int) =~= more@);
}

/// The flags a build is run with (see `merged_flags`).
pub fn rustflags(current_dir: Option<&str>, existing: Option<&str>) -> (r: Option<String>)
    ensures
        opt_text(r) == merged_flags(
            match current_dir {
                Some(d) => Some(d@),
                None => None,
            },
            match existing {
                Some(e) => Some(e@),
                None => None,
            },
        ),
{
    match current_dir {
        None => None,
        Some(d) => {
            let mut remap = to_chars("--remap-path-prefix src=");
            append_str(&mut remap, d);
            append_str(&mut remap, "/src");
            let mut v = match existing {
                Some(e) => {
                    let mut v = to_chars(e);
                    append_str(&mut v, " ");
                    crate::text::append_chars(&mut v, remap.as_slice());
                    v
                },
                None => remap,
            };
            append_str(&mut v, " -Dwarnings");
            proof {
                let remap_s = "--remap-path-prefix src="@ + d@ + "/src"@;
                match existing {
                    Some(e) => assert(v@ =~= e@ + " "@ + remap_s + " -Dwarnings"@),
                    None => assert(v@ =~= remap_s + " -Dwarnings"@),
                }
            }
            Some(from_chars(v.as_slice()))
        },
    }
}

impl DoProcess {
    /// The command `cmd`, run in `cwd`.
    pub fn from_str_slice(cmd: &[&str], cwd: &str) -> (r: Self)
        ensures
            strings_text(r.cmd@) == Seq::new(cmd@.len(), |i: int| cmd@[i]@),
            opt_text(r.cwd) == Some(cwd@),
    {
        let mut v: Vec<String> = Vec::new();
        for i in 0..cmd.len()
            invariant
                v@.len() == i,
                forall|j: int| 0 <= j < i ==> #[trigger] v@[j]@ == cmd@[j]@,
        {
            v.push(cmd[i].to_string());
        }
        assert(strings_text(v@) =~= Seq::new(cmd@.len(), |i: int| cmd@[i]@));
        Self { cmd: v, cwd: Some(cwd.to_string()) }
    }

    /// The command `cmd`, run in `cwd`.
    pub fn from_string_vec(cmd: &Vec<String>, cwd: &str) -> (r: Self)
        ensures
            r.cmd@ == cmd@,
            opt_text(r.cwd) == Some(cwd@),
    {
        Self { cmd: copy_strings(cmd), cwd: Some(cwd.to_string()) }
    }

    /// Runs the command with `spawn` and collects its output. An empty
    /// command is not run (`spawn` may only be asked to run one that is not
    /// empty) and gives code 0 and no lines. Otherwise `spawn` runs it (in the directory, with `RUSTFLAGS` as `merged_flags` gives
    /// them) and reports the exit code and the lines of standard output and
    /// standard error; these are appended to `lines`, output first, and the
    /// code is returned with all of `lines`.
    pub fn run_to_lines_combined<S: Fn(&Vec<String>, &Option<String>, &Option<String>) -> (i32, Vec<String>, Vec<String>)>(
        &self,
        lines: &mut Vec<String>,
        current_dir: Option<&str>,
        existing_flags: Option<&str>,
        spawn: &S,
    ) -> (r: (i32, Vec<String>))
        requires
            forall|c: &Vec<String>, d: &Option<String>, f: &Option<String>| c@.len() > 0 ==> call_requires(*spawn, (c, d, f)),
        ensures
            self.cmd@.len() == 0 ==> r.0 == 0 && r.1@.len() == 0 && final(lines)@ == old(lines)@,
            self.cmd@.len() > 0 ==> exists|flags: Option<String>, out: (i32, Vec<String>, Vec<String>)|
                {
                    &&& opt_text(flags) == merged_flags(
                        match current_dir {
                            Some(d) => Some(d@),
                            None => None,
                        },
                        match existing_flags {
                            Some(e) => Some(e@),
                            None => None,
                        },
                    )
                    &&& call_ensures(*spawn, (&self.cmd, &self.cwd, &flags), out)
                    &&& final(lines)@ == old(lines)@ + out.1@ + out.2@
                    &&& r.0 == out.0
                    &&& r.1@ == final(lines)@
                },
    {
        if self.cmd.len() == 0 {
            return (0i32, Vec::new());
        }
        let flags = rustflags(current_dir, existing_flags);
        let out = spawn(&self.cmd, &self.cwd, &flags);
        let ghost o = out;
        let (code, out_lines, err_lines) = out;
        append_strings(lines, out_lines);
        append_strings(lines, err_lines);
        (code, copy_strings(lines))
    }

    /// Runs the command with `spawn` and collects standard output and
    /// standard error apart. An empty command is not run (`spawn` may only
    /// be asked to run one that is not empty) and gives code 0 and no lines. Otherwise `spawn` runs it in the directory and reports the
    /// exit code and the lines it read from each stream, with their line
    /// ends; each line, with trailing white space removed, is appended to
    /// `out_lines` or `err_lines`, and the code is returned with both lists.
    pub fn run_to_lines_separated<S: Fn(&Vec<String>, &Option<String>) -> (i32, Vec<String>, Vec<String>)>(
        &self,
        out_lines: &mut Vec<String>,
        err_lines: &mut Vec<String>,
        spawn: &S,
    ) -> (r: (i32, Vec<String>, Vec<String>))
        requires
            forall|c: &Vec<String>, d: &Option<String>| c@.len() > 0 ==> call_requires(*spawn, (c, d)),
        ensures
            self.cmd@.len() == 0 ==> r.0 == 0 && r.1@.len() == 0 && r.2@.len() == 0 && final(out_lines)@
                == old(out_lines)@ && final(err_lines)@ == old(err_lines)@,
            self.cmd@.len() > 0 ==> exists|out: (i32, Vec<String>, Vec<String>)|
                {
                    &&& call_ensures(*spawn, (&self.cmd, &self.cwd), out)
                    &&& strings_text(final(out_lines)@) == strings_text(old(out_lines)@) + Seq::new(
                        out.1@.len(),
                        |i: int| trim_end(out.1@[i]@),
                    )
                    &&& strings_text(final(err_lines)@) == strings_text(old(err_lines)@) + Seq::new(
                        out.2@.len(),
                        |i: int| trim_end(out.2@[i]@),
                    )
                    &&& r.0 == out.0
                    &&& r.1@ == final(out_lines)@
                    &&& r.2@ == final(err_lines)@
                },
    {
        if self.cmd.len() == 0 {
            return (0i32, Vec::new(), Vec::new());
        }
        let out = spawn(&self.cmd, &self.cwd);
        let ghost o = out;
        let (code, raw_out, raw_err) = out;
        push_trimmed(out_lines, &raw_out);
        push_trimmed(err_lines, &raw_err);
        (code, copy_strings(out_lines), copy_strings(err_lines))
    }
}

/// Appends each of `raw`, with trailing white space removed, to `v`.
fn push_trimmed(v: &mut Vec<String>, raw: &Vec<String>)
    ensures
        strings_text(final(v)@) == strings_text(old(v)@) + Seq::new(raw@.len(), |i: int| trim_end(raw@[i]@)),
{
    let ghost v0 = v@;
    for i in 0..raw.len()
        invariant
            v@.len() == v0.len() + i,
            forall|j: int| 0 <= j < v0.len() ==> #[trigger] v@[j] == v0[j],
            forall|j: int| 0 <= j < i ==> #[trigger] v@[v0.len() + j]@ == trim_end(raw@[j]@),
    {
        let c = to_chars(raw[i].as_str());
        let t = trim_end_chars(c.as_slice());
        v.push(from_chars(t.as_slice()));
    }
    let ghost expected = strings_text(v0) + Seq::new(raw@.len(), |i: int| trim_end(raw@[i]@));
    assert forall|k: int| 0 <= k < v@.len() implies #[trigger] strings_text(v@)[k] == expected[k] by {
        if k >= v0.len() {
            let j = k - v0.len();
            assert(v@[v0.len() + j]@ == trim_end(raw@[j]@));
        } else {
            assert(v@[k] == v0[k]);
        }
    }
    assert(strings_text(v@) =~= expected);
}

} // verus!
