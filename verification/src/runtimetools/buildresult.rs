//! The result of running a build command.

use vstd::prelude::*;
use crate::text::{append_lines, append_str, from_chars, lines_text, signed_decimal, signed_decimal_chars, strings_text, to_chars};

verus! {

/// The exit code of a build, where it ran and what it printed.
#[derive(Clone, Debug)]
pub struct Buildresult {
    pub result: i32,
    pub projectpath: String,
    pub executionpath: String,
    pub output: Vec<String>,
}

/// The report of a build with the given code, paths and output lines.
pub open spec fn report_text(result: i32, projectpath: Seq<char>, executionpath: Seq<char>, output: Seq<Seq<char>>) -> Seq<char> {
    "result: "@ + signed_decimal(result as int) + " "@ + (if result != 0 {
        " => has_error"@
    } else {
        " => valid "@
    }) + "\n"@ + "in:  "@ + projectpath + "\n"@ + "out: "@ + executionpath + "\n"@ + lines_text(output)
}

/// The report of a build result (its `Display` output).
pub open spec fn buildresult_text(b: Buildresult) -> Seq<char> {
    report_text(b.result, b.projectpath@, b.executionpath@, strings_text(b.output@))
}

/// The report of a build result with only its first `n` output lines.
pub open spec fn limited_text(b: Buildresult, n: nat) -> Seq<char> {
    report_text(
        b.result,
        b.projectpath@,
        b.executionpath@,
        strings_text(b.output@).take(if n < b.output@.len() { n as int } else { b.output@.len() as int }),
    )
}

impl Buildresult {
    /// A result with the given parts.
    pub fn new(result: i32, projectpath: String, executionpath: String, output: Vec<String>) -> (r: Self)
        ensures
            r == (Buildresult { result, projectpath, executionpath, output }),
    {
        Self { result, projectpath, executionpath, output }
    }

    /// A placeholder that asks for a build: code 1, no paths, one empty line.
    pub fn new_need_build() -> (r: Self)
        ensures
            r.result == 1,
            r.projectpath@.len() == 0,
            r.executionpath@.len() == 0,
            strings_text(r.output@) == seq![Seq::<char>::empty()],
    {
        let r = Self { result: 1, projectpath: String::new(), executionpath: String::new(), output: vec![String::new()] };
        assert(strings_text(r.output@) =~= seq![Seq::<char>::empty()]);
        r
    }

    /// A placeholder for a build that is not needed: code 0, no paths, one
    /// empty line.
    pub fn new_no_build() -> (r: Self)
        ensures
            r.result == 0,
            r.projectpath@.len() == 0,
            r.executionpath@.len() == 0,
            strings_text(r.output@) == seq![Seq::<char>::empty()],
    {
        let r = Self { result: 0, projectpath: String::new(), executionpath: String::new(), output: vec![String::new()] };
        assert(strings_text(r.output@) =~= seq![Seq::<char>::empty()]);
        r
    }

    /// Whether the build failed (a non-zero code).
    pub fn has_error(&self) -> (b: bool)
        ensures
            b == (self.result != 0),
    {
        self.result != 0
    }

    /// Whether this is a placeholder (no project path).
    pub fn is_dummy(&self) -> (b: bool)
        ensures
            b == (self.projectpath@.len() == 0),
    {
        self.projectpath.as_str().is_empty()
    }

    /// The same result with only the first `line_count` output lines.
    pub fn limit_lines(&self, line_count: usize) -> (r: Self)
        ensures
            r.result == self.result,
            r.projectpath == self.projectpath,
            r.executionpath == self.executionpath,
            r.output@ == self.output@.take(
                if line_count < self.output@.len() {
                    line_count as int
                } else {
                    self.output@.len() as int
                },
            ),
    {
        let n = if line_count < self.output.len() {
            line_count
        } else {
            self.output.len()
        };
        let mut output: Vec<String> = Vec::new();
        for i in 0..n
            invariant
                n <= self.output@.len(),
                output@ == self.output@.take(i as int),
        {
            output.push(self.output[i].clone());
            assert(self.output@.take(i + 1) =~= self.output@.take(i as int).push(self.output@[i as int]));
        }
        Self {
            result: self.result,
            projectpath: self.projectpath.clone(),
            executionpath: self.executionpath.clone(),
            output,
        }
    }

    /// The report: the code and whether it is an error, the two paths, then
    /// the output lines.
    pub fn to_string(&self) -> (r: String)
        ensures
            r@ == buildresult_text(*self),
    {
        let mut v = to_chars("result: ");
        let d = signed_decimal_chars(self.result as i64);
        crate::text::append_chars(&mut v, d.as_slice());
        append_str(&mut v, " ");
        if self.result != 0 {
            append_str(&mut v, " => has_error");
        } else {
            append_str(&mut v, " => valid ");
        }
        append_str(&mut v, "\n");
        append_str(&mut v, "in:  ");
        append_str(&mut v, self.projectpath.as_str());
        append_str(&mut v, "\n");
        append_str(&mut v, "out: ");
        append_str(&mut v, self.executionpath.as_str());
        append_str(&mut v, "\n");
        append_lines(&mut v, &self.output);
        assert(v@ =~= buildresult_text(*self));
        from_chars(v.as_slice())
    }
}

} // verus!
