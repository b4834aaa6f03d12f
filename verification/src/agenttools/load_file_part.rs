//! The tool that loads a range of lines of a file.

use vstd::prelude::*;
use crate::agenttools::aitooltype::{ResultToJson, ResultToString, Validatable};
use crate::agenttools::reply::{id_object, id_object_text, tool_reply, tool_reply_text};
use crate::aimessage::{id_line, id_line_string, AIMessageId};
use crate::json::{json_as_i64, json_as_str, json_get, json_text, JsonValue};
use crate::text::{append_str, from_chars, join, join_chars, lines, lines_chars, to_chars};

verus! {

/// A request for `count` lines starting at line `start` (0-based) of `path`.
#[derive(Debug)]
pub struct LoadFilePart {
    pub path: String,
    pub start: usize,
    pub count: usize,
}

/// Why the tool failed.
#[derive(Copy, Clone, Debug, PartialEq, Eq, Structural)]
pub enum LoadFilePartErrorType {
    DecodeError,
    Forbidden,
    NotFound,
    ReadFailed,
}

/// A failure with its detail.
#[derive(Clone, Debug)]
pub struct LoadFilePartError {
    pub err_type: LoadFilePartErrorType,
    pub err_info: String,
}

/// The requested lines, joined with line feeds.
#[derive(Clone, Debug)]
pub struct LoadFilePartResult {
    pub data: String,
    pub start: usize,
    pub count: usize,
}

/// The member that holds the first line (`start`, else `pos`).
pub open spec fn start_field(payload: JsonValue) -> Option<JsonValue> {
    match json_get(payload, "start"@) {
        Some(v) => Some(v),
        None => json_get(payload, "pos"@),
    }
}

/// The member that holds the number of lines (`count`, else `len`).
pub open spec fn count_field(payload: JsonValue) -> Option<JsonValue> {
    match json_get(payload, "count"@) {
        Some(v) => Some(v),
        None => json_get(payload, "len"@),
    }
}

/// The JSON text of an optional member, `null` when absent.
pub open spec fn field_text(v: Option<JsonValue>) -> Seq<char> {
    match v {
        Some(x) => json_text(x),
        None => "null"@,
    }
}

/// An integer member read with `as_i64`.
pub open spec fn int_of(v: Option<JsonValue>) -> Option<i64> {
    match v {
        Some(x) => json_as_i64(x),
        None => None,
    }
}

/// A string member read with `as_str`.
pub open spec fn str_of(v: Option<JsonValue>) -> Option<Seq<char>> {
    match v {
        Some(x) => json_as_str(x),
        None => None,
    }
}

/// The 0-based first line: the given 1-based line, truncated to `i32`, minus
/// one, as `usize` (line 0 wraps to the largest `usize`).
pub open spec fn first_line(start: i64) -> usize {
    (((start as i32) - 1) as i32) as usize
}

/// `r` is an error of kind `t` with detail `info`.
pub open spec fn err_is<T>(r: Result<T, LoadFilePartError>, t: LoadFilePartErrorType, info: Seq<char>) -> bool {
    r matches Err(e) && e.err_type == t && e.err_info@ == info
}

/// What decoding a payload gives before the path is resolved: the error, or
/// the file name with the first line and the count.
pub open spec fn decode_part(payload: JsonValue) -> Result<(Seq<char>, i64, i64), Seq<char>> {
    match str_of(json_get(payload, "file"@)) {
        None => Err("invalid file: "@ + field_text(json_get(payload, "file"@))),
        Some(file) => match int_of(start_field(payload)) {
            None => Err("invalid start: "@ + field_text(start_field(payload))),
            Some(start) => match int_of(count_field(payload)) {
                None => Err("invalid count: "@ + field_text(count_field(payload))),
                Some(count) => Ok((file, start, count)),
            },
        },
    }
}

/// Line `i` of `ls`, or a line feed past the end.
pub open spec fn padded_line(ls: Seq<Seq<char>>, i: int) -> Seq<char> {
    if 0 <= i < ls.len() {
        ls[i]
    } else {
        "\n"@
    }
}

/// The text the tool returns: `count` lines of `data` from line `start`
/// (missing lines read as a line feed), joined with line feeds.
pub open spec fn part_text(data: Seq<char>, start: nat, count: nat) -> Seq<char> {
    join(Seq::new(count, |j: int| padded_line(lines(data), start + j)), "\n"@)
}

/// The `Debug` name of an error kind.
pub open spec fn err_name(t: LoadFilePartErrorType) -> Seq<char> {
    match t {
        LoadFilePartErrorType::DecodeError => "DecodeError"@,
        LoadFilePartErrorType::Forbidden => "Forbidden"@,
        LoadFilePartErrorType::NotFound => "NotFound"@,
        LoadFilePartErrorType::ReadFailed => "ReadFailed"@,
    }
}

fn decode_err(prefix: &str, v: Option<&JsonValue>) -> (r: LoadFilePartError)
    ensures
        r.err_type == LoadFilePartErrorType::DecodeError,
        r.err_info@ == prefix@ + field_text(match v {
            Some(x) => Some(*x),
            None => None,
        }),
{
    let mut t = to_chars(prefix);
    match v {
        Some(x) => append_str(&mut t, x.to_json_text().as_str()),
        None => append_str(&mut t, "null"),
    }
    LoadFilePartError { err_type: LoadFilePartErrorType::DecodeError, err_info: from_chars(t.as_slice()) }
}

fn first_member<'b>(payload: &'b JsonValue, a: &str, b: &str) -> (r: Option<&'b JsonValue>)
    ensures
        match r {
            Some(x) => Some(*x) == match json_get(*payload, a@) {
                Some(v) => Some(v),
                None => json_get(*payload, b@),
            },
            None => json_get(*payload, a@) is None && json_get(*payload, b@) is None,
        },
{
    match payload.get(a) {
        Some(v) => Some(v),
        None => payload.get(b),
    }
}

/// What decoding `payload` with `resolve` gives: `r` is an outcome that
/// `from_json` may return.
pub open spec fn load_file_part_decoded<F: FnOnce(&str) -> Option<String>>(payload: JsonValue, resolve: F, r: Result<LoadFilePart, LoadFilePartError>) -> bool {
    match decode_part(payload) {
        Err(info) => err_is(r, LoadFilePartErrorType::DecodeError, info),
        Ok((file, start, count)) => exists|file_str: &str, res: Option<String>|
            file_str@ == file && call_ensures(resolve, (file_str,), res) && match res {
                None => err_is(r, LoadFilePartErrorType::DecodeError, "invalid file path: "@ + file),
                Some(p) => r matches Ok(lfp) && lfp.path == p && lfp.start == first_line(
                    start,
                ) && lfp.count == count as usize,
            },
    }
}

impl LoadFilePart {
    /// Decodes a request: `file`, the 1-based `start` (or `pos`) and the
    /// `count` (or `len`) of lines; then resolves the file with `resolve`.
    /// A missing or mistyped member, or a file that does not resolve, gives
    /// a decode error that names it.
    pub fn from_json<F: FnOnce(&str) -> Option<String>>(payload: &JsonValue, resolve: F) -> (r:
        Result<LoadFilePart, LoadFilePartError>)
        requires
            forall|s: &str| call_requires(resolve, (s,)),
            int_of(start_field(*payload)) matches Some(st) ==> (st as i32) != i32::MIN,
        ensures
            load_file_part_decoded(*payload, resolve, r),
    {
        let file = match payload.get("file") {
            Some(f) => match f.as_str() {
                Some(s) => s,
                None => return Err(decode_err("invalid file: ", Some(f))),
            },
            None => return Err(decode_err("invalid file: ", None)),
        };
        let sf = first_member(payload, "start", "pos");
        let start = match sf {
            Some(v) => match v.as_i64() {
                Some(x) => x,
                None => return Err(decode_err("invalid start: ", sf)),
            },
            None => return Err(decode_err("invalid start: ", sf)),
        };
        let cf = first_member(payload, "count", "len");
        let count = match cf {
            Some(v) => match v.as_i64() {
                Some(x) => x,
                None => return Err(decode_err("invalid count: ", cf)),
            },
            None => return Err(decode_err("invalid count: ", cf)),
        };
        let res = resolve(file);
        match res {
            None => {
                let mut t = to_chars("invalid file path: ");
                append_str(&mut t, file);
                Err(LoadFilePartError {
                    err_type: LoadFilePartErrorType::DecodeError,
                    err_info: from_chars(t.as_slice()),
                })
            },
            Some(path) => {
                let s32: i32 = start as i32;
                Ok(LoadFilePart { path, start: (s32 - 1) as usize, count: count as usize })
            },
        }
    }

    /// Loads the lines: refused when the path is not allowed, an error when it
    /// does not exist or `read` fails; otherwise `count` lines from `start`.
    pub fn execute<R: FnOnce(&str) -> Option<String>>(&self, allowed: bool, exists: bool, read: R) -> (r:
        Result<LoadFilePartResult, LoadFilePartError>)
        requires
            forall|q: &str| allowed && exists && q@ == self.path@ ==> call_requires(read, (q,)),
        ensures
            !allowed ==> err_is(r, LoadFilePartErrorType::Forbidden, self.path@),
            allowed && !exists ==> err_is(r, LoadFilePartErrorType::NotFound, self.path@),
            allowed && exists ==> exists|q: &str, out: Option<String>| q@ == self.path@ && call_ensures(read, (q,), out) && match out {
                None => err_is(r, LoadFilePartErrorType::ReadFailed, self.path@),
                Some(data) => r matches Ok(x) && x.data@ == part_text(data@, self.start as nat, self.count as nat)
                    && x.start == self.start && x.count == self.count,
            },
    {
        if !allowed {
            return Err(LoadFilePartError::new(LoadFilePartErrorType::Forbidden, self.path.as_str()));
        }
        if !exists {
            return Err(LoadFilePartError::new(LoadFilePartErrorType::NotFound, self.path.as_str()));
        }
        let out = read(self.path.as_str());
        match out {
            None => Err(LoadFilePartError::new(LoadFilePartErrorType::ReadFailed, self.path.as_str())),
            Some(data) => {
                let text = select_lines(data.as_str(), self.start, self.count);
                Ok(LoadFilePartResult { data: text, start: self.start, count: self.count })
            },
        }
    }
}

/// `count` lines of `data` from line `start`, missing lines read as a line feed,
/// joined with line feeds.
pub fn select_lines(data: &str, start: usize, count: usize) -> (r: String)
    ensures
        r@ == part_text(data@, start as nat, count as nat),
{
    let dc = to_chars(data);
    let ls = lines_chars(dc.as_slice());
    let ghost lsv = lines(data@);
    let n = ls.len();
    let mut parts: Vec<Vec<char>> = Vec::new();
    let mut j: usize = 0;
    while j < count
        invariant
            n == ls@.len(),
            lsv == ls@.map_values(|l: Vec<char>| l@),
            lsv == lines(data@),
            j <= count,
            parts@.len() == j,
            forall|k: int| 0 <= k < j ==> parts@[k]@ == padded_line(lsv, start + k),
        decreases count - j,
    {
        if start < n && j < n - start {
            let line = ls[start + j].clone();
            assert(line@ == lsv[start + j]);
            parts.push(line);
        } else {
            parts.push(vec!['\n']);
            assert(parts@.last()@ =~= "\n"@) by {
                reveal_strlit("\n");
            }
        }
        j = j + 1;
    }
    let nl = vec!['\n'];
    assert(nl@ =~= "\n"@) by {
        reveal_strlit("\n");
    }
    let r = join_chars(&parts, nl.as_slice());
    assert(parts@.map_values(|p: Vec<char>| p@) =~= Seq::new(
        count as nat,
        |k: int| padded_line(lsv, start + k),
    ));
    from_chars(r.as_slice())
}

impl LoadFilePartError {
    /// An error whose detail is the path.
    pub fn new(err_type: LoadFilePartErrorType, path: &str) -> (r: Self)
        ensures
            r.err_type == err_type,
            r.err_info@ == path@,
    {
        Self { err_type, err_info: path.to_string() }
    }

    /// `<kind>: <detail>` (its `Display` output).
    pub fn to_string(&self) -> (r: String)
        ensures
            r@ == err_name(self.err_type) + ": "@ + self.err_info@,
    {
        let mut t = to_chars(match self.err_type {
            LoadFilePartErrorType::DecodeError => "DecodeError",
            LoadFilePartErrorType::Forbidden => "Forbidden",
            LoadFilePartErrorType::NotFound => "NotFound",
            LoadFilePartErrorType::ReadFailed => "ReadFailed",
        });
        append_str(&mut t, ": ");
        append_str(&mut t, self.err_info.as_str());
        from_chars(t.as_slice())
    }
}

impl LoadFilePartResult {
    /// `call_<n>: <lines>`.
    pub fn to_string(&self, message_id: AIMessageId) -> (r: String)
        ensures
            r@ == id_line(message_id, self.data@),
    {
        id_line_string(message_id, self.data.as_str())
    }
}

impl ResultToString for Result<LoadFilePartResult, LoadFilePartError> {
    fn to_msg_string(&self, msg_id: AIMessageId) -> (r: String)
        ensures
            r@ == match self {
                Ok(ok) => id_line(msg_id, ok.data@),
                Err(e) => err_name(e.err_type) + ": "@ + e.err_info@,
            },
    {
        match self {
            Ok(ok) => ok.to_string(msg_id),
            Err(err) => err.to_string(),
        }
    }
}

impl Validatable for Result<LoadFilePartResult, LoadFilePartError> {
    fn is_valid(&self) -> (b: bool)
        ensures
            b == self is Ok,
    {
        self.is_ok()
    }
}

} // verus!

verus! {

/// The text of the reply to a failed call of kind `t` with detail `info`.
pub open spec fn part_error_message(t: LoadFilePartErrorType, info: Seq<char>) -> Seq<char> {
    match t {
        LoadFilePartErrorType::DecodeError => "[load_file_part] ERROR: decode error: "@ + info,
        LoadFilePartErrorType::Forbidden => "[load_file_part] ERROR: not allowed to read: "@ + info,
        LoadFilePartErrorType::NotFound => "[load_file_part] ERROR: file not found: "@ + info,
        LoadFilePartErrorType::ReadFailed => "[load_file_part] ERROR: read failed: "@ + info,
    }
}

/// The text of the reply that returns `r` to the call `id`.
pub open spec fn part_reply(r: Result<LoadFilePartResult, LoadFilePartError>, id: AIMessageId) -> Seq<char> {
    match r {
        Ok(ok) => tool_reply_text(id_object_text(id), ok.data@),
        Err(e) => tool_reply_text(id_object_text(id), part_error_message(e.err_type, e.err_info@)),
    }
}

impl LoadFilePartResult {
    /// The reply that returns the output to the call `message_id`.
    pub fn to_json(&self, message_id: AIMessageId) -> (r: JsonValue)
        ensures
            json_text(r) == tool_reply_text(id_object_text(message_id), self.data@),
    {
        tool_reply(id_object(message_id), self.data.clone())
    }
}

impl LoadFilePartError {
    /// The reply that reports the failure to the call `message_id`.
    pub fn to_json(&self, message_id: AIMessageId) -> (r: JsonValue)
        ensures
            json_text(r) == tool_reply_text(id_object_text(message_id), part_error_message(self.err_type, self.err_info@)),
    {
        let prefix: &str = match self.err_type {
            LoadFilePartErrorType::DecodeError => "[load_file_part] ERROR: decode error: ",
            LoadFilePartErrorType::Forbidden => "[load_file_part] ERROR: not allowed to read: ",
            LoadFilePartErrorType::NotFound => "[load_file_part] ERROR: file not found: ",
            LoadFilePartErrorType::ReadFailed => "[load_file_part] ERROR: read failed: ",
        };
        let mut msg = to_chars(prefix);
        append_str(&mut msg, self.err_info.as_str());
        tool_reply(id_object(message_id), from_chars(msg.as_slice()))
    }
}

impl ResultToJson for Result<LoadFilePartResult, LoadFilePartError> {
    fn to_json(&self, msg_id: AIMessageId) -> (r: JsonValue)
        ensures
            json_text(r) == part_reply(*self, msg_id),
    {
        match self {
            Ok(ok) => ok.to_json(msg_id),
            Err(err) => err.to_json(msg_id),
        }
    }
}

} // verus!
