//! The tool that scans a directory (for now the same listing as `list_dir`).

use vstd::prelude::*;
use crate::agenttools::aitooltype::{ResultToJson, ResultToString, Validatable};
use crate::agenttools::reply::{id_object, id_object_text, tool_reply, tool_reply_text};
use crate::agenttools::load_file_part::str_of;
use crate::aimessage::{id_line, id_line_string, AIMessageId};
use crate::json::{json_get, json_text, JsonValue};
use crate::text::{append_str, debug_quote, debug_text, from_chars, join, join_chars, to_chars};
use crate::agenttools::list_dir::{list_dir_err_name, list_dir_outcome};

verus! {

/// A request on `path`.
#[derive(Debug)]
pub struct ScanDir {
    pub path: String,
}

/// Why the tool failed.
#[derive(Copy, Clone, Debug, PartialEq, Eq, Structural)]
pub enum ScanDirErrorType {
    DecodeError,
    Forbidden,
    NotFound,
    ReadFailed,
}

/// A failure with its detail (the path, unless said otherwise).
#[derive(Clone, Debug)]
pub struct ScanDirError {
    pub err_type: ScanDirErrorType,
    pub err_info: String,
}

/// The tool's output.
#[derive(Clone, Debug)]
pub struct ScanDirResult {
    pub data: String,
}

/// `r` is an error of kind `t` with detail `info`.
pub open spec fn scan_dir_err_is<T>(r: Result<T, ScanDirError>, t: ScanDirErrorType, info: Seq<char>) -> bool {
    r matches Err(e) && e.err_type == t && e.err_info@ == info
}

/// What the tool gives for `path`: refused when it is not `allowed`, not
/// found when it does not `exist`, a read failure when the listing `out`
/// failed, and otherwise the entries of `out`, one per line.
pub open spec fn scan_dir_outcome(
    path: Seq<char>,
    allowed: bool,
    exists: bool,
    out: Option<Vec<String>>,
    r: Result<ScanDirResult, ScanDirError>,
) -> bool {
    if !allowed {
        scan_dir_err_is(r, ScanDirErrorType::Forbidden, path)
    } else if !exists {
        scan_dir_err_is(r, ScanDirErrorType::NotFound, path)
    } else {
        match out {
            None => scan_dir_err_is(r, ScanDirErrorType::ReadFailed, path),
            Some(entries) => r matches Ok(x) && x.data@ == join(entries@.map_values(|e: String| e@), "\n"@),
        }
    }
}

/// The `Debug` name of an error kind.
pub open spec fn scan_dir_err_name(t: ScanDirErrorType) -> Seq<char> {
    match t {
        ScanDirErrorType::DecodeError => "DecodeError"@,
        ScanDirErrorType::Forbidden => "Forbidden"@,
        ScanDirErrorType::NotFound => "NotFound"@,
        ScanDirErrorType::ReadFailed => "ReadFailed"@,
    }
}

/// The `path` member of a payload, when it is a string.
pub open spec fn scan_dir_path_of(payload: JsonValue) -> Option<Seq<char>> {
    str_of(json_get(payload, "path"@))
}

/// What decoding `payload` with `resolve` gives: `r` is an outcome that
/// `from_json` may return.
pub open spec fn scan_dir_decoded<F: FnOnce(&str) -> Option<String>>(payload: JsonValue, resolve: F, r: Result<ScanDir, ScanDirError>) -> bool {
    match scan_dir_path_of(payload) {
        None => r matches Err(e) && e.err_type == ScanDirErrorType::DecodeError && e.err_info@ == "path"@,
        Some(path) => exists|s: &str, res: Option<String>| s@ == path && call_ensures(resolve, (s,), res)
            && match res {
                Some(p) => r matches Ok(x) && x.path == p,
                None => r matches Err(e) && e.err_type == ScanDirErrorType::NotFound && e.err_info@ == path,
            },
    }
}

impl ScanDir {
    /// Decodes a request: the `path` member, resolved and normalized by
    /// `resolve`. Without a string `path` the error names the member; a path
    /// that does not resolve is not found.
    pub fn from_json<F: FnOnce(&str) -> Option<String>>(payload: &JsonValue, resolve: F) -> (r: Result<ScanDir, ScanDirError>)
        requires
            forall|s: &str| call_requires(resolve, (s,)),
        ensures
            scan_dir_decoded(*payload, resolve, r),
    {
        match payload.get("path") {
            Some(v) => match v.as_str() {
                Some(path) => match resolve(path) {
                    Some(rpath) => Ok(ScanDir { path: rpath }),
                    None => Err(ScanDirError::new(ScanDirErrorType::NotFound, path)),
                },
                None => Err(ScanDirError { err_type: ScanDirErrorType::DecodeError, err_info: "path".to_string() }),
            },
            None => Err(ScanDirError { err_type: ScanDirErrorType::DecodeError, err_info: "path".to_string() }),
        }
    }
}

/// Scanning and listing agree: on the same path, with the same access and
/// existence and the same listing of the directory, one succeeds exactly
/// when the other does, with the same text; and both fail with the same kind
/// of error and the same detail.
pub proof fn law_scan_and_list_agree(
    path: Seq<char>,
    allowed: bool,
    exists: bool,
    out: Option<Vec<String>>,
    rs: Result<ScanDirResult, ScanDirError>,
    rl: Result<crate::agenttools::list_dir::ListDirResult, crate::agenttools::list_dir::ListDirError>,
)
    requires
        scan_dir_outcome(path, allowed, exists, out, rs),
        list_dir_outcome(path, allowed, exists, out, rl),
    ensures
        rs is Ok <==> rl is Ok,
        rs matches Ok(a) ==> rl matches Ok(b) && a.data@ == b.data@,
        rs matches Err(e) ==> rl matches Err(f) && e.err_info@ == f.err_info@ && scan_dir_err_name(e.err_type)
            == list_dir_err_name(f.err_type),
{
}

impl ScanDir {
    /// Lists the directory: refused when the path is not allowed, an error when it does not exist or `op` (the listing) fails; otherwise the entries, one per line.
    pub fn execute<O: FnOnce(&str) -> Option<Vec<String>>>(&self, allowed: bool, exists: bool, op: O) -> (r: Result<ScanDirResult, ScanDirError>)
        requires
            forall|q: &str| allowed && exists && q@ == self.path@ ==> call_requires(op, (q,)),
        ensures
            !(allowed && exists) ==> scan_dir_outcome(self.path@, allowed, exists, None, r),
            allowed && exists ==> exists|q: &str, out: Option<Vec<String>>|
                q@ == self.path@ && call_ensures(op, (q,), out) && scan_dir_outcome(self.path@, allowed, exists, out, r),
    {
        if !allowed {
            return Err(ScanDirError::new(ScanDirErrorType::Forbidden, self.path.as_str()));
        }
        if !exists {
            return Err(ScanDirError::new(ScanDirErrorType::NotFound, self.path.as_str()));
        }
        match op(self.path.as_str()) {
            None => Err(ScanDirError::new(ScanDirErrorType::ReadFailed, self.path.as_str())),
            Some(entries) => {
                let mut parts: Vec<Vec<char>> = Vec::new();
                let n = entries.len();
                for i in 0..n
                    invariant
                        n == entries@.len(),
                        parts@.len() == i,
                        forall|k: int| 0 <= k < i ==> parts@[k]@ == entries@[k]@,
                {
                    parts.push(to_chars(entries[i].as_str()));
                }
                let nl = to_chars("\n");
                let j = join_chars(&parts, nl.as_slice());
                assert(parts@.map_values(|p: Vec<char>| p@) =~= entries@.map_values(|e: String| e@));
                Ok(ScanDirResult { data: from_chars(j.as_slice()) })
            },
        }
    }
}

impl ScanDirError {
    /// An error whose detail is the path.
    pub fn new(err_type: ScanDirErrorType, path: &str) -> (r: Self)
        ensures
            r.err_type == err_type,
            r.err_info@ == path@,
    {
        Self { err_type, err_info: path.to_string() }
    }

    /// `<kind>: <detail>` (its `Display` output).
    pub fn to_string(&self) -> (r: String)
        ensures
            r@ == scan_dir_err_name(self.err_type) + ": "@ + self.err_info@,
    {
        let mut t = to_chars(match self.err_type {
            ScanDirErrorType::DecodeError => "DecodeError",
            ScanDirErrorType::Forbidden => "Forbidden",
            ScanDirErrorType::NotFound => "NotFound",
            ScanDirErrorType::ReadFailed => "ReadFailed",
        });
        append_str(&mut t, ": ");
        append_str(&mut t, self.err_info.as_str());
        from_chars(t.as_slice())
    }
}

impl ScanDirResult {
    /// `call_<n>: ` followed by the data in `Debug` form.
    pub fn to_msg_string(&self, message_id: AIMessageId) -> (r: String)
        ensures
            r@ == id_line(message_id, debug_text(self.data@)),
    {
        let d = debug_quote(self.data.as_str());
        id_line_string(message_id, d.as_str())
    }
}

impl ResultToString for Result<ScanDirResult, ScanDirError> {
    fn to_msg_string(&self, msg_id: AIMessageId) -> (r: String)
        ensures
            r@ == match self {
                Ok(ok) => id_line(msg_id, debug_text(ok.data@)),
                Err(e) => scan_dir_err_name(e.err_type) + ": "@ + e.err_info@,
            },
    {
        match self {
            Ok(ok) => ok.to_msg_string(msg_id),
            Err(err) => err.to_string(),
        }
    }
}

impl Validatable for Result<ScanDirResult, ScanDirError> {
    fn is_valid(&self) -> (b: bool)
        ensures
            b == self is Ok,
    {
        self.is_ok()
    }
}

} // verus!

verus! {

/// The text of the reply to a failed call of kind `t` with detail `info`.
pub open spec fn scan_dir_error_message(t: ScanDirErrorType, info: Seq<char>) -> Seq<char> {
    match t {
        ScanDirErrorType::DecodeError => "[scan_dir] ERROR: decode error: "@ + info,
        ScanDirErrorType::Forbidden => "[scan_dir] ERROR: not allowed to read: "@ + info,
        ScanDirErrorType::NotFound => "[scan_dir] ERROR: file not found: "@ + info,
        ScanDirErrorType::ReadFailed => "[scan_dir] ERROR: read failed: "@ + info,
    }
}

/// The text of the reply that returns `r` to the call `id`.
pub open spec fn scan_dir_reply(r: Result<ScanDirResult, ScanDirError>, id: AIMessageId) -> Seq<char> {
    match r {
        Ok(ok) => tool_reply_text(id_object_text(id), ok.data@),
        Err(e) => tool_reply_text(id_object_text(id), scan_dir_error_message(e.err_type, e.err_info@)),
    }
}

impl ScanDirResult {
    /// The reply that returns the output to the call `message_id`.
    pub fn to_json(&self, message_id: AIMessageId) -> (r: JsonValue)
        ensures
            json_text(r) == tool_reply_text(id_object_text(message_id), self.data@),
    {
        tool_reply(id_object(message_id), self.data.clone())
    }
}

impl ScanDirError {
    /// The reply that reports the failure to the call `message_id`.
    pub fn to_json(&self, message_id: AIMessageId) -> (r: JsonValue)
        ensures
            json_text(r) == tool_reply_text(id_object_text(message_id), scan_dir_error_message(self.err_type, self.err_info@)),
    {
        let prefix: &str = match self.err_type {
            ScanDirErrorType::DecodeError => "[scan_dir] ERROR: decode error: ",
            ScanDirErrorType::Forbidden => "[scan_dir] ERROR: not allowed to read: ",
            ScanDirErrorType::NotFound => "[scan_dir] ERROR: file not found: ",
            ScanDirErrorType::ReadFailed => "[scan_dir] ERROR: read failed: ",
        };
        let mut msg = to_chars(prefix);
        append_str(&mut msg, self.err_info.as_str());
        tool_reply(id_object(message_id), from_chars(msg.as_slice()))
    }
}

impl ResultToJson for Result<ScanDirResult, ScanDirError> {
    fn to_json(&self, msg_id: AIMessageId) -> (r: JsonValue)
        ensures
            json_text(r) == scan_dir_reply(*self, msg_id),
    {
        match self {
            Ok(ok) => ok.to_json(msg_id),
            Err(err) => err.to_json(msg_id),
        }
    }
}

} // verus!
