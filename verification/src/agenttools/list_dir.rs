//! The tool that lists a directory.

use vstd::prelude::*;
use crate::agenttools::aitooltype::{ResultToJson, ResultToString, Validatable};
use crate::agenttools::reply::{id_string, id_string_text, tool_reply, tool_reply_text};
use crate::agenttools::load_file_part::str_of;
use crate::aimessage::{id_line, id_line_string, AIMessageId};
use crate::json::{json_get, json_text, JsonValue};
use crate::text::{append_str, debug_quote, debug_text, from_chars, join, join_chars, to_chars};

verus! {

/// A request on `path`.
#[derive(Debug)]
pub struct ListDir {
    pub path: String,
}

/// Why the tool failed.
#[derive(Copy, Clone, Debug, PartialEq, Eq, Structural)]
pub enum ListDirErrorType {
    Forbidden,
    NotFound,
    ReadFailed,
}

/// A failure with its detail (the path, unless said otherwise).
#[derive(Clone, Debug)]
pub struct ListDirError {
    pub err_type: ListDirErrorType,
    pub err_info: String,
}

/// The tool's output.
#[derive(Clone, Debug)]
pub struct ListDirResult {
    pub data: String,
}

/// `r` is an error of kind `t` with detail `info`.
pub open spec fn list_dir_err_is<T>(r: Result<T, ListDirError>, t: ListDirErrorType, info: Seq<char>) -> bool {
    r matches Err(e) && e.err_type == t && e.err_info@ == info
}

/// What the tool gives for `path`: refused when it is not `allowed`, not
/// found when it does not `exist`, a read failure when the listing `out`
/// failed, and otherwise the entries of `out`, one per line.
pub open spec fn list_dir_outcome(
    path: Seq<char>,
    allowed: bool,
    exists: bool,
    out: Option<Vec<String>>,
    r: Result<ListDirResult, ListDirError>,
) -> bool {
    if !allowed {
        list_dir_err_is(r, ListDirErrorType::Forbidden, path)
    } else if !exists {
        list_dir_err_is(r, ListDirErrorType::NotFound, path)
    } else {
        match out {
            None => list_dir_err_is(r, ListDirErrorType::ReadFailed, path),
            Some(entries) => r matches Ok(x) && x.data@ == join(entries@.map_values(|e: String| e@), "\n"@),
        }
    }
}

/// The `Debug` name of an error kind.
pub open spec fn list_dir_err_name(t: ListDirErrorType) -> Seq<char> {
    match t {
        ListDirErrorType::Forbidden => "Forbidden"@,
        ListDirErrorType::NotFound => "NotFound"@,
        ListDirErrorType::ReadFailed => "ReadFailed"@,
    }
}

/// The `path` member of a payload, when it is a string.
pub open spec fn list_dir_path_of(payload: JsonValue) -> Option<Seq<char>> {
    str_of(json_get(payload, "path"@))
}

impl ListDir {
    /// Decodes a request: the `path` member, resolved and normalized by
    /// `resolve`. A payload without a string `path` is not accepted.
    pub fn from_json<F: FnOnce(&str) -> String>(payload: &JsonValue, resolve: F) -> (r: ListDir)
        requires
            list_dir_path_of(*payload) is Some,
            forall|s: &str| call_requires(resolve, (s,)),
        ensures
            exists|s: &str| s@ == list_dir_path_of(*payload)->0 && call_ensures(resolve, (s,), r.path),
    {
        let p = match payload.get("path") {
            Some(v) => match v.as_str() {
                Some(s) => s,
                None => {
                    assert(false);
                    ""
                },
            },
            None => {
                assert(false);
                ""
            },
        };
        ListDir { path: resolve(p) }
    }
}

impl ListDir {
    /// Lists the directory: refused when the path is not allowed, an error when it does not exist or `op` (the listing) fails; otherwise the entries, one per line.
    pub fn execute<O: FnOnce(&str) -> Option<Vec<String>>>(&self, allowed: bool, exists: bool, op: O) -> (r: Result<ListDirResult, ListDirError>)
        requires
            forall|q: &str| allowed && exists && q@ == self.path@ ==> call_requires(op, (q,)),
        ensures
            !(allowed && exists) ==> list_dir_outcome(self.path@, allowed, exists, None, r),
            allowed && exists ==> exists|q: &str, out: Option<Vec<String>>|
                q@ == self.path@ && call_ensures(op, (q,), out) && list_dir_outcome(self.path@, allowed, exists, out, r),
    {
        if !allowed {
            return Err(ListDirError::new(ListDirErrorType::Forbidden, self.path.as_str()));
        }
        if !exists {
            return Err(ListDirError::new(ListDirErrorType::NotFound, self.path.as_str()));
        }
        match op(self.path.as_str()) {
            None => Err(ListDirError::new(ListDirErrorType::ReadFailed, self.path.as_str())),
            Some(entries) => {
                let mut parts: Vec<Vec<char>> = Vec::new();
                let n = entries.len();
                for i in 0..n
                    invariant
                        n == entries@.len(),
                        parts@.len() == i,
                        forall|k: int| 0 <= k < i ==> parts@[k]@ == entries@[k]@,
                {
                    parts.push(to_chars(entries[i].as_str()));
                }
                let nl = to_chars("\n");
                let j = join_chars(&parts, nl.as_slice());
                assert(parts@.map_values(|p: Vec<char>| p@) =~= entries@.map_values(|e: String| e@));
                Ok(ListDirResult { data: from_chars(j.as_slice()) })
            },
        }
    }
}

impl ListDirError {
    /// An error whose detail is the path.
    pub fn new(err_type: ListDirErrorType, path: &str) -> (r: Self)
        ensures
            r.err_type == err_type,
            r.err_info@ == path@,
    {
        Self { err_type, err_info: path.to_string() }
    }

    /// `<kind>: <detail>` (its `Display` output).
    pub fn to_string(&self) -> (r: String)
        ensures
            r@ == list_dir_err_name(self.err_type) + ": "@ + self.err_info@,
    {
        let mut t = to_chars(match self.err_type {
            ListDirErrorType::Forbidden => "Forbidden",
            ListDirErrorType::NotFound => "NotFound",
            ListDirErrorType::ReadFailed => "ReadFailed",
        });
        append_str(&mut t, ": ");
        append_str(&mut t, self.err_info.as_str());
        from_chars(t.as_slice())
    }
}

impl ListDirResult {
    /// `call_<n>: <data>`.
    pub fn to_string(&self, message_id: AIMessageId) -> (r: String)
        ensures
            r@ == id_line(message_id, self.data@),
    {
        id_line_string(message_id, self.data.as_str())
    }
}

impl ResultToString for Result<ListDirResult, ListDirError> {
    fn to_msg_string(&self, msg_id: AIMessageId) -> (r: String)
        ensures
            r@ == match self {
                Ok(ok) => id_line(msg_id, ok.data@),
                Err(e) => list_dir_err_name(e.err_type) + ": "@ + e.err_info@,
            },
    {
        match self {
            Ok(ok) => ok.to_string(msg_id),
            Err(err) => err.to_string(),
        }
    }
}

impl Validatable for Result<ListDirResult, ListDirError> {
    fn is_valid(&self) -> (b: bool)
        ensures
            b == self is Ok,
    {
        self.is_ok()
    }
}

} // verus!

verus! {

/// The text of the reply to a failed call of kind `t` with detail `info`.
pub open spec fn list_dir_error_message(t: ListDirErrorType, info: Seq<char>) -> Seq<char> {
    match t {
        ListDirErrorType::Forbidden => "[list_dir] ERROR: not allowed to read: "@ + info,
        ListDirErrorType::NotFound => "[list_dir] ERROR: file not found: "@ + info,
        ListDirErrorType::ReadFailed => "[list_dir] ERROR: read failed: "@ + info,
    }
}

/// The text of the reply that returns `r` to the call `id`.
pub open spec fn list_dir_reply(r: Result<ListDirResult, ListDirError>, id: AIMessageId) -> Seq<char> {
    match r {
        Ok(ok) => tool_reply_text(id_string_text(id), ok.data@),
        Err(e) => tool_reply_text(id_string_text(id), list_dir_error_message(e.err_type, e.err_info@)),
    }
}

impl ListDirResult {
    /// The reply that returns the output to the call `message_id`.
    pub fn to_json(&self, message_id: AIMessageId) -> (r: JsonValue)
        ensures
            json_text(r) == tool_reply_text(id_string_text(message_id), self.data@),
    {
        tool_reply(id_string(message_id), self.data.clone())
    }
}

impl ListDirError {
    /// The reply that reports the failure to the call `message_id`.
    pub fn to_json(&self, message_id: AIMessageId) -> (r: JsonValue)
        ensures
            json_text(r) == tool_reply_text(id_string_text(message_id), list_dir_error_message(self.err_type, self.err_info@)),
    {
        let prefix: &str = match self.err_type {
            ListDirErrorType::Forbidden => "[list_dir] ERROR: not allowed to read: ",
            ListDirErrorType::NotFound => "[list_dir] ERROR: file not found: ",
            ListDirErrorType::ReadFailed => "[list_dir] ERROR: read failed: ",
        };
        let mut msg = to_chars(prefix);
        append_str(&mut msg, self.err_info.as_str());
        tool_reply(id_string(message_id), from_chars(msg.as_slice()))
    }
}

impl ResultToJson for Result<ListDirResult, ListDirError> {
    fn to_json(&self, msg_id: AIMessageId) -> (r: JsonValue)
        ensures
            json_text(r) == list_dir_reply(*self, msg_id),
    {
        match self {
            Ok(ok) => ok.to_json(msg_id),
            Err(err) => err.to_json(msg_id),
        }
    }
}

} // verus!
