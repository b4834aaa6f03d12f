//! The tool that loads a whole file.

use vstd::prelude::*;
use crate::agenttools::aitooltype::{ResultToJson, ResultToString, Validatable};
use crate::agenttools::reply::{id_string, id_string_text, tool_reply, tool_reply_text};
use crate::agenttools::load_file_part::str_of;
use crate::aimessage::{id_line, id_line_string, AIMessageId};
use crate::json::{json_get, json_text, JsonValue};
use crate::text::{append_str, debug_quote, debug_text, from_chars, join, join_chars, to_chars};

verus! {

/// A request on `path`.
#[derive(Debug)]
pub struct LoadFile {
    pub path: String,
}

/// Why the tool failed.
#[derive(Copy, Clone, Debug, PartialEq, Eq, Structural)]
pub enum LoadFileErrorType {
    Forbidden,
    NotFound,
    ReadFailed,
}

/// A failure with its detail (the path, unless said otherwise).
#[derive(Clone, Debug)]
pub struct LoadFileError {
    pub err_type: LoadFileErrorType,
    pub err_info: String,
}

/// The tool's output.
#[derive(Clone, Debug)]
pub struct LoadFileResult {
    pub data: String,
}

/// `r` is an error of kind `t` with detail `info`.
pub open spec fn load_file_err_is<T>(r: Result<T, LoadFileError>, t: LoadFileErrorType, info: Seq<char>) -> bool {
    r matches Err(e) && e.err_type == t && e.err_info@ == info
}

/// The `Debug` name of an error kind.
pub open spec fn load_file_err_name(t: LoadFileErrorType) -> Seq<char> {
    match t {
        LoadFileErrorType::Forbidden => "Forbidden"@,
        LoadFileErrorType::NotFound => "NotFound"@,
        LoadFileErrorType::ReadFailed => "ReadFailed"@,
    }
}

/// The `file` member of a payload, when it is a string.
pub open spec fn load_file_path_of(payload: JsonValue) -> Option<Seq<char>> {
    str_of(json_get(payload, "file"@))
}

impl LoadFile {
    /// Decodes a request: the `file` member, resolved and normalized by
    /// `resolve`. A payload without a string `file` is not accepted.
    pub fn from_json<F: FnOnce(&str) -> String>(payload: &JsonValue, resolve: F) -> (r: LoadFile)
        requires
            load_file_path_of(*payload) is Some,
            forall|s: &str| call_requires(resolve, (s,)),
        ensures
            exists|s: &str| s@ == load_file_path_of(*payload)->0 && call_ensures(resolve, (s,), r.path),
    {
        let p = match payload.get("file") {
            Some(v) => match v.as_str() {
                Some(s) => s,
                None => {
                    assert(false);
                    ""
                },
            },
            None => {
                assert(false);
                ""
            },
        };
        LoadFile { path: resolve(p) }
    }
}

impl LoadFile {
    /// Loads the file: refused when the path is not allowed, an error when it does not exist or `op` (the read) fails; otherwise its text.
    pub fn execute<O: FnOnce(&str) -> Option<String>>(&self, allowed: bool, exists: bool, op: O) -> (r: Result<LoadFileResult, LoadFileError>)
        requires
            forall|q: &str| allowed && exists && q@ == self.path@ ==> call_requires(op, (q,)),
        ensures
            !allowed ==> load_file_err_is(r, LoadFileErrorType::Forbidden, self.path@),
            allowed && !exists ==> load_file_err_is(r, LoadFileErrorType::NotFound, self.path@),
            allowed && exists ==> exists|q: &str, out: Option<String>| q@ == self.path@ && call_ensures(op, (q,), out) && match out {
                None => load_file_err_is(r, LoadFileErrorType::ReadFailed, self.path@),
                Some(data) => r matches Ok(x) && x.data == data,
            },
    {
        if !allowed {
            return Err(LoadFileError::new(LoadFileErrorType::Forbidden, self.path.as_str()));
        }
        if !exists {
            return Err(LoadFileError::new(LoadFileErrorType::NotFound, self.path.as_str()));
        }
        match op(self.path.as_str()) {
            None => Err(LoadFileError::new(LoadFileErrorType::ReadFailed, self.path.as_str())),
            Some(data) => Ok(LoadFileResult { data }),
        }
    }
}

impl LoadFileError {
    /// An error whose detail is the path.
    pub fn new(err_type: LoadFileErrorType, path: &str) -> (r: Self)
        ensures
            r.err_type == err_type,
            r.err_info@ == path@,
    {
        Self { err_type, err_info: path.to_string() }
    }

    /// `<kind>: <detail>` (its `Display` output).
    pub fn to_string(&self) -> (r: String)
        ensures
            r@ == load_file_err_name(self.err_type) + ": "@ + self.err_info@,
    {
        let mut t = to_chars(match self.err_type {
            LoadFileErrorType::Forbidden => "Forbidden",
            LoadFileErrorType::NotFound => "NotFound",
            LoadFileErrorType::ReadFailed => "ReadFailed",
        });
        append_str(&mut t, ": ");
        append_str(&mut t, self.err_info.as_str());
        from_chars(t.as_slice())
    }
}

impl LoadFileResult {
    /// `call_<n>: <data>`.
    pub fn to_string(&self, message_id: AIMessageId) -> (r: String)
        ensures
            r@ == id_line(message_id, self.data@),
    {
        id_line_string(message_id, self.data.as_str())
    }
}

impl ResultToString for Result<LoadFileResult, LoadFileError> {
    fn to_msg_string(&self, msg_id: AIMessageId) -> (r: String)
        ensures
            r@ == match self {
                Ok(ok) => id_line(msg_id, ok.data@),
                Err(e) => load_file_err_name(e.err_type) + ": "@ + e.err_info@,
            },
    {
        match self {
            Ok(ok) => ok.to_string(msg_id),
            Err(err) => err.to_string(),
        }
    }
}

impl Validatable for Result<LoadFileResult, LoadFileError> {
    fn is_valid(&self) -> (b: bool)
        ensures
            b == self is Ok,
    {
        self.is_ok()
    }
}

} // verus!

verus! {

/// The text of the reply to a failed call of kind `t` with detail `info`.
pub open spec fn load_file_error_message(t: LoadFileErrorType, info: Seq<char>) -> Seq<char> {
    match t {
        LoadFileErrorType::Forbidden => "[load_file] ERROR: not allowed to read: "@ + info,
        LoadFileErrorType::NotFound => "[load_file] ERROR: file not found: "@ + info,
        LoadFileErrorType::ReadFailed => "[load_file] ERROR: read failed: "@ + info,
    }
}

/// The text of the reply that returns `r` to the call `id`.
pub open spec fn load_file_reply(r: Result<LoadFileResult, LoadFileError>, id: AIMessageId) -> Seq<char> {
    match r {
        Ok(ok) => tool_reply_text(id_string_text(id), ok.data@),
        Err(e) => tool_reply_text(id_string_text(id), load_file_error_message(e.err_type, e.err_info@)),
    }
}

impl LoadFileResult {
    /// The reply that returns the output to the call `message_id`.
    pub fn to_json(&self, message_id: AIMessageId) -> (r: JsonValue)
        ensures
            json_text(r) == tool_reply_text(id_string_text(message_id), self.data@),
    {
        tool_reply(id_string(message_id), self.data.clone())
    }
}

impl LoadFileError {
    /// The reply that reports the failure to the call `message_id`.
    pub fn to_json(&self, message_id: AIMessageId) -> (r: JsonValue)
        ensures
            json_text(r) == tool_reply_text(id_string_text(message_id), load_file_error_message(self.err_type, self.err_info@)),
    {
        let prefix: &str = match self.err_type {
            LoadFileErrorType::Forbidden => "[load_file] ERROR: not allowed to read: ",
            LoadFileErrorType::NotFound => "[load_file] ERROR: file not found: ",
            LoadFileErrorType::ReadFailed => "[load_file] ERROR: read failed: ",
        };
        let mut msg = to_chars(prefix);
        append_str(&mut msg, self.err_info.as_str());
        tool_reply(id_string(message_id), from_chars(msg.as_slice()))
    }
}

impl ResultToJson for Result<LoadFileResult, LoadFileError> {
    fn to_json(&self, msg_id: AIMessageId) -> (r: JsonValue)
        ensures
            json_text(r) == load_file_reply(*self, msg_id),
    {
        match self {
            Ok(ok) => ok.to_json(msg_id),
            Err(err) => err.to_json(msg_id),
        }
    }
}

} // verus!
