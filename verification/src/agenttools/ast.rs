//! The tool that shows the outline of a source file (via `ast-outline`).

use vstd::prelude::*;
use crate::agenttools::aitooltype::{ResultToJson, ResultToString, Validatable};
use crate::agenttools::reply::{id_object, id_object_text, tool_reply, tool_reply_text};
use crate::agenttools::load_file_part::str_of;
use crate::aimessage::{id_line, id_line_string, AIMessageId};
use crate::json::{json_get, json_text, JsonValue};
use crate::text::{append_str, debug_quote, debug_text, from_chars, join, join_chars, to_chars};

verus! {

/// A request on `path`.
#[derive(Debug)]
pub struct Ast {
    pub path: String,
}

/// Why the tool failed.
#[derive(Copy, Clone, Debug, PartialEq, Eq, Structural)]
pub enum AstErrorType {
    Forbidden,
    NotFound,
    ExeFailed,
}

/// A failure with its detail (the path, unless said otherwise).
#[derive(Clone, Debug)]
pub struct AstError {
    pub err_type: AstErrorType,
    pub err_info: String,
}

/// The tool's output.
#[derive(Clone, Debug)]
pub struct AstResult {
    pub data: String,
}

/// `r` is an error of kind `t` with detail `info`.
pub open spec fn ast_err_is<T>(r: Result<T, AstError>, t: AstErrorType, info: Seq<char>) -> bool {
    r matches Err(e) && e.err_type == t && e.err_info@ == info
}

/// The `Debug` name of an error kind.
pub open spec fn ast_err_name(t: AstErrorType) -> Seq<char> {
    match t {
        AstErrorType::Forbidden => "Forbidden"@,
        AstErrorType::NotFound => "NotFound"@,
        AstErrorType::ExeFailed => "ExeFailed"@,
    }
}

/// The path of a request: the `path` member when it is a string, else empty.
pub open spec fn ast_path_of(payload: JsonValue) -> Seq<char> {
    match str_of(json_get(payload, "path"@)) {
        Some(p) => p,
        None => Seq::empty(),
    }
}

impl Ast {
    /// Decodes a request: the `path` member as given, or an empty path.
    pub fn from_json(payload: &JsonValue) -> (r: Ast)
        ensures
            r.path@ == ast_path_of(*payload),
    {
        match payload.get("path") {
            Some(v) => match v.as_str() {
                Some(s) => Ast { path: s.to_string() },
                None => Ast { path: String::new() },
            },
            None => Ast { path: String::new() },
        }
    }
}

impl Ast {
    /// Outlines the file: refused when the path is not allowed, an error when it does not exist or `op` (running the outliner) fails; otherwise its output.
    pub fn execute<O: FnOnce(&str) -> Option<String>>(&self, allowed: bool, exists: bool, op: O) -> (r: Result<AstResult, AstError>)
        requires
            forall|q: &str| allowed && exists && q@ == self.path@ ==> call_requires(op, (q,)),
        ensures
            !allowed ==> ast_err_is(r, AstErrorType::Forbidden, self.path@),
            allowed && !exists ==> ast_err_is(r, AstErrorType::NotFound, self.path@),
            allowed && exists ==> exists|q: &str, out: Option<String>| q@ == self.path@ && call_ensures(op, (q,), out) && match out {
                None => ast_err_is(r, AstErrorType::ExeFailed, self.path@),
                Some(data) => r matches Ok(x) && x.data == data,
            },
    {
        if !allowed {
            return Err(AstError::new(AstErrorType::Forbidden, self.path.as_str()));
        }
        if !exists {
            return Err(AstError::new(AstErrorType::NotFound, self.path.as_str()));
        }
        match op(self.path.as_str()) {
            None => Err(AstError::new(AstErrorType::ExeFailed, self.path.as_str())),
            Some(data) => Ok(AstResult { data }),
        }
    }
}

impl AstError {
    /// An error whose detail is the path.
    pub fn new(err_type: AstErrorType, path: &str) -> (r: Self)
        ensures
            r.err_type == err_type,
            r.err_info@ == path@,
    {
        Self { err_type, err_info: path.to_string() }
    }

    /// `<kind>: <detail>` (its `Display` output).
    pub fn to_string(&self) -> (r: String)
        ensures
            r@ == ast_err_name(self.err_type) + ": "@ + self.err_info@,
    {
        let mut t = to_chars(match self.err_type {
            AstErrorType::Forbidden => "Forbidden",
            AstErrorType::NotFound => "NotFound",
            AstErrorType::ExeFailed => "ExeFailed",
        });
        append_str(&mut t, ": ");
        append_str(&mut t, self.err_info.as_str());
        from_chars(t.as_slice())
    }
}

impl AstResult {
    /// `call_<n>: <data>`.
    pub fn to_msg_string(&self, message_id: AIMessageId) -> (r: String)
        ensures
            r@ == id_line(message_id, self.data@),
    {
        id_line_string(message_id, self.data.as_str())
    }
}

impl ResultToString for Result<AstResult, AstError> {
    fn to_msg_string(&self, msg_id: AIMessageId) -> (r: String)
        ensures
            r@ == match self {
                Ok(ok) => id_line(msg_id, ok.data@),
                Err(e) => ast_err_name(e.err_type) + ": "@ + e.err_info@,
            },
    {
        match self {
            Ok(ok) => ok.to_msg_string(msg_id),
            Err(err) => err.to_string(),
        }
    }
}

impl Validatable for Result<AstResult, AstError> {
    fn is_valid(&self) -> (b: bool)
        ensures
            b == self is Ok,
    {
        self.is_ok()
    }
}

} // verus!

verus! {

/// The text of the reply to a failed call of kind `t` with detail `info`.
pub open spec fn ast_error_message(t: AstErrorType, info: Seq<char>) -> Seq<char> {
    match t {
        AstErrorType::Forbidden => "[ast] ERROR: not allowed to read: "@ + info,
        AstErrorType::NotFound => "[ast] ERROR: file not found: "@ + info,
        AstErrorType::ExeFailed => "[ast] ERROR: execute failed: "@ + info,
    }
}

/// The text of the reply that returns `r` to the call `id`.
pub open spec fn ast_reply(r: Result<AstResult, AstError>, id: AIMessageId) -> Seq<char> {
    match r {
        Ok(ok) => tool_reply_text(id_object_text(id), ok.data@),
        Err(e) => tool_reply_text(id_object_text(id), ast_error_message(e.err_type, e.err_info@)),
    }
}

impl AstResult {
    /// The reply that returns the output to the call `message_id`.
    pub fn to_json(&self, message_id: AIMessageId) -> (r: JsonValue)
        ensures
            json_text(r) == tool_reply_text(id_object_text(message_id), self.data@),
    {
        tool_reply(id_object(message_id), self.data.clone())
    }
}

impl AstError {
    /// The reply that reports the failure to the call `message_id`.
    pub fn to_json(&self, message_id: AIMessageId) -> (r: JsonValue)
        ensures
            json_text(r) == tool_reply_text(id_object_text(message_id), ast_error_message(self.err_type, self.err_info@)),
    {
        let prefix: &str = match self.err_type {
            AstErrorType::Forbidden => "[ast] ERROR: not allowed to read: ",
            AstErrorType::NotFound => "[ast] ERROR: file not found: ",
            AstErrorType::ExeFailed => "[ast] ERROR: execute failed: ",
        };
        let mut msg = to_chars(prefix);
        append_str(&mut msg, self.err_info.as_str());
        tool_reply(id_object(message_id), from_chars(msg.as_slice()))
    }
}

impl ResultToJson for Result<AstResult, AstError> {
    fn to_json(&self, msg_id: AIMessageId) -> (r: JsonValue)
        ensures
            json_text(r) == ast_reply(*self, msg_id),
    {
        match self {
            Ok(ok) => ok.to_json(msg_id),
            Err(err) => err.to_json(msg_id),
        }
    }
}

} // verus!
