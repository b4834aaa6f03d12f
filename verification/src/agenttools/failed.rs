//! The tool with which the model reports that it cannot go on; also used for
//! actions that could not be decoded.

use vstd::prelude::*;
use crate::agenttools::aitooltype::{ResultToJson, ResultToString, Validatable};
use crate::agenttools::reply::{id_string, id_string_text, tool_reply, tool_reply_text};
use crate::aimessage::{id_line, id_line_string, AIMessageId};
use crate::json::{json_get, json_text, JsonValue};

verus! {

/// The reported failure.
#[derive(Debug)]
pub struct FailedResult {
    pub data: String,
}

/// Never produced; keeps the result type uniform with the other tools.
#[derive(Clone, Debug)]
pub struct FailedError {}

/// A failure report.
#[derive(Clone, Debug)]
pub struct Failed {
    pub data: String,
}

impl Default for Failed {
    fn default() -> (r: Self)
        ensures
            r.data@ == Seq::<char>::empty(),
    {
        Failed { data: String::new() }
    }
}

/// The failure text taken from a payload: the JSON text of its `failed`
/// member, or nothing.
pub open spec fn failed_note_of(payload: JsonValue) -> Seq<char> {
    match json_get(payload, "failed"@) {
        Some(n) => json_text(n),
        None => Seq::empty(),
    }
}

impl Failed {
    /// A failure with the given text.
    pub fn from_string(data: String) -> (r: Self)
        ensures
            r.data == data,
    {
        Failed { data }
    }

    /// Reads the `failed` member of the payload.
    pub fn from_json(payload: &JsonValue) -> (r: Self)
        ensures
            r.data@ == failed_note_of(*payload),
    {
        let note = match payload.get("failed") {
            Some(note) => note.to_json_text(),
            None => String::new(),
        };
        Failed { data: note }
    }

    /// Records the failure; the call itself succeeds.
    pub fn execute(self) -> (r: Result<FailedResult, FailedError>)
        ensures
            r matches Ok(x) && x.data == self.data,
    {
        Ok(FailedResult { data: self.data })
    }
}

impl FailedResult {
    /// `call_<n>: <failure>`.
    pub fn to_string(&self, message_id: AIMessageId) -> (r: String)
        ensures
            r@ == id_line(message_id, self.data@),
    {
        id_line_string(message_id, self.data.as_str())
    }
}

impl FailedError {
    /// The error text (its `Display` output).
    pub fn to_string(&self) -> (r: String)
        ensures
            r@ == "error occured"@,
    {
        "error occured".to_string()
    }
}

impl ResultToString for Result<FailedResult, FailedError> {
    fn to_msg_string(&self, msg_id: AIMessageId) -> (r: String)
        ensures
            r@ == match self {
                Ok(ok) => id_line(msg_id, ok.data@),
                Err(_) => "error occured"@,
            },
    {
        match self {
            Ok(ok) => ok.to_string(msg_id),
            Err(err) => err.to_string(),
        }
    }
}

impl Validatable for Result<FailedResult, FailedError> {
    /// A failure never counts as a valid tool call.
    fn is_valid(&self) -> (b: bool)
        ensures
            !b,
    {
        false
    }
}

} // verus!

verus! {

/// The text of the reply that returns `r` to the call `id`.
pub open spec fn failed_reply(r: Result<FailedResult, FailedError>, id: AIMessageId) -> Seq<char> {
    match r {
        Ok(ok) => tool_reply_text(id_string_text(id), ok.data@),
        Err(e) => tool_reply_text(id_string_text(id), "error occured"@),
    }
}

impl FailedResult {
    /// The reply that returns the output to the call `message_id`.
    pub fn to_json(&self, message_id: AIMessageId) -> (r: JsonValue)
        ensures
            json_text(r) == tool_reply_text(id_string_text(message_id), self.data@),
    {
        tool_reply(id_string(message_id), self.data.clone())
    }
}

impl FailedError {
    /// The reply that reports the failure to the call `message_id`.
    pub fn to_json(&self, message_id: AIMessageId) -> (r: JsonValue)
        ensures
            json_text(r) == tool_reply_text(id_string_text(message_id), "error occured"@),
    {
        tool_reply(id_string(message_id), "error occured".to_string())
    }
}

impl ResultToJson for Result<FailedResult, FailedError> {
    fn to_json(&self, msg_id: AIMessageId) -> (r: JsonValue)
        ensures
            json_text(r) == failed_reply(*self, msg_id),
    {
        match self {
            Ok(ok) => ok.to_json(msg_id),
            Err(err) => err.to_json(msg_id),
        }
    }
}

} // verus!
