//! The tool with which the model names what it concentrates on.

use vstd::prelude::*;
use crate::agenttools::aitooltype::{ResultToJson, ResultToString, Validatable};
use crate::agenttools::reply::{id_object, id_object_text, tool_reply, tool_reply_text};
use crate::aimessage::{id_line, id_line_string, AIMessageId};
use crate::json::{json_get, json_text, JsonValue};

verus! {

/// The focus that was set.
#[derive(Clone, Debug)]
pub struct SetFocusResult {
    pub data: String,
}

/// Never produced; keeps the result type uniform with the other tools.
#[derive(Clone, Debug)]
pub struct SetFocusError {}

/// A request to set the focus.
#[derive(Debug)]
pub struct SetFocus {
    pub data: String,
}

/// The focus taken from a payload: the JSON text of its `focus` member, or a
/// fixed text when there is none.
pub open spec fn focus_of(payload: JsonValue) -> Seq<char> {
    match json_get(payload, "focus"@) {
        Some(n) => json_text(n),
        None => "no note found"@,
    }
}

impl SetFocus {
    /// Reads the `focus` member of the payload.
    pub fn from_json(payload: &JsonValue) -> (r: Self)
        ensures
            r.data@ == focus_of(*payload),
    {
        match payload.get("focus") {
            Some(note) => SetFocus { data: note.to_json_text() },
            None => SetFocus { data: "no note found".to_string() },
        }
    }

    /// Sets the focus; always succeeds.
    pub fn execute(self) -> (r: Result<SetFocusResult, SetFocusError>)
        ensures
            r matches Ok(x) && x.data == self.data,
    {
        Ok(SetFocusResult { data: self.data })
    }
}

impl SetFocusResult {
    /// `call_<n>: <focus>`.
    pub fn to_msg_string(&self, message_id: AIMessageId) -> (r: String)
        ensures
            r@ == id_line(message_id, self.data@),
    {
        id_line_string(message_id, self.data.as_str())
    }
}

impl SetFocusError {
    /// The error text (its `Display` output).
    pub fn to_string(&self) -> (r: String)
        ensures
            r@ == "error occured"@,
    {
        "error occured".to_string()
    }
}

impl ResultToString for Result<SetFocusResult, SetFocusError> {
    fn to_msg_string(&self, msg_id: AIMessageId) -> (r: String)
        ensures
            r@ == match self {
                Ok(ok) => id_line(msg_id, ok.data@),
                Err(_) => "error occured"@,
            },
    {
        match self {
            Ok(ok) => ok.to_msg_string(msg_id),
            Err(err) => err.to_string(),
        }
    }
}

impl Validatable for Result<SetFocusResult, SetFocusError> {
    fn is_valid(&self) -> (b: bool)
        ensures
            b == self is Ok,
    {
        self.is_ok()
    }
}

} // verus!

verus! {

/// The text of the reply that returns `r` to the call `id`.
pub open spec fn focus_reply(r: Result<SetFocusResult, SetFocusError>, id: AIMessageId) -> Seq<char> {
    match r {
        Ok(ok) => tool_reply_text(id_object_text(id), ok.data@),
        Err(e) => tool_reply_text(id_object_text(id), "error occured"@),
    }
}

impl SetFocusResult {
    /// The reply that returns the output to the call `message_id`.
    pub fn to_json(&self, message_id: AIMessageId) -> (r: JsonValue)
        ensures
            json_text(r) == tool_reply_text(id_object_text(message_id), self.data@),
    {
        tool_reply(id_object(message_id), self.data.clone())
    }
}

impl SetFocusError {
    /// The reply that reports the failure to the call `message_id`.
    pub fn to_json(&self, message_id: AIMessageId) -> (r: JsonValue)
        ensures
            json_text(r) == tool_reply_text(id_object_text(message_id), "error occured"@),
    {
        tool_reply(id_object(message_id), "error occured".to_string())
    }
}

impl ResultToJson for Result<SetFocusResult, SetFocusError> {
    fn to_json(&self, msg_id: AIMessageId) -> (r: JsonValue)
        ensures
            json_text(r) == focus_reply(*self, msg_id),
    {
        match self {
            Ok(ok) => ok.to_json(msg_id),
            Err(err) => err.to_json(msg_id),
        }
    }
}

} // verus!
