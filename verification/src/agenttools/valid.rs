//! The tool with which the model states that the current state is valid.

use vstd::prelude::*;
use crate::json::{json_text, JsonValue};
use crate::agenttools::aitooltype::{ResultToJson, ResultToString, Validatable};
use crate::agenttools::reply::{id_string, id_string_text, tool_reply, tool_reply_text};
use crate::aimessage::{id_line, id_line_string, AIMessageId};

verus! {

/// The confirmation.
#[derive(Clone, Debug)]
pub struct ValidResult {
    pub data: String,
}

/// Never produced; keeps the result type uniform with the other tools.
#[derive(Clone, Debug)]
pub struct ValidError {}

/// A confirmation request.
#[derive(Debug)]
pub struct Valid {
    pub data: String,
}

impl Default for Valid {
    fn default() -> (r: Self)
        ensures
            r.data@ == Seq::<char>::empty(),
    {
        Valid { data: String::new() }
    }
}

impl Valid {
    /// A confirmation with the given text.
    pub fn from_string(data: String) -> (r: Self)
        ensures
            r.data == data,
    {
        Valid { data }
    }

    /// Confirms; always succeeds.
    pub fn execute(self) -> (r: Result<ValidResult, ValidError>)
        ensures
            r matches Ok(x) && x.data == self.data,
    {
        Ok(ValidResult { data: self.data })
    }
}

impl ValidResult {
    /// `call_<n>: <text>`.
    pub fn to_string(&self, message_id: AIMessageId) -> (r: String)
        ensures
            r@ == id_line(message_id, self.data@),
    {
        id_line_string(message_id, self.data.as_str())
    }
}

impl ValidError {
    /// The error text (its `Display` output).
    pub fn to_string(&self) -> (r: String)
        ensures
            r@ == "error occured"@,
    {
        "error occured".to_string()
    }
}

impl ResultToString for Result<ValidResult, ValidError> {
    fn to_msg_string(&self, msg_id: AIMessageId) -> (r: String)
        ensures
            r@ == match self {
                Ok(ok) => id_line(msg_id, ok.data@),
                Err(_) => "error occured"@,
            },
    {
        match self {
            Ok(ok) => ok.to_string(msg_id),
            Err(err) => err.to_string(),
        }
    }
}

impl Validatable for Result<ValidResult, ValidError> {
    /// A confirmation always counts as valid.
    fn is_valid(&self) -> (b: bool)
        ensures
            b,
    {
        true
    }
}

} // verus!

verus! {

/// The text of the reply that returns `r` to the call `id`.
pub open spec fn valid_reply(r: Result<ValidResult, ValidError>, id: AIMessageId) -> Seq<char> {
    match r {
        Ok(ok) => tool_reply_text(id_string_text(id), ok.data@),
        Err(e) => tool_reply_text(id_string_text(id), "error occured"@),
    }
}

impl ValidResult {
    /// The reply that returns the output to the call `message_id`.
    pub fn to_json(&self, message_id: AIMessageId) -> (r: JsonValue)
        ensures
            json_text(r) == tool_reply_text(id_string_text(message_id), self.data@),
    {
        tool_reply(id_string(message_id), self.data.clone())
    }
}

impl ValidError {
    /// The reply that reports the failure to the call `message_id`.
    pub fn to_json(&self, message_id: AIMessageId) -> (r: JsonValue)
        ensures
            json_text(r) == tool_reply_text(id_string_text(message_id), "error occured"@),
    {
        tool_reply(id_string(message_id), "error occured".to_string())
    }
}

impl ResultToJson for Result<ValidResult, ValidError> {
    fn to_json(&self, msg_id: AIMessageId) -> (r: JsonValue)
        ensures
            json_text(r) == valid_reply(*self, msg_id),
    {
        match self {
            Ok(ok) => ok.to_json(msg_id),
            Err(err) => err.to_json(msg_id),
        }
    }
}

} // verus!
