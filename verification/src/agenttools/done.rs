//! The tool that ends a task.

use vstd::prelude::*;
use crate::agenttools::aitooltype::{ResultToJson, ResultToString, Validatable};
use crate::agenttools::reply::{id_object, id_object_text, tool_reply, tool_reply_text};
use crate::aimessage::{id_line, AIMessageId};
use crate::json::{json_get, json_text, JsonValue};
use crate::text::{append_chars, append_str, from_chars, to_chars};

verus! {

/// The final note of the model.
#[derive(Debug)]
pub struct DoneResult {
    pub data: String,
}

/// Never produced; keeps the result type uniform with the other tools.
#[derive(Debug)]
pub struct DoneError {}

/// A request to end the task.
#[derive(Debug)]
pub struct Done {
    pub data: String,
}

impl Default for Done {
    fn default() -> (r: Self)
        ensures
            r.data@ == Seq::<char>::empty(),
    {
        Done { data: String::new() }
    }
}

/// The final note taken from a payload: the JSON text of its `note` member, or
/// nothing.
pub open spec fn done_note_of(payload: JsonValue) -> Seq<char> {
    match json_get(payload, "note"@) {
        Some(n) => json_text(n),
        None => Seq::empty(),
    }
}

impl Done {
    /// Reads the `note` member of the payload.
    pub fn from_json(payload: &JsonValue) -> (r: Self)
        ensures
            r.data@ == done_note_of(*payload),
    {
        let note = match payload.get("note") {
            Some(note) => note.to_json_text(),
            None => String::new(),
        };
        Done { data: note }
    }

    /// Ends the task; always succeeds.
    pub fn execute(self) -> (r: Result<DoneResult, DoneError>)
        ensures
            r matches Ok(x) && x.data == self.data,
    {
        Ok(DoneResult { data: self.data })
    }
}

impl DoneResult {
    /// `Done call_<n>: <note>`.
    pub fn to_string(&self, message_id: AIMessageId) -> (r: String)
        ensures
            r@ == "Done "@ + id_line(message_id, self.data@),
    {
        let mut v = to_chars("Done ");
        let id = message_id.text_chars();
        append_chars(&mut v, id.as_slice());
        append_str(&mut v, ": ");
        append_str(&mut v, self.data.as_str());
        from_chars(v.as_slice())
    }
}

impl DoneError {
    /// The error text (its `Display` output).
    pub fn to_string(&self) -> (r: String)
        ensures
            r@ == "error occured"@,
    {
        "error occured".to_string()
    }
}

impl ResultToString for Result<DoneResult, DoneError> {
    fn to_msg_string(&self, msg_id: AIMessageId) -> (r: String)
        ensures
            r@ == match self {
                Ok(ok) => "Done "@ + id_line(msg_id, ok.data@),
                Err(_) => "error occured"@,
            },
    {
        match self {
            Ok(ok) => ok.to_string(msg_id),
            Err(err) => err.to_string(),
        }
    }
}

impl Validatable for Result<DoneResult, DoneError> {
    /// A done call always counts as valid.
    fn is_valid(&self) -> (b: bool)
        ensures
            b,
    {
        true
    }
}

} // verus!

verus! {

/// The text of the reply that returns `r` to the call `id`.
pub open spec fn done_reply(r: Result<DoneResult, DoneError>, id: AIMessageId) -> Seq<char> {
    match r {
        Ok(ok) => tool_reply_text(id_object_text(id), ok.data@),
        Err(e) => tool_reply_text(id_object_text(id), "error occured"@),
    }
}

impl DoneResult {
    /// The reply that returns the output to the call `message_id`.
    pub fn to_json(&self, message_id: AIMessageId) -> (r: JsonValue)
        ensures
            json_text(r) == tool_reply_text(id_object_text(message_id), self.data@),
    {
        tool_reply(id_object(message_id), self.data.clone())
    }
}

impl DoneError {
    /// The reply that reports the failure to the call `message_id`.
    pub fn to_json(&self, message_id: AIMessageId) -> (r: JsonValue)
        ensures
            json_text(r) == tool_reply_text(id_object_text(message_id), "error occured"@),
    {
        tool_reply(id_object(message_id), "error occured".to_string())
    }
}

impl ResultToJson for Result<DoneResult, DoneError> {
    fn to_json(&self, msg_id: AIMessageId) -> (r: JsonValue)
        ensures
            json_text(r) == done_reply(*self, msg_id),
    {
        match self {
            Ok(ok) => ok.to_json(msg_id),
            Err(err) => err.to_json(msg_id),
        }
    }
}

} // verus!
