//! The note tool: the model keeps a note that is shown with every request.

use vstd::prelude::*;
use crate::agenttools::aitooltype::{ResultToJson, ResultToString, Validatable};
use crate::agenttools::reply::{id_string, id_string_text, tool_reply, tool_reply_text};
use crate::aimessage::{id_line, id_line_string, AIMessageId};
use crate::json::{json_get, json_text, JsonValue};

verus! {

/// The note that was stored.
#[derive(Clone, Debug)]
pub struct AddNoteResult {
    pub data: String,
}

/// Never produced; keeps the result type uniform with the other tools.
#[derive(Clone, Debug)]
pub struct AddNoteError {}

/// A request to store a note.
#[derive(Debug)]
pub struct AddNote {
    pub data: String,
}

/// The note taken from a payload: the JSON text of its `note` member, or a
/// fixed text when there is none.
pub open spec fn note_of(payload: JsonValue) -> Seq<char> {
    match json_get(payload, "note"@) {
        Some(n) => json_text(n),
        None => "no note found"@,
    }
}

impl AddNote {
    /// Reads the `note` member of the payload (its JSON text, so a string
    /// keeps its quotes).
    pub fn from_json(payload: &JsonValue) -> (r: Self)
        ensures
            r.data@ == note_of(*payload),
    {
        match payload.get("note") {
            Some(note) => AddNote { data: note.to_json_text() },
            None => AddNote { data: "no note found".to_string() },
        }
    }

    /// Stores the note; always succeeds.
    pub fn execute(self) -> (r: Result<AddNoteResult, AddNoteError>)
        ensures
            r matches Ok(x) && x.data == self.data,
    {
        Ok(AddNoteResult { data: self.data })
    }
}

impl AddNoteResult {
    /// `call_<n>: <note>`.
    pub fn to_string(&self, message_id: AIMessageId) -> (r: String)
        ensures
            r@ == id_line(message_id, self.data@),
    {
        id_line_string(message_id, self.data.as_str())
    }
}

impl AddNoteError {
    /// The error text (its `Display` output).
    pub fn to_string(&self) -> (r: String)
        ensures
            r@ == "error occured"@,
    {
        "error occured".to_string()
    }
}

impl ResultToString for Result<AddNoteResult, AddNoteError> {
    fn to_msg_string(&self, msg_id: AIMessageId) -> (r: String)
        ensures
            r@ == match self {
                Ok(ok) => id_line(msg_id, ok.data@),
                Err(_) => "error occured"@,
            },
    {
        match self {
            Ok(ok) => ok.to_string(msg_id),
            Err(err) => err.to_string(),
        }
    }
}

impl Validatable for Result<AddNoteResult, AddNoteError> {
    fn is_valid(&self) -> (b: bool)
        ensures
            b == self is Ok,
    {
        self.is_ok()
    }
}

} // verus!

verus! {

/// The text of the reply that returns `r` to the call `id`.
pub open spec fn note_reply(r: Result<AddNoteResult, AddNoteError>, id: AIMessageId) -> Seq<char> {
    match r {
        Ok(ok) => tool_reply_text(id_string_text(id), ok.data@),
        Err(e) => tool_reply_text(id_string_text(id), "error occured"@),
    }
}

impl AddNoteResult {
    /// The reply that returns the output to the call `message_id`.
    pub fn to_json(&self, message_id: AIMessageId) -> (r: JsonValue)
        ensures
            json_text(r) == tool_reply_text(id_string_text(message_id), self.data@),
    {
        tool_reply(id_string(message_id), self.data.clone())
    }
}

impl AddNoteError {
    /// The reply that reports the failure to the call `message_id`.
    pub fn to_json(&self, message_id: AIMessageId) -> (r: JsonValue)
        ensures
            json_text(r) == tool_reply_text(id_string_text(message_id), "error occured"@),
    {
        tool_reply(id_string(message_id), "error occured".to_string())
    }
}

impl ResultToJson for Result<AddNoteResult, AddNoteError> {
    fn to_json(&self, msg_id: AIMessageId) -> (r: JsonValue)
        ensures
            json_text(r) == note_reply(*self, msg_id),
    {
        match self {
            Ok(ok) => ok.to_json(msg_id),
            Err(err) => err.to_json(msg_id),
        }
    }
}

} // verus!
