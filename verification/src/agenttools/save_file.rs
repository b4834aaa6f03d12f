//! The tool that writes a whole file.

use vstd::prelude::*;
use crate::agenttools::aitooltype::{ResultToJson, ResultToString, Validatable};
use crate::agenttools::reply::{id_string, id_string_text, tool_reply, tool_reply_text};
use crate::agenttools::load_file_part::{field_text, str_of};
use crate::aimessage::{id_text, AIMessageId};
use crate::json::{json_get, json_text, JsonValue};
use crate::text::{append_chars, append_str, debug_quote, debug_text, from_chars, to_chars};
use crate::utils::jsonutils::{get_json_field, json_field};

verus! {

/// A request to write `content` to `path`.
#[derive(Clone, Debug)]
pub struct SaveFile {
    pub path: String,
    pub content: String,
    pub note: String,
}

/// Why the tool failed.
#[derive(Copy, Clone, Debug, PartialEq, Eq, Structural)]
pub enum SaveFileErrorType {
    DecodeError,
    Forbidden,
    NotFound,
    WriteFailed,
    EmptyContent,
}

/// A failure with its detail.
#[derive(Clone, Debug)]
pub struct SaveFileError {
    pub err_type: SaveFileErrorType,
    pub err_info: String,
}

/// The file that was written.
#[derive(Clone, Debug)]
pub struct SaveFileResult {
    pub path: String,
}

/// `r` is an error of kind `t` with detail `info`.
pub open spec fn save_err_is<T>(r: Result<T, SaveFileError>, t: SaveFileErrorType, info: Seq<char>) -> bool {
    r matches Err(e) && e.err_type == t && e.err_info@ == info
}

/// The detail of an error: the path, `: ` and the message.
pub open spec fn save_detail(path: Seq<char>, info: Seq<char>) -> Seq<char> {
    path + ": "@ + info
}

/// The `Debug` name of an error kind.
pub open spec fn save_err_name(t: SaveFileErrorType) -> Seq<char> {
    match t {
        SaveFileErrorType::DecodeError => "DecodeError"@,
        SaveFileErrorType::Forbidden => "Forbidden"@,
        SaveFileErrorType::NotFound => "NotFound"@,
        SaveFileErrorType::WriteFailed => "WriteFailed"@,
        SaveFileErrorType::EmptyContent => "EmptyContent"@,
    }
}

fn save_decode_err(prefix: &str, rest: &str) -> (r: SaveFileError)
    ensures
        r.err_type == SaveFileErrorType::DecodeError,
        r.err_info@ == prefix@ + rest@,
{
    let mut t = to_chars(prefix);
    append_str(&mut t, rest);
    SaveFileError { err_type: SaveFileErrorType::DecodeError, err_info: from_chars(t.as_slice()) }
}

/// What decoding `payload` with `resolve` gives: `r` is an outcome that
/// `from_json` may return.
pub open spec fn save_file_decoded<F: FnOnce(&str) -> Option<String>>(payload: JsonValue, resolve: F, r: Result<SaveFile, SaveFileError>) -> bool {
    match str_of(json_get(payload, "file"@)) {
        None => save_err_is(r, SaveFileErrorType::DecodeError, "invalid file: "@ + field_text(json_get(payload, "file"@))),
        Some(file) => exists|file_str: &str, res: Option<String>|
            file_str@ == file && call_ensures(resolve, (file_str,), res) && match res {
                None => save_err_is(r, SaveFileErrorType::NotFound, save_detail(file, Seq::empty())),
                Some(p) => match json_field(payload, "content"@) {
                    Err(e) => save_err_is(r, SaveFileErrorType::DecodeError, "invalid content: "@ + e),
                    Ok(content) => match str_of(json_get(payload, "note"@)) {
                        None => save_err_is(r, SaveFileErrorType::DecodeError, "invalid note: "@ + field_text(json_get(payload, "note"@))),
                        Some(note) => r matches Ok(sf) && sf.path == p && sf.content@ == content && sf.note@ == note,
                    },
                },
            },
    }
}

impl SaveFile {
    /// Decodes a request: `file` (resolved with `resolve`), `content` and
    /// `note`. The first missing or mistyped member gives a decode error that
    /// names it; a file that does not resolve is not found.
    pub fn from_json<F: FnOnce(&str) -> Option<String>>(payload: &JsonValue, resolve: F) -> (r:
        Result<SaveFile, SaveFileError>)
        requires
            forall|s: &str| call_requires(resolve, (s,)),
        ensures
            save_file_decoded(*payload, resolve, r),
    {
        proof {
            reveal_strlit("");
        }
        let file = match payload.get("file") {
            Some(v) => match v.as_str() {
                Some(s) => s,
                None => return Err(save_decode_err("invalid file: ", v.to_json_text().as_str())),
            },
            None => return Err(save_decode_err("invalid file: ", "null")),
        };
        let path = match resolve(file) {
            Some(p) => p,
            None => return Err(SaveFileError::new(SaveFileErrorType::NotFound, file, "")),
        };
        let content = match get_json_field(payload, "content") {
            Ok(c) => c,
            Err(e) => return Err(save_decode_err("invalid content: ", e.as_str())),
        };
        let note = match payload.get("note") {
            Some(v) => match v.as_str() {
                Some(s) => s,
                None => return Err(save_decode_err("invalid note: ", v.to_json_text().as_str())),
            },
            None => return Err(save_decode_err("invalid note: ", "null")),
        };
        Ok(SaveFile { path, content, note: note.to_string() })
    }

    /// Writes the file: refused when the path may not be written, an error
    /// when the content is empty or `write` fails (with its message).
    /// `write` gets the path and the content, and may be called only when
    /// the path may be written and the content is not empty.
    pub fn execute<W: FnOnce(&str, &str) -> Result<(), String>>(self, allowed: bool, write: W) -> (r:
        Result<SaveFileResult, SaveFileError>)
        requires
            forall|p: &str, t: &str|
                allowed && self.content@.len() > 0 && p@ == self.path@ && t@ == self.content@ ==> call_requires(
                    write,
                    (p, t),
                ),
        ensures
            !allowed ==> save_err_is(r, SaveFileErrorType::Forbidden, save_detail(self.path@, Seq::empty())),
            allowed && self.content@.len() == 0 ==> save_err_is(r, SaveFileErrorType::EmptyContent, save_detail(self.path@, Seq::empty())),
            allowed && self.content@.len() > 0 ==> exists|p: &str, t: &str, out: Result<(), String>| p@ == self.path@
                && t@ == self.content@ && call_ensures(write, (p, t), out) && match out {
                    Ok(_) => r matches Ok(x) && x.path == self.path,
                    Err(m) => save_err_is(r, SaveFileErrorType::WriteFailed, save_detail(self.path@, m@)),
                },
    {
        proof {
            reveal_strlit("");
        }
        if !allowed {
            return Err(SaveFileError::new(SaveFileErrorType::Forbidden, self.path.as_str(), ""));
        }
        if self.content.as_str().is_empty() {
            return Err(SaveFileError::new(SaveFileErrorType::EmptyContent, self.path.as_str(), ""));
        }
        match write(self.path.as_str(), self.content.as_str()) {
            Ok(_) => Ok(SaveFileResult { path: self.path }),
            Err(m) => Err(SaveFileError::new(SaveFileErrorType::WriteFailed, self.path.as_str(), m.as_str())),
        }
    }
}

impl SaveFileResult {
    /// `SaveFile call_<n>: ` followed by the path in `Debug` form.
    pub fn to_string(&self, message_id: AIMessageId) -> (r: String)
        ensures
            r@ == "SaveFile "@ + id_text(message_id) + ": "@ + debug_text(self.path@),
    {
        let mut t = to_chars("SaveFile ");
        let id = message_id.text_chars();
        append_chars(&mut t, id.as_slice());
        append_str(&mut t, ": ");
        let d = debug_quote(self.path.as_str());
        append_str(&mut t, d.as_str());
        from_chars(t.as_slice())
    }
}

impl SaveFileError {
    /// An error whose detail is `<path>: <info>`.
    pub fn new(err_type: SaveFileErrorType, path: &str, info: &str) -> (r: Self)
        ensures
            r.err_type == err_type,
            r.err_info@ == save_detail(path@, info@),
    {
        let mut t = to_chars(path);
        append_str(&mut t, ": ");
        append_str(&mut t, info);
        Self { err_type, err_info: from_chars(t.as_slice()) }
    }

    /// The kind of the error.
    pub fn err_type(&self) -> (t: SaveFileErrorType)
        ensures
            t == self.err_type,
    {
        self.err_type
    }

    /// The detail of the error.
    pub fn err_info(&self) -> (s: &String)
        ensures
            *s == self.err_info,
    {
        &self.err_info
    }

    /// `<kind>: <detail>` (its `Display` output).
    pub fn to_string(&self) -> (r: String)
        ensures
            r@ == save_err_name(self.err_type) + ": "@ + self.err_info@,
    {
        let mut t = to_chars(match self.err_type {
            SaveFileErrorType::DecodeError => "DecodeError",
            SaveFileErrorType::Forbidden => "Forbidden",
            SaveFileErrorType::NotFound => "NotFound",
            SaveFileErrorType::WriteFailed => "WriteFailed",
            SaveFileErrorType::EmptyContent => "EmptyContent",
        });
        append_str(&mut t, ": ");
        append_str(&mut t, self.err_info.as_str());
        from_chars(t.as_slice())
    }
}

impl ResultToString for Result<SaveFileResult, SaveFileError> {
    fn to_msg_string(&self, msg_id: AIMessageId) -> (r: String)
        ensures
            r@ == match self {
                Ok(ok) => "SaveFile "@ + id_text(msg_id) + ": "@ + debug_text(ok.path@),
                Err(e) => save_err_name(e.err_type) + ": "@ + e.err_info@,
            },
    {
        match self {
            Ok(ok) => ok.to_string(msg_id),
            Err(err) => err.to_string(),
        }
    }
}

impl Validatable for Result<SaveFileResult, SaveFileError> {
    fn is_valid(&self) -> (b: bool)
        ensures
            b == self is Ok,
    {
        self.is_ok()
    }
}

} // verus!

verus! {

/// The text of the reply to a failed call of kind `t` with detail `info`.
pub open spec fn save_error_message(t: SaveFileErrorType, info: Seq<char>) -> Seq<char> {
    match t {
        SaveFileErrorType::DecodeError => "[save_file] ERROR: decode error: "@ + info,
        SaveFileErrorType::Forbidden => "[save_file] ERROR: not allowed to read: "@ + info,
        SaveFileErrorType::NotFound => "[save_file] ERROR: file not found: "@ + info,
        SaveFileErrorType::WriteFailed => "[save_file] ERROR: write failed: "@ + info,
        SaveFileErrorType::EmptyContent => "[save_file] ERROR: empty content: "@ + info,
    }
}

/// The text of the reply that returns `r` to the call `id`.
pub open spec fn save_reply(r: Result<SaveFileResult, SaveFileError>, id: AIMessageId) -> Seq<char> {
    match r {
        Ok(ok) => tool_reply_text(id_string_text(id), ok.path@),
        Err(e) => tool_reply_text(id_string_text(id), save_error_message(e.err_type, e.err_info@)),
    }
}

impl SaveFileResult {
    /// The reply that returns the output to the call `message_id`.
    pub fn to_json(&self, message_id: AIMessageId) -> (r: JsonValue)
        ensures
            json_text(r) == tool_reply_text(id_string_text(message_id), self.path@),
    {
        tool_reply(id_string(message_id), self.path.clone())
    }
}

impl SaveFileError {
    /// The reply that reports the failure to the call `message_id`.
    pub fn to_json(&self, message_id: AIMessageId) -> (r: JsonValue)
        ensures
            json_text(r) == tool_reply_text(id_string_text(message_id), save_error_message(self.err_type, self.err_info@)),
    {
        let prefix: &str = match self.err_type {
            SaveFileErrorType::DecodeError => "[save_file] ERROR: decode error: ",
            SaveFileErrorType::Forbidden => "[save_file] ERROR: not allowed to read: ",
            SaveFileErrorType::NotFound => "[save_file] ERROR: file not found: ",
            SaveFileErrorType::WriteFailed => "[save_file] ERROR: write failed: ",
            SaveFileErrorType::EmptyContent => "[save_file] ERROR: empty content: ",
        };
        let mut msg = to_chars(prefix);
        append_str(&mut msg, self.err_info.as_str());
        tool_reply(id_string(message_id), from_chars(msg.as_slice()))
    }
}

impl ResultToJson for Result<SaveFileResult, SaveFileError> {
    fn to_json(&self, msg_id: AIMessageId) -> (r: JsonValue)
        ensures
            json_text(r) == save_reply(*self, msg_id),
    {
        match self {
            Ok(ok) => ok.to_json(msg_id),
            Err(err) => err.to_json(msg_id),
        }
    }
}

} // verus!
