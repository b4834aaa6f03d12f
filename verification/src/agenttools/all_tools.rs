//! The result of any tool call, and the choice of the tool a payload calls.

use vstd::prelude::*;
use crate::agenttools::add_note::{note_reply, note_of, AddNote, AddNoteError, AddNoteResult};
use crate::agenttools::aitooltype::{tool_by_name, tool_from_name, AIToolType, ResultToJson, ResultToString, Validatable};
use crate::agenttools::ast::{ast_reply, ast_err_name, ast_path_of, Ast, AstError, AstResult};
use crate::agenttools::done::{done_reply, Done, DoneError, DoneResult};
use crate::agenttools::failed::{failed_reply, Failed, FailedError, FailedResult};
use crate::agenttools::list_dir::{list_dir_reply, list_dir_err_name, list_dir_path_of, ListDir, ListDirError, ListDirResult};
use crate::agenttools::load_file::{load_file_reply, load_file_err_name, load_file_path_of, LoadFile, LoadFileError, LoadFileResult};
use crate::agenttools::load_file_part::{part_reply, err_name, int_of, load_file_part_decoded, start_field, str_of, LoadFilePart, LoadFilePartError, LoadFilePartResult};
use crate::agenttools::save_file::{save_reply, save_err_name, save_file_decoded, SaveFile, SaveFileError, SaveFileResult};
use crate::agenttools::save_file_replace_part::{replace_reply, part_err_name, save_file_part_decoded, SaveFilePart, SaveFilePartError, SaveFilePartResult};
use crate::agenttools::scan_dir::{scan_dir_reply, scan_dir_err_name, ScanDir, ScanDirError, ScanDirResult};
use crate::agenttools::set_focus::{focus_reply, focus_of, SetFocus, SetFocusError, SetFocusResult};
use crate::agenttools::valid::{valid_reply, Valid, ValidError, ValidResult};
use crate::aimessage::{id_line, id_text, AIMessageId};
use crate::json::{json_get, json_text, JsonValue};
use crate::text::{append_str, debug_text, from_chars, to_chars};

verus! {

/// The outcome of one tool call.
#[derive(Debug)]
pub enum ToolOutput {
    AddNote(Result<AddNoteResult, AddNoteError>),
    Ast(Result<AstResult, AstError>),
    Done(Result<DoneResult, DoneError>),
    Failed(Result<FailedResult, FailedError>),
    ListDir(Result<ListDirResult, ListDirError>),
    LoadFile(Result<LoadFileResult, LoadFileError>),
    LoadFilePart(Result<LoadFilePartResult, LoadFilePartError>),
    SaveFile(Result<SaveFileResult, SaveFileError>),
    SaveFilePart(Result<SaveFilePartResult, SaveFilePartError>),
    ScanDir(Result<ScanDirResult, ScanDirError>),
    SetFocus(Result<SetFocusResult, SetFocusError>),
    Valid(Result<ValidResult, ValidError>),
}

/// Whether an outcome counts as a valid tool call: done and valid always,
/// failed never, the others when they succeeded.
pub open spec fn output_valid(o: ToolOutput) -> bool {
    match o {
        ToolOutput::AddNote(r) => r is Ok,
        ToolOutput::Ast(r) => r is Ok,
        ToolOutput::Done(_) => true,
        ToolOutput::Failed(_) => false,
        ToolOutput::ListDir(r) => r is Ok,
        ToolOutput::LoadFile(r) => r is Ok,
        ToolOutput::LoadFilePart(r) => r is Ok,
        ToolOutput::SaveFile(r) => r is Ok,
        ToolOutput::SaveFilePart(r) => r is Ok,
        ToolOutput::ScanDir(r) => r is Ok,
        ToolOutput::SetFocus(r) => r is Ok,
        ToolOutput::Valid(_) => true,
    }
}

/// The tool kind of an outcome.
pub open spec fn output_base(o: ToolOutput) -> AIToolType {
    match o {
        ToolOutput::AddNote(_) => AIToolType::AddNote,
        ToolOutput::Ast(_) => AIToolType::Ast,
        ToolOutput::Done(_) => AIToolType::Done,
        ToolOutput::Failed(_) => AIToolType::Failed,
        ToolOutput::ListDir(_) => AIToolType::ListDir,
        ToolOutput::LoadFile(_) => AIToolType::LoadFile,
        ToolOutput::LoadFilePart(_) => AIToolType::LoadFilePart,
        ToolOutput::SaveFile(_) => AIToolType::SaveFile,
        ToolOutput::SaveFilePart(_) => AIToolType::SaveFilePart,
        ToolOutput::ScanDir(_) => AIToolType::ScanDir,
        ToolOutput::SetFocus(_) => AIToolType::SetFocus,
        ToolOutput::Valid(_) => AIToolType::Valid,
    }
}

/// The line shown to the model for an outcome.
pub open spec fn output_msg(o: ToolOutput, id: AIMessageId) -> Seq<char> {
    match o {
        ToolOutput::AddNote(r) => match r {
            Ok(ok) => id_line(id, ok.data@),
            Err(_) => "error occured"@,
        },
        ToolOutput::Ast(r) => match r {
            Ok(ok) => id_line(id, ok.data@),
            Err(e) => ast_err_name(e.err_type) + ": "@ + e.err_info@,
        },
        ToolOutput::Done(r) => match r {
            Ok(ok) => "Done "@ + id_line(id, ok.data@),
            Err(_) => "error occured"@,
        },
        ToolOutput::Failed(r) => match r {
            Ok(ok) => id_line(id, ok.data@),
            Err(_) => "error occured"@,
        },
        ToolOutput::ListDir(r) => match r {
            Ok(ok) => id_line(id, ok.data@),
            Err(e) => list_dir_err_name(e.err_type) + ": "@ + e.err_info@,
        },
        ToolOutput::LoadFile(r) => match r {
            Ok(ok) => id_line(id, ok.data@),
            Err(e) => load_file_err_name(e.err_type) + ": "@ + e.err_info@,
        },
        ToolOutput::LoadFilePart(r) => match r {
            Ok(ok) => id_line(id, ok.data@),
            Err(e) => err_name(e.err_type) + ": "@ + e.err_info@,
        },
        ToolOutput::SaveFile(r) => match r {
            Ok(ok) => "SaveFile "@ + id_text(id) + ": "@ + debug_text(ok.path@),
            Err(e) => save_err_name(e.err_type) + ": "@ + e.err_info@,
        },
        ToolOutput::SaveFilePart(r) => match r {
            Ok(ok) => id_line(id, ok.content@),
            Err(e) => part_err_name(e.err_type) + ": "@ + e.err_info@,
        },
        ToolOutput::ScanDir(r) => match r {
            Ok(ok) => id_line(id, debug_text(ok.data@)),
            Err(e) => scan_dir_err_name(e.err_type) + ": "@ + e.err_info@,
        },
        ToolOutput::SetFocus(r) => match r {
            Ok(ok) => id_line(id, ok.data@),
            Err(_) => "error occured"@,
        },
        ToolOutput::Valid(r) => match r {
            Ok(ok) => id_line(id, ok.data@),
            Err(_) => "error occured"@,
        },
    }
}

/// The JSON reply returned to the model for an outcome.
pub open spec fn output_json(o: ToolOutput, id: AIMessageId) -> Seq<char> {
    match o {
        ToolOutput::AddNote(r) => note_reply(r, id),
        ToolOutput::Ast(r) => ast_reply(r, id),
        ToolOutput::Done(r) => done_reply(r, id),
        ToolOutput::Failed(r) => failed_reply(r, id),
        ToolOutput::ListDir(r) => list_dir_reply(r, id),
        ToolOutput::LoadFile(r) => load_file_reply(r, id),
        ToolOutput::LoadFilePart(r) => part_reply(r, id),
        ToolOutput::SaveFile(r) => save_reply(r, id),
        ToolOutput::SaveFilePart(r) => replace_reply(r, id),
        ToolOutput::ScanDir(r) => scan_dir_reply(r, id),
        ToolOutput::SetFocus(r) => focus_reply(r, id),
        ToolOutput::Valid(r) => valid_reply(r, id),
    }
}

impl ToolOutput {
    /// Whether the outcome counts as a valid tool call.
    pub fn is_valid(&self) -> (b: bool)
        ensures
            b == output_valid(*self),
    {
        match self {
            ToolOutput::AddNote(r) => r.is_valid(),
            ToolOutput::Ast(r) => r.is_valid(),
            ToolOutput::Done(r) => r.is_valid(),
            ToolOutput::Failed(r) => r.is_valid(),
            ToolOutput::ListDir(r) => r.is_valid(),
            ToolOutput::LoadFile(r) => r.is_valid(),
            ToolOutput::LoadFilePart(r) => r.is_valid(),
            ToolOutput::SaveFile(r) => r.is_valid(),
            ToolOutput::SaveFilePart(r) => r.is_valid(),
            ToolOutput::ScanDir(r) => r.is_valid(),
            ToolOutput::SetFocus(r) => r.is_valid(),
            ToolOutput::Valid(r) => r.is_valid(),
        }
    }

    /// Whether the outcome is that of the done tool.
    pub fn is_done(&self) -> (b: bool)
        ensures
            b == (*self is Done),
    {
        matches!(self, ToolOutput::Done(_))
    }

    /// The tool kind of the outcome.
    pub fn to_base(&self) -> (t: AIToolType)
        ensures
            t == output_base(*self),
    {
        match self {
            ToolOutput::AddNote(_) => AIToolType::AddNote,
            ToolOutput::Ast(_) => AIToolType::Ast,
            ToolOutput::Done(_) => AIToolType::Done,
            ToolOutput::Failed(_) => AIToolType::Failed,
            ToolOutput::ListDir(_) => AIToolType::ListDir,
            ToolOutput::LoadFile(_) => AIToolType::LoadFile,
            ToolOutput::LoadFilePart(_) => AIToolType::LoadFilePart,
            ToolOutput::SaveFile(_) => AIToolType::SaveFile,
            ToolOutput::SaveFilePart(_) => AIToolType::SaveFilePart,
            ToolOutput::ScanDir(_) => AIToolType::ScanDir,
            ToolOutput::SetFocus(_) => AIToolType::SetFocus,
            ToolOutput::Valid(_) => AIToolType::Valid,
        }
    }

    /// The JSON reply returned to the model for the outcome.
    pub fn to_json(&self, message_id: AIMessageId) -> (r: JsonValue)
        ensures
            json_text(r) == output_json(*self, message_id),
    {
        match self {
            ToolOutput::AddNote(r) => r.to_json(message_id),
            ToolOutput::Ast(r) => r.to_json(message_id),
            ToolOutput::Done(r) => r.to_json(message_id),
            ToolOutput::Failed(r) => r.to_json(message_id),
            ToolOutput::ListDir(r) => r.to_json(message_id),
            ToolOutput::LoadFile(r) => r.to_json(message_id),
            ToolOutput::LoadFilePart(r) => r.to_json(message_id),
            ToolOutput::SaveFile(r) => r.to_json(message_id),
            ToolOutput::SaveFilePart(r) => r.to_json(message_id),
            ToolOutput::ScanDir(r) => r.to_json(message_id),
            ToolOutput::SetFocus(r) => r.to_json(message_id),
            ToolOutput::Valid(r) => r.to_json(message_id),
        }
    }

    /// The line shown to the model for the outcome.
    pub fn to_string(&self, message_id: AIMessageId) -> (r: String)
        ensures
            r@ == output_msg(*self, message_id),
    {
        match self {
            ToolOutput::AddNote(r) => r.to_msg_string(message_id),
            ToolOutput::Ast(r) => r.to_msg_string(message_id),
            ToolOutput::Done(r) => r.to_msg_string(message_id),
            ToolOutput::Failed(r) => r.to_msg_string(message_id),
            ToolOutput::ListDir(r) => r.to_msg_string(message_id),
            ToolOutput::LoadFile(r) => r.to_msg_string(message_id),
            ToolOutput::LoadFilePart(r) => r.to_msg_string(message_id),
            ToolOutput::SaveFile(r) => r.to_msg_string(message_id),
            ToolOutput::SaveFilePart(r) => r.to_msg_string(message_id),
            ToolOutput::ScanDir(r) => r.to_msg_string(message_id),
            ToolOutput::SetFocus(r) => r.to_msg_string(message_id),
            ToolOutput::Valid(r) => r.to_msg_string(message_id),
        }
    }
}


/// A decoded tool request, ready to be carried out.
#[derive(Debug)]
pub enum ToolCall {
    AddNote(AddNote),
    Ast(Ast),
    Done(Done),
    Failed(Failed),
    ListDir(ListDir),
    LoadFile(LoadFile),
    LoadFilePart(LoadFilePart),
    SaveFile(SaveFile),
    SaveFilePart(SaveFilePart),
    ScanDir(ScanDir),
    SetFocus(SetFocus),
    Valid(Valid),
}

/// The `action` member of a payload, when it is a string.
pub open spec fn action_of(payload: JsonValue) -> Option<Seq<char>> {
    str_of(json_get(payload, "action"@))
}

/// `c` reports a failure with the text `data`.
pub open spec fn fails_with(c: ToolCall, data: Seq<char>) -> bool {
    c matches ToolCall::Failed(f) && f.data@ == data
}

/// The tool a payload selects, and what `select_tool` may return for it.
pub open spec fn selected<F: FnOnce(&str) -> Option<String>, G: FnOnce(&str) -> String>(
    payload: JsonValue,
    resolve: F,
    resolve_strict: G,
    c: ToolCall,
) -> bool {
    match action_of(payload) {
        None => fails_with(c, "No action found in payload"@),
        Some(a) => match tool_by_name(a) {
            None => fails_with(c, "key not found: "@ + json_text(payload)),
            Some(AIToolType::AddNote) => c matches ToolCall::AddNote(x) && x.data@ == note_of(payload),
            Some(AIToolType::Ast) => c matches ToolCall::Ast(x) && x.path@ == ast_path_of(payload),
            Some(AIToolType::Done) => c matches ToolCall::Done(x) && x.data@.len() == 0,
            Some(AIToolType::Failed) => c matches ToolCall::Failed(x) && x.data@.len() == 0,
            Some(AIToolType::ListDir) => c matches ToolCall::ListDir(x) && exists|s: &str|
                s@ == list_dir_path_of(payload)->0 && call_ensures(resolve_strict, (s,), x.path),
            Some(AIToolType::LoadFile) => c matches ToolCall::LoadFile(x) && exists|s: &str|
                s@ == load_file_path_of(payload)->0 && call_ensures(resolve_strict, (s,), x.path),
            Some(AIToolType::LoadFilePart) => exists|r: Result<LoadFilePart, LoadFilePartError>|
                load_file_part_decoded(payload, resolve, r) && match r {
                    Ok(x) => c == ToolCall::LoadFilePart(x),
                    Err(e) => fails_with(c, err_name(e.err_type) + ": "@ + e.err_info@),
                },
            Some(AIToolType::SaveFile) => exists|r: Result<SaveFile, SaveFileError>|
                save_file_decoded(payload, resolve, r) && match r {
                    Ok(x) => c == ToolCall::SaveFile(x),
                    Err(e) => fails_with(c, save_err_name(e.err_type) + ": "@ + e.err_info@),
                },
            Some(AIToolType::SaveFilePart) => exists|r: Result<SaveFilePart, SaveFilePartError>|
                save_file_part_decoded(payload, resolve, r) && match r {
                    Ok(x) => c == ToolCall::SaveFilePart(x),
                    Err(e) => fails_with(c, part_err_name(e.err_type) + ": "@ + e.err_info@),
                },
            Some(AIToolType::ScanDir) => false,
            Some(AIToolType::SetFocus) => c matches ToolCall::SetFocus(x) && x.data@ == focus_of(payload),
            Some(AIToolType::Valid) => c matches ToolCall::Valid(x) && x.data@.len() == 0,
        },
    }
}

/// What a payload must hold so that decoding it cannot fail hard: a string
/// path for `list_dir` and `load_file`, and a first line for `load_file_part`
/// whose `i32` truncation is not the smallest `i32`.
pub open spec fn selectable(payload: JsonValue) -> bool {
    match action_of(payload) {
        Some(a) => match tool_by_name(a) {
            Some(AIToolType::ListDir) => list_dir_path_of(payload) is Some,
            Some(AIToolType::LoadFile) => load_file_path_of(payload) is Some,
            Some(AIToolType::LoadFilePart) => int_of(start_field(payload)) matches Some(st) ==> (st as i32) != i32::MIN,
            _ => true,
        },
        None => true,
    }
}

/// Whether `payload` can be given to `select_tool` (see `selectable`): a
/// request that names `list_dir` or `load_file` without a string path, or
/// `load_file_part` with a first line whose `i32` truncation is the
/// smallest `i32`, cannot be decoded.
pub fn is_selectable(payload: &JsonValue) -> (b: bool)
    ensures
        b == selectable(*payload),
{
    let action = match payload.get("action") {
        Some(v) => match v.as_str() {
            Some(a) => a,
            None => return true,
        },
        None => return true,
    };
    let text_member = |name: &str| -> (r: bool)
        ensures
            r == (str_of(json_get(*payload, name@)) is Some),
        {
            match payload.get(name) {
                Some(v) => v.as_str().is_some(),
                None => false,
            }
        };
    match tool_from_name(action) {
        Some(AIToolType::ListDir) => text_member("path"),
        Some(AIToolType::LoadFile) => text_member("file"),
        Some(AIToolType::LoadFilePart) => {
            let start = match payload.get("start") {
                Some(v) => Some(v),
                None => payload.get("pos"),
            };
            match start {
                Some(v) => match v.as_i64() {
                    Some(st) => (st as i32) != i32::MIN,
                    None => true,
                },
                None => true,
            }
        },
        _ => true,
    }
}

fn failed_with(prefix: &str, rest: &str) -> (c: ToolCall)
    ensures
        fails_with(c, prefix@ + rest@),
{
    let mut t = to_chars(prefix);
    append_str(&mut t, rest);
    ToolCall::Failed(Failed::from_string(from_chars(t.as_slice())))
}

/// Chooses the tool that the `action` member of `payload` names and decodes
/// its request; paths are resolved with `resolve` (or with `resolve_strict`
/// for `list_dir` and `load_file`). A payload without action, an unknown
/// action or a request that does not decode becomes a failure report.
pub fn select_tool<F: FnOnce(&str) -> Option<String>, G: FnOnce(&str) -> String>(
    payload: &JsonValue,
    resolve: F,
    resolve_strict: G,
) -> (c: ToolCall)
    requires
        forall|s: &str| call_requires(resolve, (s,)),
        forall|s: &str| call_requires(resolve_strict, (s,)),
        selectable(*payload),
    ensures
        selected(*payload, resolve, resolve_strict, c),
{
    proof {
        reveal_strlit("No action found in payload");
    }
    let action = match payload.get("action") {
        Some(v) => match v.as_str() {
            Some(a) => a,
            None => return ToolCall::Failed(Failed::from_string("No action found in payload".to_string())),
        },
        None => return ToolCall::Failed(Failed::from_string("No action found in payload".to_string())),
    };
    match tool_from_name(action) {
        Some(AIToolType::AddNote) => ToolCall::AddNote(AddNote::from_json(payload)),
        Some(AIToolType::Ast) => ToolCall::Ast(Ast::from_json(payload)),
        Some(AIToolType::Done) => ToolCall::Done(Done::default()),
        Some(AIToolType::Failed) => ToolCall::Failed(Failed::default()),
        Some(AIToolType::ListDir) => ToolCall::ListDir(ListDir::from_json(payload, resolve_strict)),
        Some(AIToolType::LoadFile) => ToolCall::LoadFile(LoadFile::from_json(payload, resolve_strict)),
        Some(AIToolType::LoadFilePart) => match LoadFilePart::from_json(payload, resolve) {
            Ok(obj) => ToolCall::LoadFilePart(obj),
            Err(err) => ToolCall::Failed(Failed::from_string(err.to_string())),
        },
        Some(AIToolType::SaveFile) => match SaveFile::from_json(payload, resolve) {
            Ok(obj) => ToolCall::SaveFile(obj),
            Err(err) => ToolCall::Failed(Failed::from_string(err.to_string())),
        },
        Some(AIToolType::SaveFilePart) => match SaveFilePart::from_json(payload, resolve) {
            Ok(obj) => ToolCall::SaveFilePart(obj),
            Err(err) => ToolCall::Failed(Failed::from_string(err.to_string())),
        },
        Some(AIToolType::ScanDir) => {
            assert(false);
            ToolCall::Failed(Failed::default())
        },
        Some(AIToolType::SetFocus) => ToolCall::SetFocus(SetFocus::from_json(payload)),
        Some(AIToolType::Valid) => ToolCall::Valid(Valid::default()),
        None => failed_with("key not found: ", payload.to_json_text().as_str()),
    }
}

} // verus!
