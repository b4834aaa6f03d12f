//! The tool kinds and the traits shared by all tool results.

use vstd::prelude::*;
use crate::aimessage::AIMessageId;
use crate::json::JsonValue;
use crate::text::{chars_eq, to_chars};

verus! {

/// The kinds of tools the model may call.
#[derive(Debug, Clone, Copy, PartialEq, Eq, Structural)]
pub enum AIToolType {
    AddNote,
    Ast,
    Done,
    Failed,
    ListDir,
    LoadFile,
    LoadFilePart,
    SaveFile,
    SaveFilePart,
    ScanDir,
    SetFocus,
    Valid,
}

/// Turns a tool result into the text line that is shown to the model.
pub trait ResultToString {
    fn to_msg_string(&self, msg_id: AIMessageId) -> String;
}

/// Turns a tool result into the JSON reply that is returned to the model.
pub trait ResultToJson {
    fn to_json(&self, msg_id: AIMessageId) -> JsonValue;
}

/// Whether a tool result counts as a successful tool call.
pub trait Validatable {
    fn is_valid(&self) -> bool;
}

/// The name a tool kind has in its `Debug` output.
pub open spec fn tool_debug_name(t: AIToolType) -> Seq<char> {
    match t {
        AIToolType::AddNote => "AddNote"@,
        AIToolType::Ast => "Ast"@,
        AIToolType::Done => "Done"@,
        AIToolType::Failed => "Failed"@,
        AIToolType::ListDir => "ListDir"@,
        AIToolType::LoadFile => "LoadFile"@,
        AIToolType::LoadFilePart => "LoadFilePart"@,
        AIToolType::SaveFile => "SaveFile"@,
        AIToolType::SaveFilePart => "SaveFilePart"@,
        AIToolType::ScanDir => "ScanDir"@,
        AIToolType::SetFocus => "SetFocus"@,
        AIToolType::Valid => "Valid"@,
    }
}

impl AIToolType {
    /// Saving tools.
    pub fn is_save(self) -> (b: bool)
        ensures
            b == (self == AIToolType::SaveFile || self == AIToolType::SaveFilePart),
    {
        matches!(self, AIToolType::SaveFile | AIToolType::SaveFilePart)
    }

    /// The outline tool.
    pub fn is_ast(self) -> (b: bool)
        ensures
            b == (self == AIToolType::Ast),
    {
        matches!(self, AIToolType::Ast)
    }

    /// Loading tools.
    pub fn is_load(self) -> (b: bool)
        ensures
            b == (self == AIToolType::LoadFile || self == AIToolType::LoadFilePart),
    {
        matches!(self, AIToolType::LoadFile | AIToolType::LoadFilePart)
    }

    /// The tool that ends a task.
    pub fn is_done(self) -> (b: bool)
        ensures
            b == (self == AIToolType::Done),
    {
        matches!(self, AIToolType::Done)
    }

    /// The tool that reports a failure.
    pub fn is_failed(self) -> (b: bool)
        ensures
            b == (self == AIToolType::Failed),
    {
        matches!(self, AIToolType::Failed)
    }

    /// The note tool.
    pub fn is_note(self) -> (b: bool)
        ensures
            b == (self == AIToolType::AddNote),
    {
        matches!(self, AIToolType::AddNote)
    }

    /// The tool that loads a whole file.
    pub fn is_full_load(self) -> (b: bool)
        ensures
            b == (self == AIToolType::LoadFile),
    {
        self == AIToolType::LoadFile
    }

    /// The `Debug` name of the tool kind.
    pub fn debug_name(self) -> (r: &'static str)
        ensures
            r@ == tool_debug_name(self),
    {
        match self {
            AIToolType::AddNote => "AddNote",
            AIToolType::Ast => "Ast",
            AIToolType::Done => "Done",
            AIToolType::Failed => "Failed",
            AIToolType::ListDir => "ListDir",
            AIToolType::LoadFile => "LoadFile",
            AIToolType::LoadFilePart => "LoadFilePart",
            AIToolType::SaveFile => "SaveFile",
            AIToolType::SaveFilePart => "SaveFilePart",
            AIToolType::ScanDir => "ScanDir",
            AIToolType::SetFocus => "SetFocus",
            AIToolType::Valid => "Valid",
        }
    }
}

/// The action names the model may use and the tool each one selects. There is
/// no action name for `ScanDir`.
pub open spec fn tool_by_name(name: Seq<char>) -> Option<AIToolType> {
    if name == "add_note"@ {
        Some(AIToolType::AddNote)
    } else if name == "ast"@ {
        Some(AIToolType::Ast)
    } else if name == "done"@ {
        Some(AIToolType::Done)
    } else if name == "failed"@ {
        Some(AIToolType::Failed)
    } else if name == "list_dir"@ {
        Some(AIToolType::ListDir)
    } else if name == "load_file"@ {
        Some(AIToolType::LoadFile)
    } else if name == "load_file_part"@ {
        Some(AIToolType::LoadFilePart)
    } else if name == "save_file"@ {
        Some(AIToolType::SaveFile)
    } else if name == "save_file_part"@ {
        Some(AIToolType::SaveFilePart)
    } else if name == "set_focus"@ {
        Some(AIToolType::SetFocus)
    } else if name == "valid"@ {
        Some(AIToolType::Valid)
    } else {
        None
    }
}

fn name_is(name: &[char], lit: &str) -> (b: bool)
    ensures
        b == (name@ == lit@),
{
    let l = to_chars(lit);
    chars_eq(name, l.as_slice())
}

/// Looks up the tool for an action name.
pub fn tool_from_name(name: &str) -> (r: Option<AIToolType>)
    ensures
        r == tool_by_name(name@),
{
    let n = to_chars(name);
    let s = n.as_slice();
    if name_is(s, "add_note") {
        Some(AIToolType::AddNote)
    } else if name_is(s, "ast") {
        Some(AIToolType::Ast)
    } else if name_is(s, "done") {
        Some(AIToolType::Done)
    } else if name_is(s, "failed") {
        Some(AIToolType::Failed)
    } else if name_is(s, "list_dir") {
        Some(AIToolType::ListDir)
    } else if name_is(s, "load_file") {
        Some(AIToolType::LoadFile)
    } else if name_is(s, "load_file_part") {
        Some(AIToolType::LoadFilePart)
    } else if name_is(s, "save_file") {
        Some(AIToolType::SaveFile)
    } else if name_is(s, "save_file_part") {
        Some(AIToolType::SaveFilePart)
    } else if name_is(s, "set_focus") {
        Some(AIToolType::SetFocus)
    } else if name_is(s, "valid") {
        Some(AIToolType::Valid)
    } else {
        None
    }
}

} // verus!
