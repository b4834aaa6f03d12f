//! The JSON replies with which tool results are returned to the model.

use vstd::prelude::*;
use crate::aimessage::{id_text, AIMessageId};
use crate::json::{json_text, member_text, member_texts, object_from, object_text, str_member, JsonNumber, JsonValue};
use crate::json_text::json_quote;
use crate::text::decimal;

verus! {

/// The text of the reply to a tool call: the content, the role `tool` and
/// the call id (whose JSON text is `call_id`).
pub open spec fn tool_reply_text(call_id: Seq<char>, content: Seq<char>) -> Seq<char> {
    object_text(
        seq![
            member_text("content"@, json_quote(content)),
            member_text("role"@, json_quote("tool"@)),
            member_text("tool_call_id"@, call_id),
        ],
    )
}

/// The JSON text of a message id written as its structure: `{"val":n}`.
pub open spec fn id_object_text(id: AIMessageId) -> Seq<char> {
    object_text(seq![member_text("val"@, decimal(id.val as nat))])
}

/// The JSON text of a message id written as its text: `"call_n"`.
pub open spec fn id_string_text(id: AIMessageId) -> Seq<char> {
    json_quote(id_text(id))
}

/// A message id as its structure `{"val":n}`.
pub fn id_object(id: AIMessageId) -> (r: JsonValue)
    ensures
        json_text(r) == id_object_text(id),
{
    let mut members: Vec<(String, JsonValue)> = Vec::new();
    members.push(("val".to_string(), JsonValue::Number(JsonNumber::PosInt(id.val as u64))));
    let r = object_from(members);
    proof {
        reveal_strlit("val");
        assert(member_texts(members@) =~= seq![member_text("val"@, decimal(id.val as nat))]);
    }
    r
}

/// A message id as the string `"call_n"`.
pub fn id_string(id: AIMessageId) -> (r: JsonValue)
    ensures
        json_text(r) == id_string_text(id),
{
    JsonValue::Str(id.to_string())
}

/// The reply to a tool call with the given call id and content.
pub fn tool_reply(call_id: JsonValue, content: String) -> (r: JsonValue)
    ensures
        json_text(r) == tool_reply_text(json_text(call_id), content@),
{
    let ghost id_text = json_text(call_id);
    let ghost c = content@;
    let mut members: Vec<(String, JsonValue)> = Vec::new();
    members.push(str_member("content", content));
    members.push(str_member("role", "tool".to_string()));
    members.push(("tool_call_id".to_string(), call_id));
    let r = object_from(members);
    proof {
        reveal_strlit("content");
        reveal_strlit("role");
        reveal_strlit("tool");
        reveal_strlit("tool_call_id");
        assert(member_texts(members@) =~= seq![
            member_text("content"@, json_quote(c)),
            member_text("role"@, json_quote("tool"@)),
            member_text("tool_call_id"@, id_text),
        ]);
    }
    r
}

} // verus!
