//! Reading string members of a JSON payload.

use vstd::prelude::*;
use crate::json::{json_as_str, json_get, json_text, JsonValue};
use crate::text::{append_str, from_chars, to_chars};

verus! {

/// The string member `name` of `payload`, or the message that explains why
/// there is none (which shows the whole payload).
pub open spec fn json_field(payload: JsonValue, name: Seq<char>) -> Result<Seq<char>, Seq<char>> {
    match json_get(payload, name) {
        Some(content) => match json_as_str(content) {
            Some(text) => Ok(text),
            None => Err("got field "@ + name + ", but it is empty:\n"@ + json_text(payload)),
        },
        None => Err("field "@ + name + " not found:\n"@ + json_text(payload)),
    }
}

/// Reads the string member `name` of `payload`.
pub fn get_json_field(payload: &JsonValue, name: &str) -> (r: Result<String, String>)
    ensures
        match r {
            Ok(t) => json_field(*payload, name@) == Ok::<Seq<char>, Seq<char>>(t@),
            Err(e) => json_field(*payload, name@) == Err::<Seq<char>, Seq<char>>(e@),
        },
{
    match payload.get(name) {
        Some(content) => match content.as_str() {
            Some(text) => Ok(text.to_string()),
            None => {
                let mut e = to_chars("got field ");
                append_str(&mut e, name);
                append_str(&mut e, ", but it is empty:\n");
                append_str(&mut e, payload.to_json_text().as_str());
                Err(from_chars(e.as_slice()))
            },
        },
        None => {
            let mut e = to_chars("field ");
            append_str(&mut e, name);
            append_str(&mut e, " not found:\n");
            append_str(&mut e, payload.to_json_text().as_str());
            Err(from_chars(e.as_slice()))
        },
    }
}

} // verus!
