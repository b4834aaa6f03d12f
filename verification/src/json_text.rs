//! JSON string literals as `serde_json` writes them.

use vstd::prelude::*;

verus! {

/// The lowercase hexadecimal digit for `d < 16`.
pub open spec fn hex_digit(d: int) -> char {
    if d == 0 { '0' } else if d == 1 { '1' } else if d == 2 { '2' } else if d == 3 { '3' }
    else if d == 4 { '4' } else if d == 5 { '5' } else if d == 6 { '6' } else if d == 7 { '7' }
    else if d == 8 { '8' } else if d == 9 { '9' } else if d == 10 { 'a' } else if d == 11 { 'b' }
    else if d == 12 { 'c' } else if d == 13 { 'd' } else if d == 14 { 'e' } else { 'f' }
}

/// How `serde_json` writes one character inside a string literal: `"` and `\`
/// and the control characters below U+0020 are escaped, everything else is kept.
pub open spec fn json_escape_char(c: char) -> Seq<char> {
    if c == '"' {
        seq!['\\', '"']
    } else if c == '\\' {
        seq!['\\', '\\']
    } else if c == '\u{08}' {
        seq!['\\', 'b']
    } else if c == '\t' {
        seq!['\\', 't']
    } else if c == '\n' {
        seq!['\\', 'n']
    } else if c == '\u{0C}' {
        seq!['\\', 'f']
    } else if c == '\r' {
        seq!['\\', 'r']
    } else if (c as int) < 0x20 {
        seq!['\\', 'u', '0', '0', hex_digit((c as int) / 16), hex_digit((c as int) % 16)]
    } else {
        seq![c]
    }
}

/// The escaped contents of a string literal.
pub open spec fn json_escape(s: Seq<char>) -> Seq<char>
    decreases s.len(),
{
    if s.len() == 0 {
        Seq::empty()
    } else {
        json_escape(s.drop_last()) + json_escape_char(s.last())
    }
}

/// `s` as a JSON string literal (what `serde_json::to_string` gives for a `&str`).
pub open spec fn json_quote(s: Seq<char>) -> Seq<char> {
    seq!['"'] + json_escape(s) + seq!['"']
}

/// Encodes `s` as a JSON string literal with `serde_json::to_string`.
///
/// Trusted: the literal is `"`, the characters of `s` escaped as
/// `format_escaped_str` in `serde_json`'s serializer escapes them, and `"`;
/// serializing a `str` into memory cannot fail.
#[verifier::external_body]
pub(crate) fn json_string(s: &str) -> (r: String)
    ensures
        r@ == json_quote(s@),
{
    serde_json::to_string(s).unwrap_or_default()
}

/// Number of line feeds in `s`.
pub open spec fn nl_count(s: Seq<char>) -> nat
    decreases s.len(),
{
    if s.len() == 0 {
        0
    } else {
        nl_count(s.drop_last()) + if s.last() == '\n' { 1nat } else { 0nat }
    }
}

/// Line feeds of a concatenation add up.
pub proof fn lemma_nl_count_add(a: Seq<char>, b: Seq<char>)
    ensures
        nl_count(a + b) == nl_count(a) + nl_count(b),
    decreases b.len(),
{
    if b.len() == 0 {
        assert(a + b =~= a);
    } else {
        lemma_nl_count_add(a, b.drop_last());
        assert((a + b).drop_last() =~= a + b.drop_last());
    }
}

/// A JSON string literal holds no raw line feed.
pub proof fn lemma_quote_no_nl(s: Seq<char>)
    ensures
        nl_count(json_quote(s)) == 0,
{
    lemma_escape_no_nl(s);
    lemma_nl_count_add(seq!['"'], json_escape(s));
    lemma_nl_count_add(seq!['"'] + json_escape(s), seq!['"']);
    assert(nl_count(seq!['"']) == 0) by {
        assert(seq!['"'].drop_last() =~= Seq::<char>::empty());
        assert(seq!['"'].last() == '"');
        assert(nl_count(Seq::<char>::empty()) == 0);
    }
}

proof fn lemma_escape_no_nl(s: Seq<char>)
    ensures
        nl_count(json_escape(s)) == 0,
    decreases s.len(),
{
    if s.len() > 0 {
        lemma_escape_no_nl(s.drop_last());
        let e = json_escape_char(s.last());
        lemma_nl_count_add(json_escape(s.drop_last()), e);
        assert(nl_count(e) == 0) by {
            reveal_with_fuel(nl_count, 7);
            let c = s.last();
            if (c as int) < 0x20 && !(c == '\u{08}' || c == '\t' || c == '\n' || c == '\u{0C}' || c == '\r') {
                assert(hex_digit((c as int) / 16) != '\n');
                assert(hex_digit((c as int) % 16) != '\n');
            }
        }
    }
}

} // verus!
