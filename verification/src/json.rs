//! A plain model of a parsed JSON document (what `serde_json::Value` holds)
//! and the accessors the tools use on it.

use vstd::prelude::*;
use serde_json::Value;
use crate::json_text::{json_quote, json_string};
use crate::text::{append_chars, chars_eq, decimal, decimal_chars, from_chars, join, signed_decimal, signed_decimal_chars, to_chars};

verus! {

/// A JSON number as `serde_json` stores it: non-negative integers, negative
/// integers, and other numbers, which the tools only print (their text as
/// `serde_json` prints them).
#[derive(Debug)]
pub enum JsonNumber {
    PosInt(u64),
    NegInt(i64),
    Float(String),
}

/// A JSON value. Object members keep the order in which the parsed map
/// yields them (by key for `serde_json`'s default map), each key once.
#[derive(Debug)]
pub enum JsonValue {
    Null,
    Bool(bool),
    Number(JsonNumber),
    Str(String),
    Array(Vec<JsonValue>),
    Object(Vec<(String, JsonValue)>),
}

/// The value of the first member named `key`, when `v` is an object
/// (as `Value::get` with a string index).
pub open spec fn json_get(v: JsonValue, key: Seq<char>) -> Option<JsonValue> {
    match v {
        JsonValue::Object(members) => member_lookup(members@, key),
        _ => None,
    }
}

/// The value of the first member of `members` named `key`.
pub open spec fn member_lookup(members: Seq<(String, JsonValue)>, key: Seq<char>) -> Option<JsonValue>
    decreases members.len(),
{
    if members.len() == 0 {
        None
    } else if members[0].0@ == key {
        Some(members[0].1)
    } else {
        member_lookup(members.skip(1), key)
    }
}

/// The string of a JSON string value (as `Value::as_str`).
pub open spec fn json_as_str(v: JsonValue) -> Option<Seq<char>> {
    match v {
        JsonValue::Str(s) => Some(s@),
        _ => None,
    }
}

/// The value as an `i64`, when it is an integer that fits (as `Value::as_i64`).
pub open spec fn json_as_i64(v: JsonValue) -> Option<i64> {
    match v {
        JsonValue::Number(JsonNumber::PosInt(n)) => if n <= i64::MAX as u64 {
            Some(n as i64)
        } else {
            None
        },
        JsonValue::Number(JsonNumber::NegInt(n)) => Some(n),
        _ => None,
    }
}

/// The value as a `u64`, when it is a non-negative integer (as `Value::as_u64`).
pub open spec fn json_as_u64(v: JsonValue) -> Option<u64> {
    match v {
        JsonValue::Number(JsonNumber::PosInt(n)) => Some(n),
        _ => None,
    }
}

/// The compact JSON text of `v` (what `Display` of `serde_json::Value` writes).
pub open spec fn json_text(v: JsonValue) -> Seq<char>
    decreases v, 0nat,
{
    match v {
        JsonValue::Null => seq!['n', 'u', 'l', 'l'],
        JsonValue::Bool(b) => if b {
            seq!['t', 'r', 'u', 'e']
        } else {
            seq!['f', 'a', 'l', 's', 'e']
        },
        JsonValue::Number(JsonNumber::PosInt(n)) => decimal(n as nat),
        JsonValue::Number(JsonNumber::NegInt(n)) => signed_decimal(n as int),
        JsonValue::Number(JsonNumber::Float(t)) => t@,
        JsonValue::Str(s) => json_quote(s@),
        JsonValue::Array(items) => seq!['['] + items_text(items@) + seq![']'],
        JsonValue::Object(members) => seq!['{'] + members_text(members@) + seq!['}'],
    }
}

/// The texts of `items`, separated by `,`.
pub open spec fn items_text(items: Seq<JsonValue>) -> Seq<char>
    decreases items, 1nat,
{
    if items.len() == 0 {
        Seq::empty()
    } else if items.len() == 1 {
        json_text(items[0])
    } else {
        items_text(items.drop_last()) + seq![','] + json_text(items.last())
    }
}

/// The members `"key":value` of `members`, separated by `,`.
pub open spec fn members_text(members: Seq<(String, JsonValue)>) -> Seq<char>
    decreases members, 1nat,
{
    if members.len() == 0 {
        Seq::empty()
    } else if members.len() == 1 {
        json_quote(members[0].0@) + seq![':'] + json_text(members[0].1)
    } else {
        members_text(members.drop_last()) + seq![','] + json_quote(members.last().0@) + seq![':']
            + json_text(members.last().1)
    }
}

impl JsonValue {
    /// The value of the member `key` of an object (as `Value::get`).
    pub fn get(&self, key: &str) -> (r: Option<&JsonValue>)
        ensures
            match r {
                Some(x) => json_get(*self, key@) == Some(*x),
                None => json_get(*self, key@) is None,
            },
    {
        match self {
            JsonValue::Object(members) => {
                let k = to_chars(key);
                let n = members.len();
                let mut i: usize = 0;
                assert(members@.skip(0) =~= members@);
                while i < n
                    invariant
                        n == members@.len(),
                        i <= n,
                        k@ == key@,
                        *self == JsonValue::Object(*members),
                        member_lookup(members@, key@) == member_lookup(members@.skip(i as int), key@),
                    decreases n - i,
                {
                    let mk = to_chars(members[i].0.as_str());
                    assert(members@.skip(i as int)[0] == members@[i as int]);
                    if chars_eq(mk.as_slice(), k.as_slice()) {
                        return Some(&members[i].1);
                    }
                    assert(members@.skip(i as int).skip(1) =~= members@.skip(i + 1));
                    i = i + 1;
                }
                None
            },
            _ => None,
        }
    }

    /// The string of a string value (as `Value::as_str`).
    pub fn as_str(&self) -> (r: Option<&str>)
        ensures
            match r {
                Some(s) => json_as_str(*self) == Some(s@),
                None => json_as_str(*self) is None,
            },
    {
        match self {
            JsonValue::Str(s) => Some(s.as_str()),
            _ => None,
        }
    }

    /// The value as an `i64` (as `Value::as_i64`).
    pub fn as_i64(&self) -> (r: Option<i64>)
        ensures
            r == json_as_i64(*self),
    {
        match self {
            JsonValue::Number(JsonNumber::PosInt(n)) => {
                if *n <= 9223372036854775807u64 {
                    Some(*n as i64)
                } else {
                    None
                }
            },
            JsonValue::Number(JsonNumber::NegInt(n)) => Some(*n),
            _ => None,
        }
    }

    /// The value as a `u64` (as `Value::as_u64`).
    pub fn as_u64(&self) -> (r: Option<u64>)
        ensures
            r == json_as_u64(*self),
    {
        match self {
            JsonValue::Number(JsonNumber::PosInt(n)) => Some(*n),
            _ => None,
        }
    }

    /// The compact JSON text of the value (as `Value::to_string`).
    pub fn to_json_text(&self) -> (r: String)
        ensures
            r@ == json_text(*self),
    {
        let v = self.text_chars();
        from_chars(v.as_slice())
    }

    /// The compact JSON text of the value, as characters.
    pub fn text_chars(&self) -> (r: Vec<char>)
        ensures
            r@ == json_text(*self),
        decreases *self,
    {
        match self {
            JsonValue::Null => {
                let r = vec!['n', 'u', 'l', 'l'];
                assert(r@ =~= json_text(*self));
                r
            },
            JsonValue::Bool(b) => {
                if *b {
                    let r = vec!['t', 'r', 'u', 'e'];
                    assert(r@ =~= json_text(*self));
                    r
                } else {
                    let r = vec!['f', 'a', 'l', 's', 'e'];
                    assert(r@ =~= json_text(*self));
                    r
                }
            },
            JsonValue::Number(JsonNumber::PosInt(n)) => decimal_chars(*n),
            JsonValue::Number(JsonNumber::NegInt(n)) => signed_decimal_chars(*n),
            JsonValue::Number(JsonNumber::Float(t)) => to_chars(t.as_str()),
            JsonValue::Str(s) => {
                let q = json_string(s.as_str());
                to_chars(q.as_str())
            },
            JsonValue::Array(items) => {
                let mut r = vec!['['];
                let n = items.len();
                let mut i: usize = 0;
                while i < n
                    invariant
                        n == items@.len(),
                        i <= n,
                        *self == JsonValue::Array(*items),
                        r@ == seq!['['] + items_text(items@.take(i as int)),
                    decreases n - i,
                {
                    if i > 0 {
                        r.push(',');
                    }
                    proof {
                        assert(decreases_to!(*self => (*self)->Array_0));
                        assert(decreases_to!(*items => items@));
                        assert(decreases_to!(items@ => items@[i as int]));
                        assert(decreases_to!(*self => items@[i as int]));
                    }
                    let t = items[i].text_chars();
                    append_chars(&mut r, t.as_slice());
                    proof {
                        let tk = items@.take(i + 1);
                        assert(tk.drop_last() =~= items@.take(i as int));
                        assert(tk.last() == items@[i as int]);
                        if i == 0 {
                            assert(items@.take(0) =~= Seq::<JsonValue>::empty());
                        }
                    }
                    i = i + 1;
                }
                r.push(']');
                assert(items@.take(n as int) =~= items@);
                r
            },
            JsonValue::Object(members) => {
                let mut r = vec!['{'];
                let n = members.len();
                let mut i: usize = 0;
                while i < n
                    invariant
                        n == members@.len(),
                        i <= n,
                        *self == JsonValue::Object(*members),
                        r@ == seq!['{'] + members_text(members@.take(i as int)),
                    decreases n - i,
                {
                    if i > 0 {
                        r.push(',');
                    }
                    let q = json_string(members[i].0.as_str());
                    let qc = to_chars(q.as_str());
                    append_chars(&mut r, qc.as_slice());
                    r.push(':');
                    proof {
                        assert(decreases_to!(*self => (*self)->Object_0));
                        assert(decreases_to!(*members => members@));
                        assert(decreases_to!(members@ => members@[i as int]));
                        assert(decreases_to!(members@[i as int] => members@[i as int].1));
                        assert(decreases_to!(*self => members@[i as int].1));
                    }
                    let t = members[i].1.text_chars();
                    append_chars(&mut r, t.as_slice());
                    proof {
                        let tk = members@.take(i + 1);
                        assert(tk.drop_last() =~= members@.take(i as int));
                        assert(tk.last() == members@[i as int]);
                        if i == 0 {
                            assert(members@.take(0) =~= Seq::<(String, JsonValue)>::empty());
                        }
                    }
                    i = i + 1;
                }
                r.push('}');
                assert(members@.take(n as int) =~= members@);
                r
            },
        }
    }
}

} // verus!

verus! {

/// The text `"key":value` of one object member whose value has the text `value`.
pub open spec fn member_text(key: Seq<char>, value: Seq<char>) -> Seq<char> {
    json_quote(key) + seq![':'] + value
}

/// The text of an object whose members have the texts `members`, in order.
pub open spec fn object_text(members: Seq<Seq<char>>) -> Seq<char> {
    seq!['{'] + join(members, seq![',']) + seq!['}']
}

/// The texts of the members of an object, one per member.
pub open spec fn member_texts(members: Seq<(String, JsonValue)>) -> Seq<Seq<char>> {
    Seq::new(members.len(), |i: int| member_text(members[i].0@, json_text(members[i].1)))
}

/// The text of an object is its members' texts joined with `,` in braces.
pub proof fn lemma_object_text(members: Seq<(String, JsonValue)>)
    ensures
        members_text(members) == join(member_texts(members), seq![',']),
    decreases members.len(),
{
    if members.len() > 1 {
        lemma_object_text(members.drop_last());
        assert(member_texts(members.drop_last()) =~= member_texts(members).drop_last());
    }
}

} // verus!

verus! {

/// A member whose value is the string `value`.
pub fn str_member(key: &str, value: String) -> (r: (String, JsonValue))
    ensures
        r.0@ == key@,
        r.1 == JsonValue::Str(value),
{
    (key.to_string(), JsonValue::Str(value))
}

/// An object with the given members, and its text.
pub fn object_from(members: Vec<(String, JsonValue)>) -> (r: JsonValue)
    ensures
        r == JsonValue::Object(members),
        json_text(r) == object_text(member_texts(members@)),
{
    proof {
        lemma_object_text(members@);
    }
    JsonValue::Object(members)
}

} // verus!

verus! {

/// The text of an array whose items have the texts `items`, in order.
pub open spec fn array_text(items: Seq<Seq<char>>) -> Seq<char> {
    seq!['['] + join(items, seq![',']) + seq![']']
}

/// The texts of the items of an array, one per item.
pub open spec fn item_texts(items: Seq<JsonValue>) -> Seq<Seq<char>> {
    Seq::new(items.len(), |i: int| json_text(items[i]))
}

/// The text of an array is its items' texts joined with `,` in brackets.
pub proof fn lemma_array_text(items: Seq<JsonValue>)
    ensures
        items_text(items) == join(item_texts(items), seq![',']),
    decreases items.len(),
{
    if items.len() > 1 {
        lemma_array_text(items.drop_last());
        assert(item_texts(items.drop_last()) =~= item_texts(items).drop_last());
    }
}

/// An array with the given items, and its text.
pub fn array_from(items: Vec<JsonValue>) -> (r: JsonValue)
    ensures
        r == JsonValue::Array(items),
        json_text(r) == array_text(item_texts(items@)),
{
    proof {
        lemma_array_text(items@);
    }
    JsonValue::Array(items)
}

} // verus!

verus! {

/// The item at `i` of an array (as `Value::get` with a number index).
pub open spec fn json_index(v: JsonValue, i: int) -> Option<JsonValue> {
    match v {
        JsonValue::Array(items) => if 0 <= i < items@.len() {
            Some(items@[i])
        } else {
            None
        },
        _ => None,
    }
}

/// `a` comes before `b` in the order of strings (character by character,
/// a proper prefix first).
pub open spec fn text_lt(a: Seq<char>, b: Seq<char>) -> bool
    decreases a.len(),
{
    if b.len() == 0 {
        false
    } else if a.len() == 0 {
        true
    } else if a[0] != b[0] {
        (a[0] as u32) < (b[0] as u32)
    } else {
        text_lt(a.skip(1), b.skip(1))
    }
}

/// The position of the first member named `key`, if there is one.
pub open spec fn member_pos(members: Seq<(String, JsonValue)>, key: Seq<char>) -> Option<int>
    decreases members.len(),
{
    if members.len() == 0 {
        None
    } else if members.last().0@ == key && member_pos(members.drop_last(), key) is None {
        Some(members.len() - 1)
    } else {
        member_pos(members.drop_last(), key)
    }
}

/// The position at which a member named `key` is inserted: before the first
/// member whose name comes after `key`, else at the end (the place a sorted
/// map gives it).
pub open spec fn insert_pos(members: Seq<(String, JsonValue)>, key: Seq<char>) -> int
    decreases members.len(),
{
    if members.len() == 0 {
        0
    } else if insert_pos(members.drop_last(), key) < members.len() - 1 {
        insert_pos(members.drop_last(), key)
    } else if text_lt(key, members.last().0@) {
        members.len() - 1
    } else {
        members.len() as int
    }
}

/// `new` is `old` with the member `key` set to `value` (see `set_member`).
pub open spec fn member_set(old: JsonValue, key: Seq<char>, value: JsonValue, new: JsonValue) -> bool {
    match old {
        JsonValue::Object(ms) => new matches JsonValue::Object(ns) && match member_pos(ms@, key) {
            Some(p) => ns@.len() == ms@.len() && ns@[p].0 == ms@[p].0 && ns@[p].1 == value && forall|j: int|
                0 <= j < ms@.len() && j != p ==> #[trigger] ns@[j] == ms@[j],
            None => ns@.len() == ms@.len() + 1 && ns@[insert_pos(ms@, key)].0@ == key && ns@[insert_pos(
                ms@,
                key,
            )].1 == value && ns@.take(insert_pos(ms@, key)) == ms@.take(insert_pos(ms@, key)) && ns@.skip(
                insert_pos(ms@, key) + 1,
            ) == ms@.skip(insert_pos(ms@, key)),
        },
        _ => new matches JsonValue::Object(ns) && ns@.len() == 1 && ns@[0].0@ == key && ns@[0].1 == value,
    }
}

/// Whether the first `n` characters of `a` and `b` agree and `a` is
/// smaller at position `n`.
fn text_lt_exec(a: &[char], b: &[char]) -> (r: bool)
    ensures
        r == text_lt(a@, b@),
{
    let mut i: usize = 0;
    assert(a@.skip(0) =~= a@);
    assert(b@.skip(0) =~= b@);
    while i < a.len() && i < b.len() && a[i] == b[i]
        invariant
            i <= a@.len(),
            i <= b@.len(),
            text_lt(a@, b@) == text_lt(a@.skip(i as int), b@.skip(i as int)),
        decreases a@.len() - i,
    {
        assert(a@.skip(i as int).skip(1) =~= a@.skip(i + 1));
        assert(b@.skip(i as int).skip(1) =~= b@.skip(i + 1));
        i = i + 1;
    }
    if i == b.len() {
        false
    } else if i == a.len() {
        true
    } else {
        (a[i] as u32) < (b[i] as u32)
    }
}

impl JsonValue {
    /// The item at `i` of an array (as `Value::get` with a number index).
    pub fn get_index(&self, i: usize) -> (r: Option<&JsonValue>)
        ensures
            match r {
                Some(x) => json_index(*self, i as int) == Some(*x),
                None => json_index(*self, i as int) is None,
            },
    {
        match self {
            JsonValue::Array(items) => {
                if i < items.len() {
                    Some(&items[i])
                } else {
                    None
                }
            },
            _ => None,
        }
    }

    /// Sets the member `key` of an object to `value` (as assigning to
    /// `value[key]`): an existing member keeps its place, a new one goes
    /// where a sorted map puts it; `null` becomes an object with that one
    /// member.
    pub fn set_member(&mut self, key: &str, value: JsonValue)
        requires
            *old(self) is Object || *old(self) is Null,
        ensures
            member_set(*old(self), key@, value, *final(self)),
    {
        let mut tmp = JsonValue::Null;
        std::mem::swap(&mut tmp, self);
        match tmp {
            JsonValue::Object(ms) => {
                let k = crate::text::to_chars(key);
                let ghost old_ms = ms@;
                let n = ms.len();
                let mut pos: Option<usize> = None;
                let mut ins: usize = 0;
                let mut i: usize = 0;
                while i < n
                    invariant
                        n == ms@.len(),
                        old_ms == ms@,
                        k@ == key@,
                        i <= n,
                        pos == match member_pos(ms@.take(i as int), key@) {
                            Some(p) => Some(p as usize),
                            None => None::<usize>,
                        },
                        ins as int == insert_pos(ms@.take(i as int), key@),
                        0 <= ins <= i,
                        pos matches Some(p) ==> p < i,
                    decreases n - i,
                {
                    let mk = crate::text::to_chars(ms[i].0.as_str());
                    proof {
                        assert(ms@.take(i + 1).drop_last() =~= ms@.take(i as int));
                        assert(ms@.take(i + 1).last() == ms@[i as int]);
                        lemma_insert_pos_bound(ms@.take(i as int), key@);
                        lemma_member_pos_bound(ms@.take(i as int), key@);
                    }
                    if pos.is_none() && crate::text::chars_eq(mk.as_slice(), k.as_slice()) {
                        pos = Some(i);
                    }
                    if ins == i && text_lt_exec(k.as_slice(), mk.as_slice()) {
                        ins = i;
                    } else if ins == i {
                        ins = i + 1;
                    }
                    i = i + 1;
                }
                assert(ms@.take(n as int) =~= ms@);
                proof {
                    lemma_insert_pos_bound(ms@, key@);
                    lemma_member_pos_bound(ms@, key@);
                }
                let mut ms = ms;
                match pos {
                    Some(p) => {
                        let name = ms[p].0.clone();
                        ms.set(p, (name, value));
                    },
                    None => {
                        ms.insert(ins, (key.to_string(), value));
                        assert(ms@.take(ins as int) =~= old_ms.take(ins as int));
                        assert(ms@.skip(ins + 1) =~= old_ms.skip(ins as int));
                    },
                }
                *self = JsonValue::Object(ms);
            },
            _ => {
                let mut ms: Vec<(String, JsonValue)> = Vec::new();
                ms.push((key.to_string(), value));
                *self = JsonValue::Object(ms);
            },
        }
    }
}

/// The insertion position lies within the members or just after them.
proof fn lemma_insert_pos_bound(members: Seq<(String, JsonValue)>, key: Seq<char>)
    ensures
        0 <= insert_pos(members, key) <= members.len(),
    decreases members.len(),
{
    if members.len() > 0 {
        lemma_insert_pos_bound(members.drop_last(), key);
    }
}

/// A found position lies within the members.
proof fn lemma_member_pos_bound(members: Seq<(String, JsonValue)>, key: Seq<char>)
    ensures
        member_pos(members, key) matches Some(p) ==> 0 <= p < members.len() && members[p].0@ == key,
    decreases members.len(),
{
    if members.len() > 0 {
        lemma_member_pos_bound(members.drop_last(), key);
    }
}

} // verus!

verus! {

/// No member of `members` is named `key` when `member_pos` finds none.
proof fn lemma_no_member(members: Seq<(String, JsonValue)>, key: Seq<char>)
    requires
        member_pos(members, key) is None,
    ensures
        forall|j: int| 0 <= j < members.len() ==> #[trigger] members[j].0@ != key,
        member_lookup(members, key) is None,
    decreases members.len(),
{
    if members.len() > 0 {
        lemma_no_member(members.drop_last(), key);
        assert forall|j: int| 0 <= j < members.len() implies #[trigger] members[j].0@ != key by {
            if j < members.len() - 1 {
                assert(members[j] == members.drop_last()[j]);
            }
        }
        lemma_lookup_none(members, key);
    }
}

/// Lookup finds nothing when no member has the key.
proof fn lemma_lookup_none(members: Seq<(String, JsonValue)>, key: Seq<char>)
    requires
        forall|j: int| 0 <= j < members.len() ==> #[trigger] members[j].0@ != key,
    ensures
        member_lookup(members, key) is None,
    decreases members.len(),
{
    if members.len() > 0 {
        assert(members[0].0@ != key);
        assert forall|j: int| 0 <= j < members.skip(1).len() implies #[trigger] members.skip(1)[j].0@ != key by {
            assert(members.skip(1)[j] == members[j + 1]);
        }
        lemma_lookup_none(members.skip(1), key);
    }
}

/// The first member with the key is the one `member_pos` finds.
proof fn lemma_member_pos_first(members: Seq<(String, JsonValue)>, key: Seq<char>)
    requires
        member_pos(members, key) is Some,
    ensures
        ({
            let p = member_pos(members, key)->0;
            &&& 0 <= p < members.len()
            &&& members[p].0@ == key
            &&& forall|j: int| 0 <= j < p ==> #[trigger] members[j].0@ != key
        }),
    decreases members.len(),
{
    let p = member_pos(members, key)->0;
    match member_pos(members.drop_last(), key) {
        Some(q) => {
            lemma_member_pos_first(members.drop_last(), key);
            assert forall|j: int| 0 <= j < p implies #[trigger] members[j].0@ != key by {
                assert(members[j] == members.drop_last()[j]);
            }
            assert(members[p] == members.drop_last()[p]);
        },
        None => {
            lemma_no_member(members.drop_last(), key);
            assert forall|j: int| 0 <= j < p implies #[trigger] members[j].0@ != key by {
                assert(members[j] == members.drop_last()[j]);
            }
        },
    }
}

/// Lookup finds the first member with the key.
proof fn lemma_lookup_first(members: Seq<(String, JsonValue)>, key: Seq<char>, p: int)
    requires
        0 <= p < members.len(),
        members[p].0@ == key,
        forall|j: int| 0 <= j < p ==> #[trigger] members[j].0@ != key,
    ensures
        member_lookup(members, key) == Some(members[p].1),
    decreases p,
{
    if p > 0 {
        assert(members[0].0@ != key);
        assert forall|j: int| 0 <= j < p - 1 implies #[trigger] members.skip(1)[j].0@ != key by {
            assert(members.skip(1)[j] == members[j + 1]);
        }
        assert(members.skip(1)[p - 1] == members[p]);
        lemma_lookup_first(members.skip(1), key, p - 1);
    }
}

/// Reading a member back after setting it gives the value set: after
/// `value[key] = v`, `value.get(key)` is `v`.
pub proof fn law_set_then_get(old: JsonValue, key: Seq<char>, value: JsonValue, new: JsonValue)
    requires
        old is Object || old is Null,
        member_set(old, key, value, new),
    ensures
        json_get(new, key) == Some(value),
{
    match old {
        JsonValue::Object(ms) => {
            let ns = new->Object_0;
            match member_pos(ms@, key) {
                Some(p) => {
                    lemma_member_pos_first(ms@, key);
                    assert forall|j: int| 0 <= j < p implies #[trigger] ns@[j].0@ != key by {
                        assert(ns@[j] == ms@[j]);
                    }
                    lemma_lookup_first(ns@, key, p);
                },
                None => {
                    lemma_no_member(ms@, key);
                    let q = insert_pos(ms@, key);
                    lemma_insert_pos_bound(ms@, key);
                    assert forall|j: int| 0 <= j < q implies #[trigger] ns@[j].0@ != key by {
                        assert(ns@.take(q)[j] == ms@.take(q)[j]);
                    }
                    lemma_lookup_first(ns@, key, q);
                },
            }
        },
        _ => {
            let ns = new->Object_0;
            lemma_lookup_first(ns@, key, 0);
        },
    }
}

} // verus!

verus! {

/// `serde_json`'s parsed value, held only to be converted.
#[verifier::external_type_specification]
#[verifier::external_body]
pub struct ExSerdeValue(serde_json::Value);

/// What `serde_json::from_str::<serde_json::Value>` gives for `text`: the
/// parsed value in the library's model (see `JsonValue`), or the message of
/// the parse error.
pub uninterp spec fn json_parsed(text: Seq<char>) -> Result<JsonValue, Seq<char>>;

/// The library's model of a `serde_json` value: variant by variant; a
/// number by the way `serde_json` holds it (a non-negative integer, a
/// negative one, or another number with its printed text); members in the
/// order of the map.
#[verifier::external_body]
fn from_serde(v: &serde_json::Value) -> JsonValue {
    match v {
        Value::Null => JsonValue::Null,
        Value::Bool(b) => JsonValue::Bool(*b),
        Value::Number(n) => JsonValue::Number(match (n.as_u64(), n.as_i64()) {
            (Some(u), _) => JsonNumber::PosInt(u),
            (None, Some(i)) => JsonNumber::NegInt(i),
            _ => JsonNumber::Float(n.to_string()),
        }),
        Value::String(s) => JsonValue::Str(s.clone()),
        Value::Array(a) => JsonValue::Array(a.iter().map(from_serde).collect()),
        Value::Object(m) => JsonValue::Object(m.iter().map(|(k, x)| (k.clone(), from_serde(x))).collect()),
    }
}

/// Parses JSON text (`serde_json::from_str::<serde_json::Value>`).
///
/// Trusted: the result is `json_parsed` of the text, a function of the text
/// alone (`serde_json`'s parser and its sorted map); nothing more is claimed
/// about which texts parse or what they give.
#[verifier::external_body]
pub(crate) fn parse_json(text: &str) -> (r: Result<JsonValue, String>)
    ensures
        match r {
            Ok(v) => json_parsed(text@) == Ok::<JsonValue, Seq<char>>(v),
            Err(e) => json_parsed(text@) == Err::<JsonValue, Seq<char>>(e@),
        },
{
    match serde_json::from_str::<serde_json::Value>(text) {
        Ok(v) => Ok(from_serde(&v)),
        Err(e) => Err(e.to_string()),
    }
}

} // verus!
