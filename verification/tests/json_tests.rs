use aiagents::json::{array_from, object_from, str_member, JsonNumber, JsonValue};

fn num(n: u64) -> JsonValue {
    JsonValue::Number(JsonNumber::PosInt(n))
}

fn sample() -> JsonValue {
    object_from(vec![
        str_member("a", "x\"y\n".to_string()),
        ("b".to_string(), num(7)),
        ("c".to_string(), JsonValue::Number(JsonNumber::NegInt(-3))),
        ("d".to_string(), array_from(vec![JsonValue::Null, JsonValue::Bool(true), JsonValue::Bool(false)])),
    ])
}

#[test]
fn json_text_matches_serde_json() {
    let v = sample();
    let mut m = serde_json::Map::new();
    m.insert("a".to_string(), serde_json::Value::String("x\"y\n".to_string()));
    m.insert("b".to_string(), serde_json::Value::from(7u64));
    m.insert("c".to_string(), serde_json::Value::from(-3i64));
    m.insert(
        "d".to_string(),
        serde_json::Value::Array(vec![serde_json::Value::Null, serde_json::Value::Bool(true), serde_json::Value::Bool(false)]),
    );
    let expected = serde_json::Value::Object(m).to_string();
    assert_eq!(v.to_json_text(), expected);
}

#[test]
fn json_text_of_scalars() {
    assert_eq!(JsonValue::Null.to_json_text(), "null");
    assert_eq!(JsonValue::Bool(true).to_json_text(), "true");
    assert_eq!(num(0).to_json_text(), "0");
    assert_eq!(JsonValue::Number(JsonNumber::NegInt(-42)).to_json_text(), "-42");
    assert_eq!(JsonValue::Number(JsonNumber::Float("1.5".to_string())).to_json_text(), "1.5");
    assert_eq!(JsonValue::Str("tab\there".to_string()).to_json_text(), "\"tab\\there\"");
    assert_eq!(array_from(vec![]).to_json_text(), "[]");
    assert_eq!(object_from(vec![]).to_json_text(), "{}");
}

#[test]
fn json_string_escapes_like_serde() {
    let s = "quote\" back\\ nl\n cr\r bell\u{7} ü";
    assert_eq!(JsonValue::Str(s.to_string()).to_json_text(), serde_json::to_string(s).unwrap());
    assert_eq!(JsonValue::Str(String::new()).to_json_text(), "\"\"");
    let key = object_from(vec![("k\"ey".to_string(), JsonValue::Null)]);
    assert_eq!(key.to_json_text(), "{\"k\\\"ey\":null}");
}

#[test]
fn get_finds_first_member() {
    let v = sample();
    assert_eq!(v.get("a").and_then(|x| x.as_str()), Some("x\"y\n"));
    assert_eq!(v.get("b").and_then(|x| x.as_u64()), Some(7));
    assert_eq!(v.get("c").and_then(|x| x.as_i64()), Some(-3));
    assert_eq!(v.get("c").and_then(|x| x.as_u64()), None);
    assert!(v.get("zzz").is_none());
    assert!(JsonValue::Null.get("a").is_none());
    let dup = object_from(vec![("k".to_string(), num(1)), ("k".to_string(), num(2))]);
    assert_eq!(dup.get("k").and_then(|x| x.as_u64()), Some(1));
}

#[test]
fn as_i64_of_large_positive_is_none() {
    assert_eq!(num(u64::MAX).as_i64(), None);
    assert_eq!(num(9223372036854775807).as_i64(), Some(i64::MAX));
}

#[test]
fn get_index_of_array() {
    let v = sample();
    let d = v.get("d").unwrap();
    assert!(matches!(d.get_index(0), Some(JsonValue::Null)));
    assert!(matches!(d.get_index(1), Some(JsonValue::Bool(true))));
    assert!(d.get_index(3).is_none());
    assert!(v.get_index(0).is_none());
}

#[test]
fn set_then_get_gives_value() {
    let mut v = sample();
    v.set_member("b", num(9));
    assert_eq!(v.get("b").and_then(|x| x.as_u64()), Some(9));
    v.set_member("bb", num(5));
    assert_eq!(v.get("bb").and_then(|x| x.as_u64()), Some(5));
    // the new member goes where a sorted map puts it
    assert_eq!(
        v.to_json_text(),
        "{\"a\":\"x\\\"y\\n\",\"b\":9,\"bb\":5,\"c\":-3,\"d\":[null,true,false]}"
    );
    let mut n = JsonValue::Null;
    n.set_member("only", JsonValue::Bool(false));
    assert_eq!(n.to_json_text(), "{\"only\":false}");
}
