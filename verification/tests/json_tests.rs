use datalens_mcp::json::{parse_json, JsonNumber, JsonObject, JsonValue};

fn number(literal: &str) -> JsonValue {
    JsonValue::Number(JsonNumber { literal: literal.to_owned() })
}

fn text(s: &str) -> JsonValue {
    JsonValue::String(s.to_owned())
}

#[test]
fn parse_json_reads_every_kind_of_value() {
    assert_eq!(parse_json("null"), Ok(JsonValue::Null));
    assert_eq!(parse_json("true"), Ok(JsonValue::Bool(true)));
    assert_eq!(parse_json(" false "), Ok(JsonValue::Bool(false)));
    assert_eq!(parse_json("12"), Ok(number("12")));
    assert_eq!(parse_json("-3"), Ok(number("-3")));
    assert_eq!(parse_json("1.5"), Ok(number("1.5")));
    assert_eq!(parse_json("\"a\\nb\""), Ok(text("a\nb")));
    assert_eq!(
        parse_json("[1, \"two\", null]"),
        Ok(JsonValue::Array(vec![number("1"), text("two"), JsonValue::Null]))
    );
    assert_eq!(parse_json("{}"), Ok(JsonValue::Object(JsonObject::new())));
    assert_eq!(parse_json("[]"), Ok(JsonValue::Array(vec![])));
}

#[test]
fn parse_json_reads_nested_objects() {
    let value = parse_json("{\"a\": {\"b\": [true]}, \"c\": \"d\"}").expect("valid JSON");
    let JsonValue::Object(object) = value else {
        panic!("an object was written");
    };
    assert_eq!(object.entries.len(), 2);
    assert_eq!(object.get("c"), Some(&text("d")));
    let Some(JsonValue::Object(inner)) = object.get("a") else {
        panic!("a is an object");
    };
    assert_eq!(inner.get("b"), Some(&JsonValue::Array(vec![JsonValue::Bool(true)])));
    assert_eq!(object.get("missing"), None);
}

#[test]
fn parse_json_refuses_what_is_no_json() {
    assert!(parse_json("").is_err());
    assert!(parse_json("plain-text").is_err());
    assert!(parse_json("{\"a\": }").is_err());
    assert!(parse_json("{} trailing").is_err());
    let cause = parse_json("{\"a\"").unwrap_err();
    assert!(!cause.is_empty());
}

#[test]
fn parse_json_keeps_the_last_of_repeated_keys() {
    let value = parse_json("{\"a\": 1, \"a\": 2}").expect("valid JSON");
    let JsonValue::Object(object) = value else {
        panic!("an object was written");
    };
    assert_eq!(object.get("a"), Some(&number("2")));
}

#[test]
fn insert_replaces_the_value_of_a_key() {
    let mut object = JsonObject::new();
    assert_eq!(object.get("a"), None);
    object.insert("a".to_owned(), number("1"));
    object.insert("b".to_owned(), text("x"));
    object.insert("a".to_owned(), number("2"));
    assert_eq!(object.get("a"), Some(&number("2")));
    assert_eq!(object.get("b"), Some(&text("x")));
    assert_eq!(object.get("c"), None);
}

#[test]
fn insert_some_skips_absent_values() {
    let mut object = JsonObject::new();
    object.insert_some("a".to_owned(), None);
    object.insert_some("b".to_owned(), Some(JsonValue::Null));
    assert_eq!(object.get("a"), None);
    assert_eq!(object.get("b"), Some(&JsonValue::Null));
}

#[test]
fn remove_takes_every_entry_of_the_key() {
    let mut object = JsonObject::new();
    object.insert("a".to_owned(), number("1"));
    object.insert("b".to_owned(), number("2"));
    object.insert("a".to_owned(), number("3"));
    assert_eq!(object.remove("a"), Some(number("3")));
    assert_eq!(object.get("a"), None);
    assert_eq!(object.get("b"), Some(&number("2")));
    assert_eq!(object.remove("a"), None);
    assert_eq!(object.entries.len(), 1);
}

#[test]
fn extend_lets_the_added_entries_win() {
    let mut object = JsonObject::new();
    object.insert("a".to_owned(), number("1"));
    object.insert("b".to_owned(), number("2"));
    let mut other = JsonObject::new();
    other.insert("b".to_owned(), number("20"));
    other.insert("c".to_owned(), number("30"));
    object.extend(other);
    assert_eq!(object.get("a"), Some(&number("1")));
    assert_eq!(object.get("b"), Some(&number("20")));
    assert_eq!(object.get("c"), Some(&number("30")));
}

#[test]
fn clone_copies_a_value_in_depth() {
    let value = parse_json("{\"a\": [1, {\"b\": null}], \"c\": \"d\", \"e\": 2.5}").expect("valid JSON");
    let copy = value.clone();
    assert_eq!(copy, value);
    let JsonValue::Object(object) = value else {
        panic!("an object was written");
    };
    assert_eq!(object.clone(), object);
}

#[test]
fn text_array_and_text_and_numbers() {
    assert_eq!(
        JsonValue::text_array(vec!["a".to_owned(), "b".to_owned()]),
        JsonValue::Array(vec![text("a"), text("b")])
    );
    assert_eq!(JsonValue::text_array(vec![]), JsonValue::Array(vec![]));
    assert_eq!(JsonValue::text("x"), text("x"));
    assert_eq!(JsonNumber::from_u64(26).literal, "26");
}
