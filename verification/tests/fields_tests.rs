use datalens_mcp::fields::{
    find, find_aliased, find_aliased_twice, is_json_like, optional_document, optional_flag,
    optional_number, optional_text, optional_value, required_document, required_text,
    required_text_list, resolve_embedded, resolve_parsed, ArgumentError, Problem,
};
use datalens_mcp::json::{JsonNumber, JsonObject, JsonValue};

fn text(s: &str) -> JsonValue {
    JsonValue::String(s.to_owned())
}

fn number(literal: &str) -> JsonValue {
    JsonValue::Number(JsonNumber { literal: literal.to_owned() })
}

fn object(entries: Vec<(&str, JsonValue)>) -> JsonObject {
    JsonObject { entries: entries.into_iter().map(|(k, v)| (k.to_owned(), v)).collect() }
}

#[test]
fn find_tries_the_names_in_their_order() {
    let bag = object(vec![("b", number("2")), ("c", number("3"))]);
    assert_eq!(find(&bag, "a"), None);
    assert_eq!(find(&bag, "b"), Some(&number("2")));
    assert_eq!(find_aliased(&bag, "a", "b"), Some(&number("2")));
    assert_eq!(find_aliased(&bag, "c", "b"), Some(&number("3")));
    assert_eq!(find_aliased(&bag, "a", "x"), None);
    assert_eq!(find_aliased_twice(&bag, "a", "c", "b"), Some(&number("3")));
    assert_eq!(find_aliased_twice(&bag, "a", "x", "b"), Some(&number("2")));
    assert_eq!(find_aliased_twice(&bag, "b", "c", "a"), Some(&number("2")));
    assert_eq!(find_aliased_twice(&bag, "a", "x", "y"), None);
}

#[test]
fn the_readers_accept_their_type_and_refuse_others() {
    let s = text("v");
    let n = number("1");
    let b = JsonValue::Bool(true);
    let null = JsonValue::Null;
    assert_eq!(required_text(Some(&s), "f"), Ok("v".to_owned()));
    assert_eq!(
        required_text(None, "f"),
        Err(ArgumentError { field: "f".to_owned(), problem: Problem::Missing })
    );
    assert!(matches!(
        required_text(Some(&null), "f"),
        Err(ArgumentError { problem: Problem::WrongType { expected: "a string" }, .. })
    ));
    assert_eq!(optional_text(None, "f"), Ok(None));
    assert_eq!(optional_text(Some(&null), "f"), Ok(None));
    assert_eq!(optional_text(Some(&s), "f"), Ok(Some("v".to_owned())));
    assert!(optional_text(Some(&n), "f").is_err());
    assert_eq!(optional_flag(Some(&b), "f"), Ok(Some(true)));
    assert_eq!(optional_flag(Some(&null), "f"), Ok(None));
    assert_eq!(optional_flag(None, "f"), Ok(None));
    assert!(matches!(
        optional_flag(Some(&s), "f"),
        Err(ArgumentError { problem: Problem::WrongType { expected: "a boolean" }, .. })
    ));
    assert_eq!(optional_number(Some(&n), "f"), Ok(Some(JsonNumber { literal: "1".to_owned() })));
    assert_eq!(optional_number(None, "f"), Ok(None));
    assert_eq!(optional_number(Some(&null), "f"), Ok(None));
    assert!(optional_number(Some(&b), "f").is_err());
    assert_eq!(optional_value(Some(&null)), None);
    assert_eq!(optional_value(None), None);
    assert_eq!(optional_value(Some(&s)), Some(text("v")));
    let list = JsonValue::Array(vec![text("a"), text("b")]);
    assert_eq!(required_text_list(Some(&list), "f"), Ok(vec!["a".to_owned(), "b".to_owned()]));
    assert_eq!(required_text_list(Some(&JsonValue::Array(vec![])), "f"), Ok(vec![]));
    assert!(required_text_list(None, "f").is_err());
    assert!(required_text_list(Some(&JsonValue::Array(vec![null])), "f").is_err());
}

#[test]
fn is_json_like_looks_at_the_first_character_after_trimming() {
    assert!(is_json_like("{"));
    assert!(is_json_like("["));
    assert!(is_json_like("  {\"a\": 1}"));
    assert!(is_json_like("\n\t[1]"));
    assert!(is_json_like("\u{a0}{"));
    assert!(!is_json_like(""));
    assert!(!is_json_like("   "));
    assert!(!is_json_like("plain-text"));
    assert!(!is_json_like("\"{\""));
    assert!(!is_json_like("a{"));
    assert!(!is_json_like("}"));
}

#[test]
fn resolve_embedded_reads_json_strings_and_keeps_the_rest() {
    assert_eq!(
        resolve_embedded(&text("{\"path\":\"/\"}"), "payload"),
        Ok(JsonValue::Object(object(vec![("path", text("/"))])))
    );
    assert_eq!(resolve_embedded(&text("plain-text"), "payload"), Ok(text("plain-text")));
    assert_eq!(resolve_embedded(&text(" [] "), "payload"), Ok(JsonValue::Array(vec![])));
    assert_eq!(resolve_embedded(&number("1"), "payload"), Ok(number("1")));
    assert_eq!(resolve_embedded(&JsonValue::Null, "payload"), Ok(JsonValue::Null));
    let error = resolve_embedded(&text("[1, 2"), "payload").unwrap_err();
    assert_eq!(error.field, "payload");
    assert!(matches!(error.problem, Problem::InvalidJson { .. }));
    let again = resolve_embedded(&text("[1, 2"), "payload").unwrap_err();
    assert_eq!(error, again);
}

#[test]
fn resolve_parsed_goes_by_the_given_reading() {
    assert_eq!(resolve_parsed(&text("{}"), Ok(JsonValue::Bool(true)), "f"), Ok(JsonValue::Bool(true)));
    assert_eq!(
        resolve_parsed(&text("{}"), Err("broken".to_owned()), "f"),
        Err(ArgumentError {
            field: "f".to_owned(),
            problem: Problem::InvalidJson { cause: "broken".to_owned() },
        })
    );
    assert_eq!(resolve_parsed(&text("x"), Err("broken".to_owned()), "f"), Ok(text("x")));
    assert_eq!(resolve_parsed(&text("x"), Ok(JsonValue::Null), "f"), Ok(text("x")));
    assert_eq!(resolve_parsed(&number("3"), Ok(JsonValue::Null), "f"), Ok(number("3")));
}

#[test]
fn the_document_readers_resolve_what_they_find() {
    assert!(required_document(None, "f").is_err());
    assert_eq!(required_document(Some(&JsonValue::Null), "f"), Ok(JsonValue::Null));
    assert_eq!(required_document(Some(&text("[]")), "f"), Ok(JsonValue::Array(vec![])));
    assert_eq!(optional_document(None, "f"), Ok(None));
    assert_eq!(optional_document(Some(&JsonValue::Null), "f"), Ok(None));
    assert_eq!(optional_document(Some(&text("{}")), "f"), Ok(Some(JsonValue::Object(JsonObject::new()))));
    assert_eq!(optional_document(Some(&text("x")), "f"), Ok(Some(text("x"))));
    assert!(optional_document(Some(&text("{")), "f").is_err());
}
