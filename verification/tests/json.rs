use osd::json::{push_json_string, Json};

fn object(members: Vec<(&str, Json)>) -> Json {
    Json::Object(members.into_iter().map(|(name, value)| (name.to_string(), value)).collect())
}

#[test]
fn text_is_read_into_a_document() {
    assert_eq!(
        Json::parse(r#"{"b":[1,"x",null,true],"a":{"n":-3}}"#),
        Some(object(vec![
            ("a", object(vec![("n", Json::Number(Some(-3)))])),
            (
                "b",
                Json::Array(vec![
                    Json::Number(Some(1)),
                    Json::Text("x".to_string()),
                    Json::Null,
                    Json::Bool(true),
                ])
            ),
        ]))
    );
}

#[test]
fn number_that_is_no_64_bit_integer_has_no_value() {
    assert_eq!(Json::parse("1.5"), Some(Json::Number(None)));
    assert_eq!(Json::parse("18446744073709551615"), Some(Json::Number(None)));
    assert_eq!(Json::parse("9223372036854775807"), Some(Json::Number(Some(i64::MAX))));
    assert_eq!(Json::parse("-9223372036854775808"), Some(Json::Number(Some(i64::MIN))));
}

#[test]
fn text_that_is_no_json_gives_nothing() {
    assert_eq!(Json::parse(""), None);
    assert_eq!(Json::parse("{"), None);
    assert_eq!(Json::parse("{} x"), None);
    assert_eq!(Json::parse("'a'"), None);
}

#[test]
fn escapes_in_a_string_are_resolved() {
    assert_eq!(Json::parse(r#""a\"bé""#), Some(Json::Text("a\"bé".to_string())));
}

#[test]
fn member_is_found_by_its_name() {
    let document = object(vec![("a", Json::Bool(true)), ("b", Json::Null), ("a", Json::Null)]);
    assert_eq!(document.get("a"), Some(&Json::Bool(true)));
    assert_eq!(document.get("b"), Some(&Json::Null));
    assert_eq!(document.get("c"), None);
    assert_eq!(Json::Null.get("a"), None);
    assert_eq!(Json::Array(vec![Json::Null]).get("a"), None);
}

#[test]
fn item_is_found_by_its_position() {
    let document = Json::Array(vec![Json::Bool(true), Json::Null]);
    assert_eq!(document.at(0), Some(&Json::Bool(true)));
    assert_eq!(document.at(1), Some(&Json::Null));
    assert_eq!(document.at(2), None);
    assert_eq!(object(vec![]).at(0), None);
}

#[test]
fn leaves_are_read_by_their_type() {
    assert_eq!(Json::Number(Some(5)).as_i64(), Some(5));
    assert_eq!(Json::Number(None).as_i64(), None);
    assert_eq!(Json::Text("5".to_string()).as_i64(), None);
    assert_eq!(Json::Text("5".to_string()).as_str(), Some(&"5".to_string()));
    assert_eq!(Json::Number(Some(5)).as_str(), None);
    assert!(Json::Bool(true).is_bool_true());
    assert!(!Json::Bool(false).is_bool_true());
    assert!(!Json::Text("true".to_string()).is_bool_true());
}

#[test]
fn string_literal_is_quoted_and_escaped() {
    let mut out = String::from("x=");
    push_json_string(&mut out, "a\"b\\c\n\té");
    assert_eq!(out, "x=\"a\\\"b\\\\c\\n\\té\"");
    let mut empty = String::new();
    push_json_string(&mut empty, "");
    assert_eq!(empty, "\"\"");
}
