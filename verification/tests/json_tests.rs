use gscholar::error::ParseError;
use gscholar::json::{Json, JsonNumber};

#[test]
fn parse_reads_scalars() {
    assert!(matches!(Json::parse("null"), Ok(Json::Null)));
    assert!(matches!(Json::parse("true"), Ok(Json::Bool(true))));
    assert!(matches!(Json::parse("7"), Ok(Json::Number(JsonNumber::Unsigned(7)))));
    assert!(matches!(Json::parse("-7"), Ok(Json::Number(JsonNumber::Negative(-7)))));
    assert!(matches!(Json::parse("1.5"), Ok(Json::Number(JsonNumber::Real))));
    assert_eq!(Json::parse("\"text\"").unwrap().as_str(), Some("text"));
}

#[test]
fn parse_reads_the_largest_unsigned_integer() {
    let json = Json::parse("18446744073709551615").unwrap();
    assert_eq!(json.as_u64(), Some(u64::MAX));
    let json = Json::parse("18446744073709551616").unwrap();
    assert_eq!(json.as_u64(), None);
}

#[test]
fn parse_rejects_what_is_not_json() {
    assert_eq!(Json::parse("{").err(), Some(ParseError::Syntax));
    assert_eq!(Json::parse("").err(), Some(ParseError::Syntax));
    assert_eq!(Json::parse("1 2").err(), Some(ParseError::Syntax));
    assert_eq!(Json::parse("{\"a\":}").err(), Some(ParseError::Syntax));
}

#[test]
fn parse_reads_nested_documents() {
    let json = Json::parse(r#"{"b":[1,{"c":"d"},null],"a":true}"#).unwrap();
    assert!(matches!(json.get("a"), Some(Json::Bool(true))));
    let list = json.get("b").unwrap();
    assert_eq!(list.at(0).unwrap().as_u64(), Some(1));
    assert_eq!(list.at(1).unwrap().get("c").unwrap().as_str(), Some("d"));
    assert!(list.at(2).unwrap().is_null());
    assert!(list.at(3).is_none());
    assert!(json.get("c").is_none());
}

#[test]
fn parse_keeps_one_member_for_a_repeated_key() {
    let json = Json::parse(r#"{"a":1,"a":2}"#).unwrap();
    match &json {
        Json::Object(members) => assert_eq!(members.len(), 1),
        _ => panic!("not an object"),
    }
    assert_eq!(json.get("a").unwrap().as_u64(), Some(2));
}

#[test]
fn get_finds_the_first_member_with_the_key() {
    let json = Json::Object(vec![
        ("k".to_string(), Json::Number(JsonNumber::Unsigned(1))),
        ("other".to_string(), Json::Null),
        ("k".to_string(), Json::Number(JsonNumber::Unsigned(2))),
    ]);
    assert_eq!(json.get("k").unwrap().as_u64(), Some(1));
    assert!(json.get("other").unwrap().is_null());
    assert!(json.get("missing").is_none());
    assert!(Json::Null.get("k").is_none());
    assert!(Json::Array(vec![]).get("k").is_none());
}

#[test]
fn at_reads_arrays_only() {
    let list = Json::Array(vec![Json::Bool(false), Json::Str("x".to_string())]);
    assert!(matches!(list.at(0), Some(Json::Bool(false))));
    assert_eq!(list.at(1).unwrap().as_str(), Some("x"));
    assert!(list.at(2).is_none());
    assert!(Json::Object(vec![]).at(0).is_none());
    assert!(Json::Str("x".to_string()).at(0).is_none());
}

#[test]
fn scalars_read_as_their_own_type_only() {
    assert_eq!(Json::Number(JsonNumber::Unsigned(3)).as_u64(), Some(3));
    assert_eq!(Json::Number(JsonNumber::Negative(-3)).as_u64(), None);
    assert_eq!(Json::Number(JsonNumber::Real).as_u64(), None);
    assert_eq!(Json::Str("3".to_string()).as_u64(), None);
    assert_eq!(Json::Number(JsonNumber::Unsigned(3)).as_str(), None);
    assert!(Json::Null.is_null());
    assert!(!Json::Bool(false).is_null());
}

#[test]
fn number_from_parts_prefers_the_unsigned_reading() {
    assert_eq!(JsonNumber::from_parts(Some(5), Some(5)), JsonNumber::Unsigned(5));
    assert_eq!(JsonNumber::from_parts(None, Some(-5)), JsonNumber::Negative(-5));
    assert_eq!(JsonNumber::from_parts(None, None), JsonNumber::Real);
}

#[test]
fn path_helpers_pass_absence_on() {
    let json = Json::parse(r#"{"a":{"b":[10,20]}}"#).unwrap();
    let list = Json::get_member(Json::get_member(Some(&json), "a"), "b");
    assert_eq!(Json::get_element(list, 1).unwrap().as_u64(), Some(20));
    assert!(Json::get_element(list, 2).is_none());
    assert!(Json::get_member(Json::get_member(Some(&json), "x"), "b").is_none());
    assert!(Json::get_member(None, "a").is_none());
    assert!(Json::get_element(None, 0).is_none());
}
