use ai_web_assistant::json::{Json, JsonError, JsonNumber, Members};

#[test]
fn parse_reads_an_object() {
    let value = Json::parse("{\"name\": \"x\", \"n\": 3, \"ok\": true, \"none\": null}").unwrap();
    assert_eq!(value.str_at("name"), Some("x"));
    assert_eq!(value.u64_at("n"), Some(3));
    assert_eq!(value.bool_at("ok"), Some(true));
    assert!(value.has_none("none"));
    assert!(value.has_none("missing"));
    assert!(!value.has_none("name"));
    assert!(value.get("none").unwrap().is_null());
    assert!(value.get("missing").is_none());
    assert_eq!(value.str_at("n"), None);
    assert_eq!(value.u64_at("name"), None);
    assert_eq!(value.bool_at("n"), None);
    assert_eq!(value.as_object().unwrap().len(), 4);
}

#[test]
fn parse_reads_arrays_and_nesting() {
    let value = Json::parse("{\"list\": [1, \"two\", [3]], \"in\": {\"deep\": \"yes\"}}").unwrap();
    let list = value.get("list").unwrap().as_array().unwrap();
    assert_eq!(list.len(), 3);
    assert_eq!(list[0].as_u64(), Some(1));
    assert_eq!(list[1].as_str(), Some("two"));
    assert_eq!(list[2].as_array().unwrap()[0].as_u64(), Some(3));
    assert_eq!(value.get("in").unwrap().str_at("deep"), Some("yes"));
    assert!(value.get("list").unwrap().as_object().is_none());
    assert!(value.get("in").unwrap().as_array().is_none());
    assert!(value.get("list").unwrap().get("x").is_none());
}

#[test]
fn parse_tells_numbers_apart() {
    let value = Json::parse("[0, 18446744073709551615, -5, 1.5, 9223372036854775807]").unwrap();
    let items = value.as_array().unwrap();
    assert_eq!(items[0].as_u64(), Some(0));
    assert_eq!(items[0].as_i64(), Some(0));
    assert_eq!(items[1].as_u64(), Some(u64::MAX));
    assert_eq!(items[1].as_i64(), None);
    assert_eq!(items[2].as_u64(), None);
    assert_eq!(items[2].as_i64(), Some(-5));
    assert_eq!(items[3].as_u64(), None);
    assert_eq!(items[3].as_i64(), None);
    assert_eq!(items[4].as_i64(), Some(i64::MAX));
    assert!(matches!(&items[0], Json::Number(JsonNumber::Unsigned(0))));
    assert!(matches!(&items[2], Json::Number(JsonNumber::Negative(-5))));
    match &items[3] {
        Json::Number(JsonNumber::Fraction(numeral)) => assert_eq!(numeral, "1.5"),
        other => panic!("unexpected: {:?}", other),
    }
}

#[test]
fn parse_tells_a_text_that_is_cut_off_from_one_that_is_wrong() {
    assert_eq!(Json::parse("").unwrap_err(), JsonError::UnexpectedEnd);
    assert_eq!(Json::parse("{\"a\": [1, 2").unwrap_err(), JsonError::UnexpectedEnd);
    assert_eq!(Json::parse("{\"a\": \"unfinished").unwrap_err(), JsonError::UnexpectedEnd);
    assert_eq!(Json::parse("{\"a\" 1}").unwrap_err(), JsonError::Malformed);
    assert_eq!(Json::parse("nonsense").unwrap_err(), JsonError::Malformed);
    assert_eq!(Json::parse("{} trailing").unwrap_err(), JsonError::Malformed);
}

#[test]
fn parse_reads_scalars() {
    assert!(Json::parse("null").unwrap().is_null());
    assert_eq!(Json::parse("false").unwrap().as_bool(), Some(false));
    assert_eq!(Json::parse("\"caf\\u00e9\"").unwrap().as_str(), Some("café"));
    assert_eq!(Json::parse(" 12 ").unwrap().as_u64(), Some(12));
    assert_eq!(Json::parse("12").unwrap().as_str(), None);
    assert_eq!(Json::parse("12").unwrap().as_bool(), None);
    assert!(Json::parse("12").unwrap().get("a").is_none());
}

#[test]
fn values_are_written_as_json() {
    for text in [
        "null",
        "true",
        "12",
        "-7",
        "1.5",
        "\"a\\\"b\"",
        "[1,\"two\",[3],{}]",
        "{\"a\":{\"b\":[null,false]},\"c\":18446744073709551615}",
    ] {
        assert_eq!(Json::parse(text).unwrap().write(), text);
    }
    // Members are written in the order of their names.
    assert_eq!(Json::parse("{\"b\": 1, \"a\": 2}").unwrap().write(), "{\"a\":2,\"b\":1}");
    assert_eq!(
        Json::parse("{\"a\":[1,2]}").unwrap().write_pretty(),
        "{\n  \"a\": [\n    1,\n    2\n  ]\n}"
    );
}

#[test]
fn values_are_built_member_by_member() {
    let mut members = Members::new();
    members.put_text("name", "x");
    members.put("n", Json::unsigned(3));
    members.put("i", Json::signed(-3));
    members.put("p", Json::signed(4));
    members.put("list", Json::list(vec![Json::text("a"), Json::Bool(true), Json::Null]));
    let value = members.finish();
    assert_eq!(value.write(), "{\"i\":-3,\"list\":[\"a\",true,null],\"n\":3,\"name\":\"x\",\"p\":4}");
    assert_eq!(value.str_at("name"), Some("x"));
    assert_eq!(value.get("i").unwrap().as_i64(), Some(-3));
    assert_eq!(value.get("p").unwrap().as_u64(), Some(4));
    assert_eq!(value.optional_str_at("name"), Some(Some("x")));
    assert_eq!(value.optional_str_at("gone"), Some(None));
    assert_eq!(value.optional_str_at("n"), None);
    assert_eq!(Members::new().finish().write(), "{}");
}

#[test]
fn a_numeral_that_is_no_number_is_written_as_null() {
    assert_eq!(Json::Number(JsonNumber::Fraction("2.5e3".to_string())).write(), "2500.0");
    assert_eq!(Json::Number(JsonNumber::Fraction("[1]".to_string())).write(), "null");
    assert_eq!(Json::Number(JsonNumber::Fraction("abc".to_string())).write(), "null");
}
