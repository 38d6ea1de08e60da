use fanqie_todo::json::{parse_json, Json};

fn text(s: &str) -> Json {
    Json::Text(s.to_string())
}

#[test]
fn parses_every_kind_of_value() {
    assert_eq!(parse_json("null"), Ok(Json::Null));
    assert_eq!(parse_json("true"), Ok(Json::Bool(true)));
    assert_eq!(parse_json("false"), Ok(Json::Bool(false)));
    assert_eq!(parse_json("12"), Ok(Json::Number(Some(12))));
    assert_eq!(parse_json("-3"), Ok(Json::Number(Some(-3))));
    assert_eq!(parse_json("\"a\\nb\""), Ok(text("a\nb")));
    assert_eq!(parse_json("[]"), Ok(Json::Array(vec![])));
    assert_eq!(parse_json("{}"), Ok(Json::Object(vec![])));
    assert_eq!(parse_json(" [1, \"x\", null] "), Ok(Json::Array(vec![
        Json::Number(Some(1)),
        text("x"),
        Json::Null,
    ])));
}

#[test]
fn numbers_that_are_no_i64_have_no_integer() {
    assert_eq!(parse_json("1.5"), Ok(Json::Number(None)));
    assert_eq!(parse_json("2.0"), Ok(Json::Number(None)));
    assert_eq!(parse_json("1e2"), Ok(Json::Number(None)));
    assert_eq!(parse_json("9223372036854775807"), Ok(Json::Number(Some(i64::MAX))));
    assert_eq!(parse_json("9223372036854775808"), Ok(Json::Number(None)));
    assert_eq!(parse_json("-9223372036854775808"), Ok(Json::Number(Some(i64::MIN))));
}

#[test]
fn parses_nested_documents() {
    let parsed = parse_json("{\"b\": {\"c\": [true, {\"d\": \"e\"}]}, \"a\": 1}").unwrap();
    assert_eq!(parsed.get("a"), Some(&Json::Number(Some(1))));
    let c = parsed.get("b").unwrap().get("c").unwrap();
    assert_eq!(c.at(0), Some(&Json::Bool(true)));
    assert_eq!(c.at(1).unwrap().get("d").unwrap().as_str(), Some("e"));
    assert_eq!(c.at(2), None);
}

#[test]
fn a_repeated_key_keeps_its_last_value() {
    let parsed = parse_json("{\"a\": 1, \"a\": 2}").unwrap();
    assert_eq!(parsed, Json::Object(vec![("a".to_string(), Json::Number(Some(2)))]));
}

#[test]
fn parse_errors_carry_the_description_of_the_parser() {
    assert_eq!(
        parse_json("{\"a\": }"),
        Err("expected value at line 1 column 7".to_string())
    );
    assert_eq!(
        parse_json(""),
        Err("EOF while parsing a value at line 1 column 0".to_string())
    );
    assert_eq!(parse_json("[1, 2] x"), Err("trailing characters at line 1 column 8".to_string()));
    assert!(parse_json("plain text").is_err());
}

#[test]
fn parse_agrees_with_the_parser_on_errors() {
    for sample in ["", "{", "[1,]", "nul", "\"open", "{\"a\" 1}", "01", "1 2"] {
        let expected = serde_json::from_str::<serde_json::Value>(sample).unwrap_err().to_string();
        assert_eq!(parse_json(sample), Err(expected), "{:?}", sample);
    }
}

#[test]
fn get_finds_members_of_objects_only() {
    let object = Json::Object(vec![
        ("a".to_string(), Json::Number(Some(1))),
        ("b".to_string(), Json::Null),
    ]);
    assert_eq!(object.get("a"), Some(&Json::Number(Some(1))));
    assert_eq!(object.get("b"), Some(&Json::Null));
    assert_eq!(object.get("c"), None);
    assert_eq!(object.get(""), None);
    assert_eq!(Json::Array(vec![Json::Null]).get("0"), None);
    assert_eq!(text("a").get("a"), None);
    assert_eq!(Json::Null.get("a"), None);
}

#[test]
fn get_takes_the_first_member_with_the_key() {
    let object = Json::Object(vec![
        ("k".to_string(), Json::Number(Some(1))),
        ("k".to_string(), Json::Number(Some(2))),
    ]);
    assert_eq!(object.get("k"), Some(&Json::Number(Some(1))));
}

#[test]
fn at_finds_elements_of_arrays_only() {
    let array = Json::Array(vec![text("x"), text("y")]);
    assert_eq!(array.at(0), Some(&text("x")));
    assert_eq!(array.at(1), Some(&text("y")));
    assert_eq!(array.at(2), None);
    assert_eq!(Json::Object(vec![("0".to_string(), Json::Null)]).at(0), None);
    assert_eq!(Json::Null.at(0), None);
}

#[test]
fn as_str_and_as_i64_read_one_kind_each() {
    assert_eq!(text("x").as_str(), Some("x"));
    assert_eq!(Json::Number(Some(1)).as_str(), None);
    assert_eq!(Json::Null.as_str(), None);
    assert_eq!(Json::Number(Some(-5)).as_i64(), Some(-5));
    assert_eq!(Json::Number(None).as_i64(), None);
    assert_eq!(text("5").as_i64(), None);
    assert_eq!(Json::Bool(true).as_i64(), None);
}
