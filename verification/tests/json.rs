use mcp_shell_server::json::Json;
use serde_json::Value;

#[test]
fn documents_survive_the_way_there_and_back() {
    for text in [
        "null",
        "true",
        "-3",
        "1.5",
        "18446744073709551615",
        "\"a\\nb\"",
        "[]",
        "[1,[2,{}],null]",
        "{\"a\":{\"b\":[false]},\"c\":\"\"}",
    ] {
        let value: Value = serde_json::from_str(text).unwrap();
        let json = Json::from_value(value.clone());
        assert_eq!(json.to_value(), value);
        assert_eq!(Json::parse(text).unwrap(), json);
        assert_eq!(json.to_text().unwrap(), text);
        assert_eq!(json.display(), text);
    }
}

#[test]
fn a_text_that_is_no_document_is_refused_with_the_reason() {
    for text in ["", "{", "[1,]", "nul"] {
        let reason = serde_json::from_str::<Value>(text).unwrap_err().to_string();
        assert_eq!(Json::parse(text), Err(reason));
    }
    assert_eq!(Json::parse("").unwrap_err(), "EOF while parsing a value at line 1 column 0");
}

#[test]
fn members_are_found_by_key_and_the_last_one_counts() {
    let json = Json::object()
        .with("a", Json::string("one"))
        .with("b", Json::integer(-32601))
        .with("a", Json::string("two"));
    assert_eq!(json.get("a"), Some(&Json::string("two")));
    assert_eq!(json.text_of("a"), Some("two"));
    assert_eq!(json.text_of("b"), None);
    assert_eq!(json.get("c"), None);
    assert_eq!(Json::Null.get("a"), None);
    assert_eq!(json.to_value()["b"], -32601);
    assert_eq!(json.to_text().unwrap(), "{\"a\":\"two\",\"b\":-32601}");
}

#[test]
fn arrays_keep_their_order() {
    let json = Json::array().and(Json::integer(1)).and(Json::Bool(false)).and(Json::Null);
    assert_eq!(json.to_text().unwrap(), "[1,false,null]");
    let strings = Json::strings(&["x".to_string(), "y".to_string()]);
    assert_eq!(strings.to_text().unwrap(), "[\"x\",\"y\"]");
    assert_eq!(json.as_str(), None);
    assert_eq!(Json::string("s").as_str(), Some("s"));
}

#[test]
fn a_document_is_written_on_one_line() {
    let json = Json::object().with("a\nb", Json::string("c\r\nd"));
    let text = json.to_text().unwrap();
    assert!(!text.contains('\n'));
    assert_eq!(text, "{\"a\\nb\":\"c\\r\\nd\"}");
}
