use notify_core::json::{find_field, parse_string_list, Json};

fn text(s: &str) -> Json {
    Json::Str(s.to_string())
}

#[test]
fn json_is_read_from_text() {
    assert_eq!(Json::parse("null"), Some(Json::Null));
    assert_eq!(Json::parse(" true "), Some(Json::Bool(true)));
    assert_eq!(Json::parse("-12"), Some(Json::Int(-12)));
    assert_eq!(
        Json::parse("9223372036854775807"),
        Some(Json::Int(i64::MAX))
    );
    assert_eq!(
        Json::parse("9223372036854775808"),
        Some(Json::Number("9223372036854775808".to_string()))
    );
    assert_eq!(Json::parse("1.50"), Some(Json::Number("1.5".to_string())));
    assert_eq!(Json::parse("\"a\\nb\""), Some(text("a\nb")));
    assert_eq!(
        Json::parse("[1, [], {\"k\": [null]}]"),
        Some(Json::Array(vec![
            Json::Int(1),
            Json::Array(vec![]),
            Json::Object(vec![("k".to_string(), Json::Array(vec![Json::Null]))]),
        ]))
    );
    assert_eq!(
        Json::parse("{\"b\": 1, \"a\": 2, \"b\": 3}"),
        Some(Json::Object(vec![
            ("a".to_string(), Json::Int(2)),
            ("b".to_string(), Json::Int(3)),
        ]))
    );
    for bad in ["", "{", "[1,]", "nul", "'a'", "1 2"] {
        assert_eq!(Json::parse(bad), None);
        assert!(Json::parse_or_error(bad).is_err());
    }
    assert_eq!(Json::parse_or_error("[1]"), Ok(Json::Array(vec![Json::Int(1)])));
    assert_eq!(
        Json::parse_or_error("{"),
        Err("EOF while parsing an object at line 1 column 1".to_string())
    );
}

#[test]
fn json_is_written_as_text() {
    assert_eq!(Json::Null.to_text(), "null");
    assert_eq!(Json::Bool(false).to_text(), "false");
    assert_eq!(Json::Int(i64::MIN).to_text(), "-9223372036854775808");
    assert_eq!(Json::Number("2.50".to_string()).to_text(), "2.5");
    assert_eq!(Json::Number("18446744073709551615".to_string()).to_text(), "18446744073709551615");
    assert_eq!(Json::Number("not a number".to_string()).to_text(), "null");
    assert_eq!(text("say \"hi\"\n").to_text(), "\"say \\\"hi\\\"\\n\"");
    assert_eq!(
        Json::Array(vec![Json::Int(1), text("a"), Json::Array(vec![])]).to_text(),
        "[1,\"a\",[]]"
    );
    assert_eq!(
        Json::Object(vec![
            ("b".to_string(), Json::Int(1)),
            ("a".to_string(), Json::Null),
            ("b".to_string(), Json::Int(2)),
        ])
        .to_text(),
        "{\"a\":null,\"b\":2}"
    );
    let document = Json::parse("{\"a\":[1,2.5,{\"b\":\"c\"}],\"d\":null}").unwrap();
    assert_eq!(document.to_text(), "{\"a\":[1,2.5,{\"b\":\"c\"}],\"d\":null}");
}

#[test]
fn members_of_an_object() {
    let object = Json::Object(vec![
        ("a".to_string(), Json::Int(1)),
        ("b".to_string(), text("x")),
        ("a".to_string(), Json::Int(3)),
    ]);
    assert_eq!(object.get("a"), Some(&Json::Int(3)));
    assert_eq!(object.get("b"), Some(&text("x")));
    assert_eq!(object.get("c"), None);
    assert_eq!(object.get(""), None);
    assert_eq!(Json::Array(vec![]).get("a"), None);
    assert_eq!(Json::Null.get("a"), None);
    assert_eq!(find_field(&vec![], "a"), None);

    assert_eq!(text("x").as_str(), Some(&"x".to_string()));
    assert_eq!(Json::Int(1).as_str(), None);
    assert_eq!(Json::Int(7).as_i64(), Some(7));
    assert_eq!(Json::Number("7".to_string()).as_i64(), None);
    assert_eq!(text("7").as_i64(), None);
    assert_eq!(
        Json::Array(vec![Json::Null]).as_array(),
        Some(&vec![Json::Null])
    );
    assert_eq!(Json::Object(vec![]).as_array(), None);
}

#[test]
fn copy_of_a_document() {
    let document = Json::parse("{\"a\":[1,2.5,{\"b\":\"c\"}],\"d\":null,\"e\":true}").unwrap();
    assert_eq!(document.duplicate(), document);
    assert_eq!(document.clone(), document);
}

#[test]
fn lists_of_strings() {
    assert_eq!(
        Json::Array(vec![text("a"), text("")]).as_string_list(),
        Some(vec!["a".to_string(), "".to_string()])
    );
    assert_eq!(Json::Array(vec![]).as_string_list(), Some(vec![]));
    assert_eq!(Json::Array(vec![text("a"), Json::Null]).as_string_list(), None);
    assert_eq!(text("a").as_string_list(), None);
    assert_eq!(
        parse_string_list("[\"x\", \"y\"]"),
        vec!["x".to_string(), "y".to_string()]
    );
    assert!(parse_string_list("[1]").is_empty());
    assert!(parse_string_list("{}").is_empty());
    assert!(parse_string_list("").is_empty());
}
