use shticker_book_unwritten::json::{member, parse_json, Json};

#[test]
fn parse_json_scalars() {
    assert!(matches!(parse_json("null"), Ok(Json::Null)));
    assert!(matches!(parse_json("true"), Ok(Json::Bool(true))));
    assert!(matches!(parse_json(" false "), Ok(Json::Bool(false))));
    match parse_json("\"a\\nb\"") {
        Ok(Json::Text(s)) => assert_eq!(s, "a\nb"),
        other => panic!("{:?}", other),
    }
    match parse_json("-12") {
        Ok(Json::Number(n)) => assert_eq!(n, "-12"),
        other => panic!("{:?}", other),
    }
    match parse_json("1.5") {
        Ok(Json::Number(n)) => assert_eq!(n, "1.5"),
        other => panic!("{:?}", other),
    }
}

#[test]
fn parse_json_nested_values() {
    let doc = parse_json(r#"{"b": [1, "x", null, {"k": true}], "a": {}}"#).unwrap();
    let members = match doc {
        Json::Object(m) => m,
        other => panic!("{:?}", other),
    };
    assert_eq!(members.len(), 2);
    match member(&members, "b") {
        Some(Json::Array(items)) => {
            assert_eq!(items.len(), 4);
            assert!(matches!(&items[0], Json::Number(n) if n == "1"));
            assert!(matches!(&items[1], Json::Text(s) if s == "x"));
            assert!(matches!(&items[2], Json::Null));
            match &items[3] {
                Json::Object(inner) => {
                    assert_eq!(inner.len(), 1);
                    assert_eq!(inner[0].0, "k");
                    assert!(matches!(inner[0].1, Json::Bool(true)));
                }
                other => panic!("{:?}", other),
            }
        }
        other => panic!("{:?}", other),
    }
    assert!(matches!(member(&members, "a"), Some(Json::Object(m)) if m.is_empty()));
    assert!(member(&members, "c").is_none());
}

#[test]
fn parse_json_rejects_what_is_no_json() {
    for bad in ["", "{", "[1,]", "{\"a\":}", "nul", "\"open", "{} x"] {
        match parse_json(bad) {
            Err(message) => assert!(!message.is_empty()),
            Ok(v) => panic!("{:?} parsed as {:?}", bad, v),
        }
    }
}

#[test]
fn parse_json_is_a_function_of_the_text() {
    let text = r#"{"x": [1, 2, {"y": "z"}]}"#;
    assert_eq!(
        format!("{:?}", parse_json(text).unwrap()),
        format!("{:?}", parse_json(text).unwrap())
    );
}

#[test]
fn member_finds_the_first_of_equal_names() {
    let members = vec![
        ("a".to_string(), Json::Bool(false)),
        ("b".to_string(), Json::Null),
        ("a".to_string(), Json::Bool(true)),
    ];
    assert!(matches!(member(&members, "a"), Some(Json::Bool(false))));
    assert!(matches!(member(&members, "b"), Some(Json::Null)));
    assert!(member(&members, "").is_none());
    assert!(member(&members, "A").is_none());
    assert!(member(&Vec::new(), "a").is_none());
}
