use aries_vcx::utils::json::JsonValue;

#[test]
fn text_is_read_into_documents() {
    assert_eq!(JsonValue::from_text("null"), Some(JsonValue::Null));
    assert_eq!(JsonValue::from_text(" true "), Some(JsonValue::Bool(true)));
    assert_eq!(JsonValue::from_text("\"a\\nb\""), Some(JsonValue::String("a\nb".to_string())));
    assert_eq!(JsonValue::from_text("17"), Some(JsonValue::from_u64(17)));
    assert_eq!(
        JsonValue::from_text("[1, [], {}]"),
        Some(JsonValue::Array(vec![
            JsonValue::from_u64(1),
            JsonValue::Array(vec![]),
            JsonValue::Object(vec![]),
        ]))
    );
    assert_eq!(
        JsonValue::from_text("{\"b\": {\"c\": null}, \"a\": \"x\"}"),
        Some(JsonValue::Object(vec![
            ("a".to_string(), JsonValue::String("x".to_string())),
            ("b".to_string(), JsonValue::Object(vec![("c".to_string(), JsonValue::Null)])),
        ]))
    );
}

#[test]
fn what_is_no_json_is_not_read() {
    for text in ["", "{", "{\"a\":}", "[1,]", "nul", "{\"a\":1} x", "'a'", "{a:1}"] {
        assert_eq!(JsonValue::from_text(text), None);
    }
}

#[test]
fn documents_are_written_compactly() {
    assert_eq!(JsonValue::Null.to_text(), "null");
    assert_eq!(JsonValue::Bool(false).to_text(), "false");
    assert_eq!(JsonValue::from_u64(18446744073709551615).to_text(), "18446744073709551615");
    assert_eq!(JsonValue::from_str("a\"b").to_text(), "\"a\\\"b\"");
    assert_eq!(JsonValue::Array(vec![JsonValue::Null, JsonValue::from_u64(2)]).to_text(), "[null,2]");
    let mut object = JsonValue::object();
    object.insert("z".to_string(), JsonValue::from_u64(1));
    object.insert("a".to_string(), JsonValue::Array(vec![]));
    object.insert("z".to_string(), JsonValue::from_u64(2));
    assert_eq!(object.to_text(), "{\"a\":[],\"z\":2}");
    assert_eq!(JsonValue::object().to_text(), "{}");
}

#[test]
fn written_documents_read_back() {
    for text in [
        "{\"a\":[1,2,{\"b\":null}],\"c\":\"d\",\"e\":-5,\"f\":1.5,\"g\":true}",
        "[]",
        "\"\"",
        "[[[[\"deep\"]]]]",
    ] {
        let document = JsonValue::from_text(text).unwrap();
        assert_eq!(document.to_text(), text);
        assert_eq!(JsonValue::from_text(&document.to_text()), Some(document.clone()));
        assert_eq!(document.duplicate(), document);
        assert_eq!(document.clone(), document);
    }
}

#[test]
fn members_are_found_by_name() {
    let document = JsonValue::from_text("{\"value\":{\"revocation\":{\"g\":\"1\"},\"n\":null},\"x\":7,\"s\":\"t\"}").unwrap();
    assert!(document.is_object());
    assert!(!document.is_null());
    let value = document.get("value").unwrap();
    assert!(value.get("revocation").unwrap().is_object());
    assert!(!value.member_is_null("revocation"));
    assert!(value.member_is_null("n"));
    assert!(value.member_is_null("missing"));
    assert!(document.get("missing").is_none());
    assert_eq!(document.get("x").unwrap().as_u64(), Some(7));
    assert_eq!(document.get("s").unwrap().as_str(), Some("t"));
    assert_eq!(document.get("s").unwrap().as_u64(), None);
    assert_eq!(document.get("x").unwrap().as_str(), None);
    assert!(document.get("x").unwrap().get("y").is_none());
    assert!(JsonValue::Null.member_is_null("a"));
    assert!(JsonValue::Null.is_null());
}

#[test]
fn later_member_counts() {
    let mut object = JsonValue::object();
    object.insert("k".to_string(), JsonValue::from_u64(1));
    object.insert("k".to_string(), JsonValue::from_u64(2));
    assert_eq!(object.get("k").unwrap().as_u64(), Some(2));
    assert_eq!(JsonValue::from_text("{\"k\":1,\"k\":2}").unwrap().get("k").unwrap().as_u64(), Some(2));
}

#[test]
fn numbers_hold_unsigned_integers_or_not() {
    assert_eq!(JsonValue::from_text("0").unwrap().as_u64(), Some(0));
    assert_eq!(JsonValue::from_text("18446744073709551615").unwrap().as_u64(), Some(u64::MAX));
    assert_eq!(JsonValue::from_text("-1").unwrap().as_u64(), None);
    assert_eq!(JsonValue::from_text("1.0").unwrap().as_u64(), None);
    assert_eq!(JsonValue::from_text("1e2").unwrap().as_u64(), None);
    assert_eq!(JsonValue::from_u64(1234).as_u64(), Some(1234));
}
