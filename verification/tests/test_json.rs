use mlflow_api::json::{Json, JsonNumber, Members};
use mlflow_api::text::{join, parse_unsigned};

fn parsed(text: &str) -> Option<Json> {
    Json::parse(text.as_bytes())
}

#[test]
fn parses_every_kind_of_document() {
    assert_eq!(parsed("null"), Some(Json::Null));
    assert_eq!(parsed("true"), Some(Json::Bool(true)));
    assert_eq!(parsed(" \"a\\nb\" "), Some(Json::Text("a\nb".to_string())));
    assert_eq!(
        parsed("[1, [], {}]"),
        Some(Json::Array(vec![
            Json::Number(JsonNumber::Unsigned(1)),
            Json::Array(vec![]),
            Json::Object(vec![]),
        ]))
    );
    assert_eq!(
        parsed("{\"b\": false, \"a\": null}"),
        Some(Json::Object(vec![("a".to_string(), Json::Null), ("b".to_string(), Json::Bool(false))]))
    );
}

#[test]
fn parses_numbers_into_their_three_forms() {
    assert_eq!(parsed("0"), Some(Json::Number(JsonNumber::Unsigned(0))));
    assert_eq!(
        parsed("18446744073709551615"),
        Some(Json::Number(JsonNumber::Unsigned(u64::MAX)))
    );
    assert_eq!(parsed("-1"), Some(Json::Number(JsonNumber::Negative(-1))));
    assert_eq!(
        parsed("-9223372036854775808"),
        Some(Json::Number(JsonNumber::Negative(i64::MIN)))
    );
    assert_eq!(parsed("0.5"), Some(Json::Number(JsonNumber::Real("0.5".to_string()))));
    assert_eq!(parsed("2.50"), Some(Json::Number(JsonNumber::Real("2.5".to_string()))));
    assert_eq!(parsed("1e2"), Some(Json::Number(JsonNumber::Real("100.0".to_string()))));
    assert_eq!(
        parsed("18446744073709551616"),
        Some(Json::Number(JsonNumber::Real("1.8446744073709552e+19".to_string())))
    );
}

#[test]
fn what_is_no_document_parses_to_nothing() {
    assert_eq!(parsed(""), None);
    assert_eq!(parsed("{"), None);
    assert_eq!(parsed("{} x"), None);
    assert_eq!(parsed("{'a': 1}"), None);
    assert_eq!(parsed("NaN"), None);
    assert_eq!(Json::parse(&[0x22, 0xff, 0x22]), None);
    let deep = "[".repeat(200) + &"]".repeat(200);
    assert_eq!(parsed(&deep), None);
}

#[test]
fn of_a_repeated_name_the_last_member_counts() {
    let object = parsed("{\"a\": 1, \"a\": 2}").unwrap();
    assert_eq!(object, Json::Object(vec![("a".to_string(), Json::Number(JsonNumber::Unsigned(2)))]));

    let built = Json::Object(vec![
        ("a".to_string(), Json::Bool(false)),
        ("b".to_string(), Json::Null),
        ("a".to_string(), Json::Bool(true)),
    ]);
    assert_eq!(built.get("a"), Some(&Json::Bool(true)));
    assert_eq!(built.to_text(), "{\"a\":true,\"b\":null}");
}

#[test]
fn writes_compact_text() {
    assert_eq!(Json::Null.to_text(), "null");
    assert_eq!(Json::text("a\"b").to_text(), "\"a\\\"b\"");
    assert_eq!(Json::unsigned(7).to_text(), "7");
    assert_eq!(Json::Number(JsonNumber::Negative(-7)).to_text(), "-7");
    assert_eq!(Json::Number(JsonNumber::Real("0.1".to_string())).to_text(), "0.1");
    assert_eq!(Json::Number(JsonNumber::Real("1.0".to_string())).to_text(), "1.0");
    assert_eq!(Json::Number(JsonNumber::Real("not a number".to_string())).to_text(), "null");
    assert_eq!(Json::Number(JsonNumber::Real("null".to_string())).to_text(), "null");
    assert_eq!(
        Json::array(vec![Json::Bool(true), Json::Array(vec![]), Json::Object(vec![])]).to_text(),
        "[true,[],{}]"
    );

    let mut members = Members::new();
    members.put_text("z", "last");
    members.put("a", Json::unsigned(1));
    members.put_optional_text("skipped", None);
    members.put_optional_text("kept", Some("yes"));
    members.put_optional_unsigned("none", None);
    members.put_optional_unsigned("some", Some(2));
    assert_eq!(members.into_object().to_text(), "{\"a\":1,\"kept\":\"yes\",\"some\":2,\"z\":\"last\"}");
}

#[test]
fn what_is_written_parses_back() {
    let document = Json::Object(vec![
        ("list".to_string(), Json::Array(vec![Json::Null, Json::text("x")])),
        ("n".to_string(), Json::Number(JsonNumber::Real("0.25".to_string()))),
    ]);
    assert_eq!(parsed(&document.to_text()), Some(document));
}

#[test]
fn reads_members_by_their_form() {
    let object = parsed(
        "{\"s\": \"text\", \"n\": 5, \"f\": 1.5, \"b\": true, \"z\": null, \"l\": [1], \"t\": \"12\"}",
    )
    .unwrap();
    assert_eq!(object.get("s"), Some(&Json::Text("text".to_string())));
    assert_eq!(object.get("missing"), None);
    assert_eq!(object.get_present("z"), None);
    assert_eq!(object.get("z"), Some(&Json::Null));
    assert_eq!(object.text_field("s"), Some("text"));
    assert_eq!(object.text_field("n"), None);
    assert_eq!(object.unsigned_field("n"), Some(5));
    assert_eq!(object.unsigned_field("f"), None);
    assert_eq!(object.unsigned_field("t"), None);
    assert_eq!(object.number_field("f"), Some(&JsonNumber::Real("1.5".to_string())));
    assert_eq!(object.number_field("n"), Some(&JsonNumber::Unsigned(5)));
    assert_eq!(object.bool_field("b"), Some(true));
    assert_eq!(object.bool_field("s"), None);
    assert_eq!(object.optional_unsigned("n"), Some(Some(5)));
    assert_eq!(object.optional_unsigned("z"), Some(None));
    assert_eq!(object.optional_unsigned("missing"), Some(None));
    assert_eq!(object.optional_unsigned("s"), None);
    assert_eq!(object.unsigned_or_zero("missing"), Some(0));
    assert_eq!(object.unsigned_or_zero("n"), Some(5));
    assert_eq!(object.unsigned_or_zero("s"), None);
    assert_eq!(object.decimal_field("t"), Some(12));
    assert_eq!(object.decimal_field("n"), None);
    assert_eq!(object.decimal_field("s"), None);
    assert_eq!(object.optional_decimal("t"), Some(Some(12)));
    assert_eq!(object.optional_decimal("z"), Some(None));
    assert_eq!(object.optional_decimal("n"), None);
    assert_eq!(object.optional_text("s"), Some(Some("text".to_string())));
    assert_eq!(object.optional_text("z"), Some(None));
    assert_eq!(object.optional_text("n"), None);
    assert_eq!(object.get("l").unwrap().as_items().map(|items| items.len()), Some(1));
    assert!(object.is_object());
    assert!(!Json::Null.is_object());
    assert_eq!(Json::Null.get("s"), None);
    assert_eq!(Json::Bool(true).as_bool(), Some(true));
    assert_eq!(Json::text("x").as_text(), Some("x"));
    assert_eq!(Json::unsigned(3).as_unsigned(), Some(3));
    assert_eq!(Json::Number(JsonNumber::Negative(-3)).as_unsigned(), None);
    assert_eq!(Json::unsigned(3).as_number(), Some(&JsonNumber::Unsigned(3)));
}

#[test]
fn reads_unsigned_decimal_numerals() {
    assert_eq!(parse_unsigned("0"), Some(0));
    assert_eq!(parse_unsigned("514425600000"), Some(514425600000));
    assert_eq!(parse_unsigned("007"), Some(7));
    assert_eq!(parse_unsigned("+5"), Some(5));
    assert_eq!(parse_unsigned("18446744073709551615"), Some(u64::MAX));
    assert_eq!(parse_unsigned("18446744073709551616"), None);
    assert_eq!(parse_unsigned("99999999999999999999999"), None);
    assert_eq!(parse_unsigned(""), None);
    assert_eq!(parse_unsigned("+"), None);
    assert_eq!(parse_unsigned("-5"), None);
    assert_eq!(parse_unsigned("++5"), None);
    assert_eq!(parse_unsigned("5 "), None);
    assert_eq!(parse_unsigned(" 5"), None);
    assert_eq!(parse_unsigned("1.0"), None);
    assert_eq!(parse_unsigned("12a"), None);
    assert_eq!(parse_unsigned("١٢"), None);
    for text in ["0", "+5", "007", "18446744073709551615", "18446744073709551616", "", "+", "-5", "1e3"] {
        assert_eq!(parse_unsigned(text), text.parse::<u64>().ok());
    }
}

#[test]
fn joins_texts() {
    assert_eq!(join("ab", "cd"), "abcd");
    assert_eq!(join("", "é"), "é");
}

#[test]
fn a_number_can_be_made_twice() {
    for number in [
        JsonNumber::Unsigned(4),
        JsonNumber::Negative(-4),
        JsonNumber::Real("4.5".to_string()),
    ] {
        assert_eq!(number.duplicate(), number);
    }
}
