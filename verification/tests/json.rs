use clinbox::error::ReplyError;
use clinbox::json::{find_member, Json};

#[test]
fn parse_reads_scalars() {
    assert_eq!(Json::parse("null"), Ok(Json::Null));
    assert_eq!(Json::parse("true"), Ok(Json::Bool(true)));
    assert_eq!(Json::parse("false"), Ok(Json::Bool(false)));
    assert_eq!(Json::parse("\"a\\nb\""), Ok(Json::Text(String::from("a\nb"))));
    assert_eq!(Json::parse("\"\""), Ok(Json::Text(String::new())));
}

#[test]
fn parse_tells_the_kinds_of_number_apart() {
    assert_eq!(Json::parse("0"), Ok(Json::Unsigned(0)));
    assert_eq!(Json::parse("18446744073709551615"), Ok(Json::Unsigned(u64::MAX)));
    assert_eq!(Json::parse("-1"), Ok(Json::Negative(-1)));
    assert_eq!(Json::parse("-9223372036854775808"), Ok(Json::Negative(i64::MIN)));
    assert_eq!(Json::parse("1.5"), Ok(Json::Real(String::from("1.5"))));
    assert_eq!(Json::parse("-0.25"), Ok(Json::Real(String::from("-0.25"))));
}

#[test]
fn parse_reads_nested_documents() {
    let parsed = Json::parse("{\"b\":[1,{\"c\":null}],\"a\":\"x\"}").unwrap();
    assert_eq!(parsed.get("a"), Some(&Json::Text(String::from("x"))));
    assert_eq!(
        parsed.get("b"),
        Some(&Json::Array(vec![
            Json::Unsigned(1),
            Json::Object(vec![(String::from("c"), Json::Null)]),
        ]))
    );
    assert_eq!(parsed.get("c"), None);
}

#[test]
fn parse_rejects_what_is_not_one_document() {
    assert_eq!(Json::parse(""), Err(ReplyError::Syntax));
    assert_eq!(Json::parse("{"), Err(ReplyError::Syntax));
    assert_eq!(Json::parse("{} x"), Err(ReplyError::Syntax));
    assert_eq!(Json::parse("nul"), Err(ReplyError::Syntax));
    assert_eq!(Json::parse("{'a':1}"), Err(ReplyError::Syntax));
}

#[test]
fn parse_keeps_the_last_of_two_equal_keys() {
    let parsed = Json::parse("{\"a\":1,\"a\":2}").unwrap();
    assert_eq!(parsed, Json::Object(vec![(String::from("a"), Json::Unsigned(2))]));
}

#[test]
fn get_finds_the_first_member_with_the_key() {
    let object = Json::Object(vec![
        (String::from("a"), Json::Unsigned(1)),
        (String::from("b"), Json::Text(String::from("two"))),
        (String::from("a"), Json::Unsigned(3)),
    ]);
    assert_eq!(object.get("a"), Some(&Json::Unsigned(1)));
    assert_eq!(object.get("b"), Some(&Json::Text(String::from("two"))));
    assert_eq!(object.get("A"), None);
    assert_eq!(object.get(""), None);
    assert_eq!(object.get_unsigned("a"), Some(1));
    assert_eq!(object.get_unsigned("b"), None);
    assert_eq!(object.get_text("b"), Some(&String::from("two")));
    assert_eq!(object.get_text("a"), None);
}

#[test]
fn get_finds_nothing_outside_objects() {
    assert_eq!(Json::Null.get("a"), None);
    assert_eq!(Json::Array(vec![Json::Unsigned(1)]).get("0"), None);
    assert_eq!(Json::Text(String::from("a")).get_text("a"), None);
    assert_eq!(Json::Unsigned(1).get_unsigned("a"), None);
    assert_eq!(find_member(&Vec::new(), "a"), None);
}

#[test]
fn get_unsigned_leaves_other_numbers_out() {
    let object = Json::parse("{\"n\":-3,\"f\":2.0,\"u\":4}").unwrap();
    assert_eq!(object.get_unsigned("n"), None);
    assert_eq!(object.get_unsigned("f"), None);
    assert_eq!(object.get_unsigned("u"), Some(4));
}
