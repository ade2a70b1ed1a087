use azure_mgmt::json::parse_document;
use azure_mgmt::json::Json;

fn object() -> Json {
    Json::Object(vec![
        ("a".to_owned(), Json::Integer(1)),
        ("b".to_owned(), Json::Text("two".to_owned())),
        ("a".to_owned(), Json::Integer(3)),
        ("".to_owned(), Json::Null),
    ])
}

#[test]
fn member_is_the_first_of_its_name() {
    let o = object();
    assert_eq!(o.member("a").unwrap().integer(), Some(1));
    assert_eq!(o.member("b").unwrap().text(), Some("two"));
    assert!(matches!(o.member(""), Some(Json::Null)));
    assert!(o.member("c").is_none());
    assert!(o.member("A").is_none());
}

#[test]
fn only_objects_have_members() {
    assert!(Json::Array(vec![Json::Integer(1)]).member("0").is_none());
    assert!(Json::Text("a".to_owned()).member("a").is_none());
    assert!(Json::Null.member("a").is_none());
}

#[test]
fn element_is_by_position_in_an_array() {
    let a = Json::Array(vec![Json::Bool(true), Json::Number]);
    assert!(matches!(a.element(0), Some(Json::Bool(true))));
    assert!(matches!(a.element(1), Some(Json::Number)));
    assert!(a.element(2).is_none());
    assert!(object().element(0).is_none());
    assert!(Json::Null.element(0).is_none());
}

#[test]
fn text_and_integer_are_only_of_their_kinds() {
    assert_eq!(Json::Text("x".to_owned()).text(), Some("x"));
    assert_eq!(Json::Integer(i64::MIN).integer(), Some(i64::MIN));
    assert_eq!(Json::Integer(5).text(), None);
    assert_eq!(Json::Text("5".to_owned()).integer(), None);
    assert_eq!(Json::Number.integer(), None);
    assert_eq!(Json::Bool(true).integer(), None);
    assert_eq!(Json::Null.text(), None);
}

#[test]
fn documents_are_parsed_into_trees() {
    let tree = parse_document(
        "{\"n\":null,\"t\":true,\"i\":-7,\"f\":1.5,\"big\":18446744073709551615,\"s\":\"a\\u00e9\",\"l\":[1,[2]],\"o\":{\"k\":\"v\"}}",
    )
    .unwrap();
    assert!(matches!(tree.member("n"), Some(Json::Null)));
    assert!(matches!(tree.member("t"), Some(Json::Bool(true))));
    assert_eq!(tree.member("i").unwrap().integer(), Some(-7));
    assert!(matches!(tree.member("f"), Some(Json::Number)));
    assert!(matches!(tree.member("big"), Some(Json::Number)));
    assert_eq!(tree.member("s").unwrap().text(), Some("a\u{e9}"));
    let list = tree.member("l").unwrap();
    assert_eq!(list.element(0).unwrap().integer(), Some(1));
    assert_eq!(list.element(1).unwrap().element(0).unwrap().integer(), Some(2));
    assert_eq!(tree.member("o").unwrap().member("k").unwrap().text(), Some("v"));
}

#[test]
fn a_repeated_name_keeps_one_member() {
    let tree = parse_document("{\"a\":1,\"a\":2}").unwrap();
    match &tree {
        Json::Object(members) => assert_eq!(members.len(), 1),
        other => panic!("unexpected: {:?}", other),
    }
    assert_eq!(tree.member("a").unwrap().integer(), Some(2));
}

#[test]
fn what_is_no_document_is_refused() {
    assert!(parse_document("").is_err());
    assert!(parse_document("{").is_err());
    assert!(parse_document("{\"a\":1} x").is_err());
    assert!(parse_document("'a'").is_err());
    assert!(matches!(parse_document(" 5 "), Ok(Json::Integer(5))));
}
