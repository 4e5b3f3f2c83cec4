use hyperliquid_sdk::json::{
    array_value, as_bool, as_items, as_text, as_unsigned, bool_value, find_member, member,
    present_member, text_value, unsigned_value,
};

fn value(text: &str) -> serde_json::Value {
    serde_json::from_str(text).unwrap()
}

#[test]
fn values_are_built_as_the_json_library_holds_them() {
    assert_eq!(text_value("100.50"), serde_json::Value::String("100.50".to_string()));
    assert_eq!(unsigned_value(12), value("12"));
    assert_eq!(unsigned_value(u64::MAX), value("18446744073709551615"));
    assert_eq!(bool_value(true), serde_json::Value::Bool(true));
    assert_eq!(bool_value(false), serde_json::Value::Bool(false));
    assert_eq!(array_value(vec![]), value("[]"));
    assert_eq!(
        array_value(vec![unsigned_value(1), text_value("x"), bool_value(false)]),
        value("[1,\"x\",false]")
    );
}

#[test]
fn values_are_read_by_kind() {
    assert_eq!(as_text(&value("\"abc\"")), Some("abc".to_string()));
    assert_eq!(as_text(&value("1")), None);
    assert_eq!(as_text(&value("null")), None);
    assert_eq!(as_unsigned(&value("5")), Some(5));
    assert_eq!(as_unsigned(&value("-5")), None);
    assert_eq!(as_unsigned(&value("5.5")), None);
    assert_eq!(as_unsigned(&value("\"5\"")), None);
    assert_eq!(as_bool(&value("true")), Some(true));
    assert_eq!(as_bool(&value("0")), None);
    assert_eq!(as_items(&value("[1,[2]]")), Some(vec![value("1"), value("[2]")]));
    assert_eq!(as_items(&value("{}")), None);
}

#[test]
fn members_are_found_by_name() {
    let doc = value("{\"a\":1,\"b\":null,\"c\":{\"a\":2}}");
    assert_eq!(member(&doc, "a"), Some(value("1")));
    assert_eq!(member(&doc, "b"), Some(value("null")));
    assert_eq!(member(&doc, "c"), Some(value("{\"a\":2}")));
    assert_eq!(member(&doc, "d"), None);
    assert_eq!(member(&doc, ""), None);
    assert_eq!(member(&value("[1]"), "a"), None);
    assert_eq!(present_member(&doc, "a"), Some(value("1")));
    assert_eq!(present_member(&doc, "b"), None);
    assert_eq!(present_member(&doc, "d"), None);
}

#[test]
fn the_first_member_of_a_name_is_found() {
    let members = vec![
        ("x".to_string(), value("1")),
        ("y".to_string(), value("2")),
        ("x".to_string(), value("3")),
    ];
    assert_eq!(find_member(&members, "x"), Some(0));
    assert_eq!(find_member(&members, "y"), Some(1));
    assert_eq!(find_member(&members, "z"), None);
    assert_eq!(find_member(&vec![], "x"), None);
}

#[test]
fn other_numbers_are_carried_through() {
    let doc = value("{\"n\":-12,\"f\":0.25}");
    assert_eq!(member(&doc, "n"), Some(value("-12")));
    assert_eq!(member(&doc, "f"), Some(value("0.25")));
    assert_eq!(as_items(&value("[-1,2.5]")), Some(vec![value("-1"), value("2.5")]));
}
