use companion::json::{find, get, get_text, JsonValue};

fn members() -> Vec<(String, JsonValue)> {
    vec![
        ("a".to_string(), JsonValue::Number("1".to_string())),
        ("b".to_string(), JsonValue::Text("first".to_string())),
        ("".to_string(), JsonValue::Null),
        ("b".to_string(), JsonValue::Text("second".to_string())),
    ]
}

#[test]
fn the_first_member_with_the_key_is_found() {
    let members = members();
    assert_eq!(find(&members, "a"), Some(0));
    assert_eq!(find(&members, "b"), Some(1));
    assert_eq!(find(&members, ""), Some(2));
    assert_eq!(find(&members, "c"), None);
    assert_eq!(find(&members, "B"), None);
    assert_eq!(find(&Vec::new(), "a"), None);
}

#[test]
fn a_member_is_handed_out_by_reference() {
    let members = members();
    assert_eq!(get(&members, "b"), Some(&JsonValue::Text("first".to_string())));
    assert_eq!(get(&members, ""), Some(&JsonValue::Null));
    assert_eq!(get(&members, "missing"), None);
}

#[test]
fn only_a_string_member_has_text() {
    let members = members();
    assert_eq!(get_text(&members, "b"), Some(&"first".to_string()));
    assert_eq!(get_text(&members, "a"), None);
    assert_eq!(get_text(&members, ""), None);
    assert_eq!(get_text(&members, "zz"), None);
}

#[test]
fn builders_make_the_variants() {
    assert_eq!(JsonValue::text("x"), JsonValue::Text("x".to_string()));
    assert_eq!(JsonValue::array(vec![JsonValue::Null]), JsonValue::Array(vec![JsonValue::Null]));
    assert_eq!(
        JsonValue::object(vec![("k".to_string(), JsonValue::Boolean(false))]),
        JsonValue::Object(vec![("k".to_string(), JsonValue::Boolean(false))])
    );
    assert_eq!(
        JsonValue::object_of("k", JsonValue::text("v")),
        JsonValue::Object(vec![("k".to_string(), JsonValue::Text("v".to_string()))])
    );
}
