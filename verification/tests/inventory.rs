use companion::failure::FailureKind;
use companion::inventory::{
    contains_model, decode_entries, interpret_listing, missing_models, DmrModelEntry, InventoryError,
    ListingReply,
};
use companion::json::JsonValue;

fn entry(tags: &[&str]) -> DmrModelEntry {
    DmrModelEntry { tags: Some(tags.iter().map(|tag| tag.to_string()).collect()) }
}

fn ids(names: &[&str]) -> Vec<String> {
    names.iter().map(|name| name.to_string()).collect()
}

#[test]
fn missing_reports_the_required_model_that_is_not_listed() {
    let models = vec![entry(&["m1"])];
    let required = ids(&["m1", "m2"]);
    assert_eq!(missing_models(&models, &required), ids(&["m2"]));
}

#[test]
fn missing_is_empty_once_every_required_model_is_listed() {
    let models = vec![entry(&["m1"]), entry(&["m2"])];
    let required = ids(&["m1", "m2"]);
    assert_eq!(missing_models(&models, &required), Vec::<String>::new());
}

#[test]
fn any_tag_of_an_entry_counts() {
    let models = vec![entry(&["primary", "alias"])];
    assert!(contains_model(&models, "alias"));
    assert!(contains_model(&models, "primary"));
    assert!(!contains_model(&models, "ali"));
    assert!(!contains_model(&models, "alias "));
}

#[test]
fn an_entry_without_tags_lists_nothing() {
    let models = vec![DmrModelEntry { tags: None }, DmrModelEntry { tags: Some(Vec::new()) }];
    assert!(!contains_model(&models, ""));
    assert!(!contains_model(&models, "m1"));
    assert_eq!(missing_models(&models, &ids(&["m1"])), ids(&["m1"]));
}

#[test]
fn missing_keeps_required_order_and_repeats() {
    let models = vec![entry(&["b"])];
    let required = ids(&["c", "b", "a", "c"]);
    assert_eq!(missing_models(&models, &required), ids(&["c", "a", "c"]));
}

#[test]
fn missing_twice_gives_the_same_result() {
    let models = vec![entry(&["x"]), entry(&["y", "z"])];
    let required = ids(&["z", "q", "x", "r"]);
    let first = missing_models(&models, &required);
    let second = missing_models(&models, &required);
    assert_eq!(first, second);
    assert_eq!(first, ids(&["q", "r"]));
}

#[test]
fn an_empty_inventory_leaves_everything_pending() {
    let models: Vec<DmrModelEntry> = Vec::new();
    let required = ids(&["m1", "m2"]);
    assert_eq!(missing_models(&models, &required), required);
}

fn text(value: &str) -> JsonValue {
    JsonValue::Text(value.to_string())
}

fn object(members: Vec<(&str, JsonValue)>) -> JsonValue {
    JsonValue::Object(members.into_iter().map(|(key, value)| (key.to_string(), value)).collect())
}

#[test]
fn entries_are_read_from_an_array_of_objects() {
    let document = JsonValue::Array(vec![
        object(vec![("id", text("sha256:1")), ("tags", JsonValue::Array(vec![text("m1"), text("m1:latest")]))]),
        object(vec![("tags", JsonValue::Null)]),
        object(vec![("created", JsonValue::Number("17".to_string()))]),
        object(vec![("tags", JsonValue::Array(Vec::new()))]),
    ]);
    let entries = decode_entries(&document).expect("the document lists entries");
    assert_eq!(
        entries,
        vec![
            entry(&["m1", "m1:latest"]),
            DmrModelEntry { tags: None },
            DmrModelEntry { tags: None },
            DmrModelEntry { tags: Some(Vec::new()) },
        ]
    );
}

#[test]
fn a_document_that_is_no_list_of_entries_is_refused() {
    assert_eq!(decode_entries(&object(vec![("tags", JsonValue::Array(Vec::new()))])), None);
    assert_eq!(decode_entries(&JsonValue::Null), None);
    assert_eq!(decode_entries(&JsonValue::Array(vec![text("m1")])), None);
    assert_eq!(decode_entries(&JsonValue::Array(vec![object(vec![("tags", text("m1"))])])), None);
    let mixed = JsonValue::Array(vec![object(vec![(
        "tags",
        JsonValue::Array(vec![text("m1"), JsonValue::Number("2".to_string())]),
    )])]);
    assert_eq!(decode_entries(&mixed), None);
    let late = JsonValue::Array(vec![object(vec![]), JsonValue::Boolean(true)]);
    assert_eq!(decode_entries(&late), None);
}

#[test]
fn an_empty_array_lists_nothing() {
    assert_eq!(decode_entries(&JsonValue::Array(Vec::new())), Some(Vec::new()));
}

#[test]
fn the_first_tags_member_decides() {
    let document = JsonValue::Array(vec![object(vec![
        ("tags", JsonValue::Array(vec![text("first")])),
        ("tags", JsonValue::Array(vec![text("second")])),
    ])]);
    assert_eq!(decode_entries(&document), Some(vec![entry(&["first"])]));
}

#[test]
fn a_failed_request_is_unreachable() {
    let listing = interpret_listing(ListingReply::RequestFailed { detail: "connection refused".to_string() });
    assert_eq!(listing, Err(InventoryError::Unreachable { detail: "connection refused".to_string() }));
    assert_eq!(listing.unwrap_err().kind(), FailureKind::Transient);
}

#[test]
fn a_status_outside_the_success_class_is_rejected_with_its_body() {
    let listing = interpret_listing(ListingReply::Received {
        status: 503,
        body: Some("warming up".to_string()),
        document: Err("expected value".to_string()),
    });
    assert_eq!(listing, Err(InventoryError::Rejected { status: 503, body: "warming up".to_string() }));
    assert_eq!(listing.unwrap_err().kind(), FailureKind::RemoteRejected);
}

#[test]
fn a_rejected_reply_without_a_readable_body_says_so() {
    let listing = interpret_listing(ListingReply::Received {
        status: 199,
        body: None,
        document: Ok(JsonValue::Array(Vec::new())),
    });
    assert_eq!(
        listing,
        Err(InventoryError::Rejected { status: 199, body: "<unable to read response body>".to_string() })
    );
    let redirected = interpret_listing(ListingReply::Received {
        status: 300,
        body: Some(String::new()),
        document: Ok(JsonValue::Array(Vec::new())),
    });
    assert_eq!(redirected, Err(InventoryError::Rejected { status: 300, body: String::new() }));
}

#[test]
fn a_body_that_does_not_parse_is_malformed() {
    let listing = interpret_listing(ListingReply::Received {
        status: 200,
        body: Some("<html>".to_string()),
        document: Err("expected value at line 1 column 1".to_string()),
    });
    assert_eq!(
        listing,
        Err(InventoryError::Malformed { detail: "expected value at line 1 column 1".to_string() })
    );
    assert_eq!(listing.unwrap_err().kind(), FailureKind::Fatal);
}

#[test]
fn a_body_of_another_shape_is_malformed() {
    let listing = interpret_listing(ListingReply::Received {
        status: 299,
        body: Some("{}".to_string()),
        document: Ok(object(vec![])),
    });
    assert_eq!(listing, Err(InventoryError::Malformed { detail: "expected a list of entries".to_string() }));
}

#[test]
fn a_successful_reply_lists_its_entries() {
    let listing = interpret_listing(ListingReply::Received {
        status: 200,
        body: None,
        document: Ok(JsonValue::Array(vec![object(vec![("tags", JsonValue::Array(vec![text("m1")]))])])),
    });
    assert_eq!(listing, Ok(vec![entry(&["m1"])]));
}
