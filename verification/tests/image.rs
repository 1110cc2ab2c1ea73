use base64::Engine;
use companion::image::extract_base64_image;
use companion::json::JsonValue;

fn text(value: &str) -> JsonValue {
    JsonValue::Text(value.to_string())
}

fn object(members: Vec<(&str, JsonValue)>) -> JsonValue {
    JsonValue::Object(members.into_iter().map(|(key, value)| (key.to_string(), value)).collect())
}

fn payload(len: usize) -> String {
    let bytes: Vec<u8> = (0..len).map(|i| (i * 7 % 251) as u8).collect();
    base64::engine::general_purpose::STANDARD.encode(bytes)
}

fn found(data: &str, mime: Option<&str>) -> Option<(String, Option<String>)> {
    Some((data.to_string(), mime.map(|mime| mime.to_string())))
}

#[test]
fn a_payload_three_levels_deep_under_an_array_is_found() {
    let image = payload(48);
    let document = object(vec![(
        "candidates",
        JsonValue::Array(vec![object(vec![
            ("finishReason", text("STOP")),
            (
                "content",
                object(vec![(
                    "parts",
                    JsonValue::Array(vec![
                        object(vec![("text", text("here is your image"))]),
                        object(vec![("data", text("c2hvcnQ=")), ("note", text("too short to be an image"))]),
                        object(vec![("inlineData", object(vec![("mimeType", text("image/jpeg")), ("data", text(&image))]))]),
                    ]),
                )]),
            ),
        ])]),
    )]);
    assert_eq!(extract_base64_image(&document), found(&image, Some("image/jpeg")));
}

#[test]
fn scalars_hold_no_image() {
    let image = payload(48);
    assert_eq!(extract_base64_image(&JsonValue::Null), None);
    assert_eq!(extract_base64_image(&JsonValue::Boolean(true)), None);
    assert_eq!(extract_base64_image(&JsonValue::Number("12".to_string())), None);
    assert_eq!(extract_base64_image(&text(&image)), None);
    assert_eq!(extract_base64_image(&JsonValue::Array(vec![text(&image)])), None);
    assert_eq!(extract_base64_image(&JsonValue::Array(Vec::new())), None);
    assert_eq!(extract_base64_image(&object(vec![])), None);
}

#[test]
fn a_payload_must_be_longer_than_32_bytes() {
    let exactly = payload(24);
    assert_eq!(exactly.len(), 32);
    assert_eq!(extract_base64_image(&object(vec![("data", text(&exactly))])), None);
    let longer = payload(25);
    assert_eq!(longer.len(), 36);
    assert_eq!(extract_base64_image(&object(vec![("data", text(&longer))])), found(&longer, None));
}

#[test]
fn a_payload_must_decode() {
    let mut broken = payload(48);
    broken.replace_range(10..11, "*");
    assert_eq!(extract_base64_image(&object(vec![("data", text(&broken))])), None);
    let unpadded = payload(25).trim_end_matches('=').to_string();
    assert_eq!(extract_base64_image(&object(vec![("data", text(&unpadded))])), None);
    let url_safe = "-_".repeat(20);
    assert_eq!(extract_base64_image(&object(vec![("data", text(&url_safe))])), None);
    let inner_space = format!("{} {}", payload(24), payload(24));
    assert_eq!(extract_base64_image(&object(vec![("data", text(&inner_space))])), None);
}

#[test]
fn surrounding_whitespace_is_trimmed_away() {
    let image = payload(40);
    let padded = format!("\n  {}\t\r\n", image);
    assert_eq!(
        extract_base64_image(&object(vec![("b64_json", text(&padded)), ("mimeType", text("image/webp"))])),
        found(&image, Some("image/webp"))
    );
}

#[test]
fn the_three_keys_are_tried_in_order() {
    let first = payload(30);
    let second = payload(33);
    let third = payload(36);
    let all = object(vec![
        ("b64_json", text(&third)),
        ("bytesBase64", text(&second)),
        ("data", text(&first)),
    ]);
    assert_eq!(extract_base64_image(&all), found(&first, None));
    let without_data = object(vec![("b64_json", text(&third)), ("bytesBase64", text(&second)), ("data", text("tiny"))]);
    assert_eq!(extract_base64_image(&without_data), found(&second, None));
    let only_last = object(vec![("b64_json", text(&third)), ("data", JsonValue::Number("1".to_string()))]);
    assert_eq!(extract_base64_image(&only_last), found(&third, None));
}

#[test]
fn inline_data_comes_before_the_objects_own_payload() {
    let inline = payload(30);
    let own = payload(33);
    let document = object(vec![
        ("data", text(&own)),
        ("mimeType", text("image/png")),
        ("inlineData", object(vec![("data", text(&inline))])),
    ]);
    assert_eq!(extract_base64_image(&document), found(&inline, None));
}

#[test]
fn inline_data_without_an_image_falls_through() {
    let own = payload(33);
    let document = object(vec![
        ("inlineData", object(vec![("data", text("short"))])),
        ("data", text(&own)),
        ("mimeType", text("image/gif")),
    ]);
    assert_eq!(extract_base64_image(&document), found(&own, Some("image/gif")));
}

#[test]
fn the_content_type_must_be_a_string_beside_the_payload() {
    let image = payload(30);
    let numeric = object(vec![("data", text(&image)), ("mimeType", JsonValue::Number("3".to_string()))]);
    assert_eq!(extract_base64_image(&numeric), found(&image, None));
    let outside = object(vec![("mimeType", text("image/png")), ("image", object(vec![("data", text(&image))]))]);
    assert_eq!(extract_base64_image(&outside), found(&image, None));
}

#[test]
fn members_are_visited_in_order_and_depth_first() {
    let deep = payload(30);
    let shallow = payload(33);
    let document = object(vec![
        ("a", JsonValue::Array(vec![JsonValue::Null, object(vec![("x", object(vec![("data", text(&deep))]))])])),
        ("b", object(vec![("data", text(&shallow))])),
    ]);
    assert_eq!(extract_base64_image(&document), found(&deep, None));
    let array = JsonValue::Array(vec![
        JsonValue::Array(vec![]),
        object(vec![("data", text(&shallow))]),
        object(vec![("data", text(&deep))]),
    ]);
    assert_eq!(extract_base64_image(&array), found(&shallow, None));
}

#[test]
fn other_keys_do_not_make_a_payload() {
    let image = payload(30);
    assert_eq!(extract_base64_image(&object(vec![("image", text(&image))])), None);
    assert_eq!(extract_base64_image(&object(vec![("Data", text(&image))])), None);
    assert_eq!(extract_base64_image(&object(vec![("inlinedata", object(vec![("payload", text(&image))]))])), None);
}

#[test]
fn no_nesting_is_too_deep() {
    let image = payload(48);
    let mut document = object(vec![("data", text(&image)), ("mimeType", text("image/png"))]);
    for level in 0..200_000 {
        document = if level % 2 == 0 {
            JsonValue::Array(vec![JsonValue::Null, document])
        } else {
            object(vec![("note", text("deeper")), ("next", document)])
        };
    }
    assert_eq!(extract_base64_image(&document), found(&image, Some("image/png")));
    // Freeing the document would recurse once per level.
    std::mem::forget(document);
}

#[test]
fn a_deep_document_without_image_holds_none() {
    let mut document = JsonValue::Array(Vec::new());
    for _ in 0..200_000 {
        document = JsonValue::Array(vec![document]);
    }
    assert_eq!(extract_base64_image(&document), None);
    std::mem::forget(document);
}

#[test]
fn inline_data_without_an_image_is_looked_into_again_with_the_members() {
    let image = payload(40);
    let document = object(vec![
        ("inlineData", JsonValue::Array(vec![text("short"), JsonValue::Null])),
        ("first", JsonValue::Array(vec![object(vec![("b64_json", text(&image))])])),
        ("second", object(vec![("data", text(&payload(44)))])),
    ]);
    assert_eq!(extract_base64_image(&document), found(&image, None));
}
