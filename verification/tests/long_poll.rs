use companion::asset_store::{BackgroundAsset, BackgroundState};
use companion::http::StatusCode;
use companion::long_poll::{
    background_latest, build_response, poll_timed_out, wait_ended, AfterWait, AssetResponse,
    BackgroundLatestQuery, PollStep, LONG_POLL_TIMEOUT_SECS,
};

fn headers(version: &str, content_type: Option<&str>) -> Vec<(String, String)> {
    let mut headers = vec![
        ("x-background-version".to_string(), version.to_string()),
        ("access-control-allow-origin".to_string(), "*".to_string()),
        ("access-control-expose-headers".to_string(), "x-background-version,content-type".to_string()),
    ];
    if let Some(content_type) = content_type {
        headers.push(("content-type".to_string(), content_type.to_string()));
    }
    headers
}

fn no_content(version: &str) -> PollStep {
    PollStep::Respond(Ok(AssetResponse {
        status: StatusCode::NoContent,
        headers: headers(version, None),
        body: Vec::new(),
    }))
}

fn query(since: Option<u64>, wait: Option<bool>) -> BackgroundLatestQuery {
    BackgroundLatestQuery { since, wait }
}

fn written(times: u64) -> BackgroundState {
    let mut store = BackgroundState::new();
    for k in 1..=times {
        store.replace(vec![k as u8], "image/png".to_string());
    }
    store
}

#[test]
fn the_wait_ceiling_is_twenty_five_seconds() {
    assert_eq!(LONG_POLL_TIMEOUT_SECS, 25);
}

#[test]
fn status_codes_have_their_numbers() {
    assert_eq!(StatusCode::Success.code(), 200);
    assert_eq!(StatusCode::NoContent.code(), 204);
    assert_eq!(StatusCode::BadRequest.code(), 400);
    assert_eq!(StatusCode::InternalServerError.code(), 500);
}

#[test]
fn a_response_without_asset_has_no_body_and_no_content_type() {
    let built = build_response(None, 12345, StatusCode::NoContent);
    assert_eq!(
        built,
        Ok(AssetResponse { status: StatusCode::NoContent, headers: headers("12345", None), body: Vec::new() })
    );
}

#[test]
fn a_response_with_asset_carries_bytes_and_content_type() {
    let asset = BackgroundAsset { bytes: vec![1, 2, 3], mime: "image/png".to_string() };
    let built = build_response(Some(asset), 7, StatusCode::Success);
    assert_eq!(
        built,
        Ok(AssetResponse {
            status: StatusCode::Success,
            headers: headers("7", Some("image/png")),
            body: vec![1, 2, 3],
        })
    );
}

#[test]
fn the_version_header_is_a_decimal_numeral() {
    let zero = build_response(None, 0, StatusCode::NoContent).expect("built");
    assert_eq!(zero.headers[0], ("x-background-version".to_string(), "0".to_string()));
    let largest = build_response(None, u64::MAX, StatusCode::NoContent).expect("built");
    assert_eq!(largest.headers[0].1, "18446744073709551615");
    let round = build_response(None, 1000, StatusCode::NoContent).expect("built");
    assert_eq!(round.headers[0].1, "1000");
}

#[test]
fn a_content_type_that_is_no_header_value_is_an_internal_error() {
    for mime in ["image/png\n", "image\r/png", "\u{0}", "a\u{7f}b", "\u{1f}"] {
        let asset = BackgroundAsset { bytes: vec![1], mime: mime.to_string() };
        assert_eq!(build_response(Some(asset), 1, StatusCode::Success), Err(StatusCode::InternalServerError));
    }
}

#[test]
fn tabs_spaces_and_text_beyond_ascii_are_header_values() {
    for mime in ["image/png; charset=utf-8", "a\tb", "", "bild/größe", "~ "] {
        let asset = BackgroundAsset { bytes: vec![1], mime: mime.to_string() };
        let built = build_response(Some(asset), 1, StatusCode::Success).expect("built");
        assert_eq!(built.headers[3], ("content-type".to_string(), mime.to_string()));
    }
}

#[test]
fn a_store_that_never_produced_gives_no_content_at_once() {
    let store = BackgroundState::new();
    assert_eq!(background_latest(&store, &query(None, None)), no_content("0"));
    assert_eq!(background_latest(&store, &query(Some(0), Some(false))), no_content("0"));
    assert_eq!(background_latest(&store, &query(Some(5), None)), no_content("0"));
}

#[test]
fn a_store_that_never_produced_makes_a_waiting_client_wait() {
    let store = BackgroundState::new();
    assert_eq!(background_latest(&store, &query(None, Some(true))), PollStep::Wait { version: 0 });
    assert_eq!(background_latest(&store, &query(Some(9), Some(true))), PollStep::Wait { version: 0 });
}

#[test]
fn a_client_with_another_version_gets_the_payload() {
    let store = written(3);
    let expected = PollStep::Respond(Ok(AssetResponse {
        status: StatusCode::Success,
        headers: headers("3", Some("image/png")),
        body: vec![3],
    }));
    assert_eq!(background_latest(&store, &query(None, None)), expected);
    assert_eq!(background_latest(&store, &query(Some(2), Some(false))), expected);
    assert_eq!(background_latest(&store, &query(Some(2), Some(true))), expected);
    assert_eq!(background_latest(&store, &query(Some(4), Some(true))), expected);
}

#[test]
fn a_client_with_the_current_version_gets_no_content_unless_it_waits() {
    let store = written(3);
    assert_eq!(background_latest(&store, &query(Some(3), None)), no_content("3"));
    assert_eq!(background_latest(&store, &query(Some(3), Some(false))), no_content("3"));
    assert_eq!(background_latest(&store, &query(Some(3), Some(true))), PollStep::Wait { version: 3 });
}

#[test]
fn a_waiter_is_answered_after_a_replacement() {
    let mut store = written(1);
    let params = query(Some(1), Some(true));
    assert_eq!(background_latest(&store, &params), PollStep::Wait { version: 1 });
    store.replace(vec![42, 43], "image/jpeg".to_string());
    assert_eq!(
        background_latest(&store, &params),
        PollStep::Respond(Ok(AssetResponse {
            status: StatusCode::Success,
            headers: headers("2", Some("image/jpeg")),
            body: vec![42, 43],
        }))
    );
}

#[test]
fn a_wait_that_ran_out_gives_no_content_and_the_version_seen() {
    assert_eq!(PollStep::Respond(poll_timed_out(3)), no_content("3"));
    assert_eq!(PollStep::Respond(poll_timed_out(0)), no_content("0"));
}

#[test]
fn a_payload_with_a_bad_content_type_is_an_internal_error() {
    let mut store = BackgroundState::new();
    store.replace(vec![1], "bad\nmime".to_string());
    assert_eq!(
        background_latest(&store, &query(None, None)),
        PollStep::Respond(Err(StatusCode::InternalServerError))
    );
    assert_eq!(background_latest(&store, &query(Some(1), None)), no_content("1"));
}

#[test]
fn a_query_that_says_nothing_asks_for_version_zero_without_wait() {
    assert_eq!(BackgroundLatestQuery::default(), query(None, None));
}

#[test]
fn a_wakeup_means_looking_again() {
    assert_eq!(wait_ended(true, 3), AfterWait::LookAgain);
    assert_eq!(wait_ended(true, 0), AfterWait::LookAgain);
}

#[test]
fn the_ceiling_means_no_content_with_the_version_seen() {
    assert_eq!(wait_ended(false, 3), AfterWait::Respond(poll_timed_out(3)));
    assert_eq!(PollStep::Respond(poll_timed_out(3)), no_content("3"));
    match wait_ended(false, 0) {
        AfterWait::Respond(Ok(response)) => {
            assert_eq!(response.status, StatusCode::NoContent);
            assert_eq!(response.headers[0].1, "0");
            assert!(response.body.is_empty());
        }
        other => panic!("expected a response, got {:?}", other),
    }
}
