use companion::log_watcher::{
    LogPatternWatcher, WatchProgress, WatchStep, TAIL_CHARS, WATCH_ATTEMPTS, WATCH_INTERVAL_MS,
};

const TUNNEL_URL_PATTERN: &str = r"(https://[a-zA-Z0-9-]+\.trycloudflare\.com)";

fn watcher() -> LogPatternWatcher {
    LogPatternWatcher::new(TUNNEL_URL_PATTERN).expect("the pattern compiles")
}

#[test]
fn url_is_found_on_the_first_read_that_holds_it() {
    let mut watcher = watcher();
    let first = watcher.observe("");
    assert!(matches!(
        first,
        WatchStep::Again { delay_ms: 500, progress: Some(WatchProgress { attempt: 1, bytes: 0 }) }
    ));
    let second = watcher.observe("2024-01-01 INF Starting tunnel\n");
    assert!(matches!(second, WatchStep::Again { progress: Some(WatchProgress { attempt: 2, bytes: 31 }), .. }));
    let output = "2024-01-01 INF Starting tunnel\nINF |  https://abc123.trycloudflare.com  |\nINF more\n";
    match watcher.observe(output) {
        WatchStep::Found(url) => assert_eq!(url, "https://abc123.trycloudflare.com"),
        other => panic!("expected the URL, got {:?}", other),
    }
}

#[test]
fn the_leftmost_url_wins() {
    let mut watcher = watcher();
    let output = "see https://first-one.trycloudflare.com and https://second.trycloudflare.com";
    match watcher.observe(output) {
        WatchStep::Found(url) => assert_eq!(url, "https://first-one.trycloudflare.com"),
        other => panic!("expected the URL, got {:?}", other),
    }
}

#[test]
fn other_hosts_do_not_match() {
    let mut watcher = watcher();
    let step = watcher.observe("https://abc123.example.com http://abc.trycloudflare.com https://.trycloudflare.com");
    assert!(matches!(step, WatchStep::Again { .. }));
}

#[test]
fn progress_is_noted_only_when_the_size_changes() {
    let mut watcher = watcher();
    assert!(matches!(
        watcher.observe("abc"),
        WatchStep::Again { progress: Some(WatchProgress { attempt: 1, bytes: 3 }), .. }
    ));
    assert!(matches!(watcher.observe("abc"), WatchStep::Again { progress: None, delay_ms } if delay_ms == WATCH_INTERVAL_MS));
    assert!(matches!(watcher.observe("xyz"), WatchStep::Again { progress: None, .. }));
    assert!(matches!(
        watcher.observe("abcd"),
        WatchStep::Again { progress: Some(WatchProgress { attempt: 4, bytes: 4 }), .. }
    ));
    assert!(matches!(watcher.observe("abcd"), WatchStep::Again { progress: None, .. }));
}

#[test]
fn the_first_read_is_always_noted() {
    let mut watcher = watcher();
    assert!(matches!(
        watcher.observe(""),
        WatchStep::Again { progress: Some(WatchProgress { attempt: 1, bytes: 0 }), .. }
    ));
    assert!(matches!(watcher.observe(""), WatchStep::Again { progress: None, .. }));
}

#[test]
fn bytes_are_counted_not_characters() {
    let mut watcher = watcher();
    assert!(matches!(
        watcher.observe("é…"),
        WatchStep::Again { progress: Some(WatchProgress { attempt: 1, bytes: 5 }), .. }
    ));
}

#[test]
fn sixty_reads_are_searched_and_the_next_times_out() {
    let mut watcher = watcher();
    for _ in 0..WATCH_ATTEMPTS {
        assert!(!watcher.exhausted());
        assert!(matches!(watcher.observe("nothing yet"), WatchStep::Again { .. }));
    }
    assert!(watcher.exhausted());
    match watcher.observe("still nothing") {
        WatchStep::TimedOut { tail } => assert_eq!(tail, "still nothing"),
        other => panic!("expected a timeout, got {:?}", other),
    }
}

#[test]
fn a_match_on_the_sixtieth_read_is_still_found() {
    let mut watcher = watcher();
    for _ in 0..WATCH_ATTEMPTS - 1 {
        assert!(matches!(watcher.observe("nothing yet"), WatchStep::Again { .. }));
    }
    match watcher.observe("https://late.trycloudflare.com") {
        WatchStep::Found(url) => assert_eq!(url, "https://late.trycloudflare.com"),
        other => panic!("expected the URL, got {:?}", other),
    }
}

#[test]
fn a_timeout_does_not_search_the_output() {
    let mut watcher = watcher();
    for _ in 0..WATCH_ATTEMPTS {
        watcher.observe("");
    }
    assert!(matches!(
        watcher.observe("https://too-late.trycloudflare.com"),
        WatchStep::TimedOut { .. }
    ));
}

#[test]
fn a_timeout_carries_the_last_512_characters() {
    let mut watcher = watcher();
    for _ in 0..WATCH_ATTEMPTS {
        watcher.observe("");
    }
    let mut output = String::new();
    for i in 0..700 {
        output.push(if i < 188 { 'a' } else { 'é' });
    }
    match watcher.observe(&output) {
        WatchStep::TimedOut { tail } => {
            assert_eq!(tail.chars().count(), TAIL_CHARS);
            assert!(tail.chars().all(|c| c == 'é'));
        }
        other => panic!("expected a timeout, got {:?}", other),
    }
}

#[test]
fn record_takes_the_search_result_as_given() {
    let mut watcher = watcher();
    match watcher.record("no url here", Some("given".to_string())) {
        WatchStep::Found(text) => assert_eq!(text, "given"),
        other => panic!("expected the given text, got {:?}", other),
    }
    assert!(matches!(
        watcher.record("https://abc123.trycloudflare.com", None),
        WatchStep::Again { progress: Some(WatchProgress { attempt: 2, bytes: 32 }), .. }
    ));
}

#[test]
fn an_invalid_pattern_is_refused() {
    let made = LogPatternWatcher::new("(unclosed");
    assert!(made.is_err());
    assert!(!made.err().unwrap().detail.is_empty());
}

#[test]
fn a_pattern_without_a_group_never_finds() {
    let mut watcher = LogPatternWatcher::new("abc").expect("the pattern compiles");
    assert!(matches!(watcher.observe("abc"), WatchStep::Again { .. }));
}

#[test]
fn the_first_group_of_any_pattern_is_what_is_found() {
    let mut watcher = LogPatternWatcher::new(r"id=(\d+)").expect("the pattern compiles");
    assert!(!watcher.exhausted());
    assert!(matches!(watcher.observe("no id yet"), WatchStep::Again { .. }));
    match watcher.observe("request id=4711 done, id=12") {
        WatchStep::Found(id) => assert_eq!(id, "4711"),
        other => panic!("expected the id, got {:?}", other),
    }
}
