use companion::http::StatusCode;
use companion::session::{stop_agent, SecretSlot, SessionSlot, StopError, TunnelSession};

fn session(handle: u32, url: Option<&str>) -> TunnelSession<u32> {
    TunnelSession { handle, url: url.map(|url| url.to_string()) }
}

fn same(left: &Option<TunnelSession<u32>>, handle: u32, url: Option<&str>) -> bool {
    match left {
        Some(found) => found.handle == handle && found.url.as_deref() == url,
        None => false,
    }
}

#[test]
fn a_new_slot_holds_no_session() {
    let slot: SessionSlot<u32> = SessionSlot::new();
    assert!(!slot.is_live());
}

#[test]
fn publishing_makes_the_session_live() {
    let mut slot = SessionSlot::new();
    let displaced = slot.publish(session(1, Some("https://a.trycloudflare.com")));
    assert!(displaced.is_none());
    assert!(slot.is_live());
    let taken = slot.take();
    assert!(same(&taken, 1, Some("https://a.trycloudflare.com")));
    assert!(!slot.is_live());
    assert!(slot.take().is_none());
}

#[test]
fn publishing_over_a_live_session_hands_the_old_one_back() {
    let mut slot = SessionSlot::new();
    slot.publish(session(1, None));
    let displaced = slot.publish(session(2, Some("https://b.trycloudflare.com")));
    assert!(same(&displaced, 1, None));
    assert!(slot.is_live());
    assert!(same(&slot.take(), 2, Some("https://b.trycloudflare.com")));
}

#[test]
fn stopping_without_a_session_says_not_running() {
    let mut slot: SessionSlot<u32> = SessionSlot::new();
    assert!(matches!(stop_agent(&mut slot), Err(StopError::NotRunning)));
    assert!(!slot.is_live());
}

#[test]
fn stopping_empties_the_slot_and_hands_out_the_session() {
    let mut slot = SessionSlot::new();
    slot.publish(session(7, Some("https://c.trycloudflare.com")));
    match stop_agent(&mut slot) {
        Ok(found) => {
            assert_eq!(found.handle, 7);
            assert_eq!(found.url.as_deref(), Some("https://c.trycloudflare.com"));
        }
        Err(error) => panic!("expected the session, got {:?}", error),
    }
    assert!(!slot.is_live());
    assert!(matches!(stop_agent(&mut slot), Err(StopError::NotRunning)));
}

#[test]
fn a_new_secret_slot_is_empty() {
    assert_eq!(SecretSlot::new().get(), None);
}

#[test]
fn a_delivered_secret_is_stored_trimmed() {
    let mut slot = SecretSlot::new();
    assert_eq!(slot.set_nanobanana_secret("  s3cr3t\n"), StatusCode::NoContent);
    assert_eq!(slot.get(), Some("s3cr3t".to_string()));
    assert_eq!(slot.set_nanobanana_secret("next one"), StatusCode::NoContent);
    assert_eq!(slot.get(), Some("next one".to_string()));
}

#[test]
fn a_blank_secret_is_a_bad_request_and_changes_nothing() {
    let mut slot = SecretSlot::new();
    assert_eq!(slot.set_nanobanana_secret(""), StatusCode::BadRequest);
    assert_eq!(slot.get(), None);
    slot.set_nanobanana_secret("kept");
    assert_eq!(slot.set_nanobanana_secret(" \t\r\n"), StatusCode::BadRequest);
    assert_eq!(slot.get(), Some("kept".to_string()));
}

#[test]
fn clearing_forgets_the_secret() {
    let mut slot = SecretSlot::new();
    slot.set_nanobanana_secret("kept");
    slot.clear();
    assert_eq!(slot.get(), None);
    slot.clear();
    assert_eq!(slot.get(), None);
}

#[test]
fn a_stopped_tunnel_forgets_the_secret() {
    let mut slot = SecretSlot::new();
    slot.set_nanobanana_secret("kept");
    assert_eq!(slot.conclude_stop(Ok(())), Ok(()));
    assert_eq!(slot.get(), None);
}

#[test]
fn a_tunnel_that_would_not_stop_keeps_the_secret() {
    let mut slot = SecretSlot::new();
    slot.set_nanobanana_secret("kept");
    assert_eq!(
        slot.conclude_stop(Err("daemon gone".to_string())),
        Err(StopError::StopFailed { detail: "daemon gone".to_string() })
    );
    assert_eq!(slot.get(), Some("kept".to_string()));
}
