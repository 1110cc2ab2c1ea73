use companion::asset_store::{BackgroundAsset, BackgroundState};

#[test]
fn a_new_store_has_version_zero_and_no_payload() {
    let store = BackgroundState::new();
    assert_eq!(store.version(), 0);
    assert_eq!(store.asset(), None);
    assert_eq!(store.snapshot(), (0, None));
}

#[test]
fn each_replacement_advances_the_version_by_one() {
    let mut store = BackgroundState::new();
    for k in 1..=5u64 {
        let bytes = vec![k as u8; k as usize];
        let mime = format!("image/type-{}", k);
        store.replace(bytes.clone(), mime.clone());
        assert_eq!(store.version(), k);
        assert_eq!(store.asset(), Some(&BackgroundAsset { bytes: bytes.clone(), mime: mime.clone() }));
        assert_eq!(store.snapshot(), (k, Some(BackgroundAsset { bytes, mime })));
    }
}

#[test]
fn a_snapshot_is_a_copy() {
    let mut store = BackgroundState::new();
    store.replace(vec![1, 2, 3], "image/png".to_string());
    let (version, asset) = store.snapshot();
    store.replace(vec![9], "image/jpeg".to_string());
    assert_eq!(version, 1);
    assert_eq!(asset, Some(BackgroundAsset { bytes: vec![1, 2, 3], mime: "image/png".to_string() }));
    assert_eq!(store.snapshot(), (2, Some(BackgroundAsset { bytes: vec![9], mime: "image/jpeg".to_string() })));
}

#[test]
fn an_empty_payload_still_counts_as_written() {
    let mut store = BackgroundState::new();
    store.replace(Vec::new(), String::new());
    assert_eq!(store.version(), 1);
    assert_eq!(store.asset(), Some(&BackgroundAsset { bytes: Vec::new(), mime: String::new() }));
}

#[test]
fn a_duplicate_holds_the_same_bytes_and_content_type() {
    let asset = BackgroundAsset { bytes: vec![0, 255, 7], mime: "image/webp".to_string() };
    assert_eq!(asset.duplicate(), asset);
}
