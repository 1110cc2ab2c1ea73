use companion::secrets::{has_local_nanobanana_key, load_nanobanana_api_key, KeyError, KeyFile, KeySources};

fn some(text: &str) -> Option<String> {
    Some(text.to_string())
}

fn sources(settings: Option<&str>, environment: Option<&str>, secret: Option<&str>, key_file: KeyFile) -> KeySources {
    KeySources {
        settings_key: settings.map(|text| text.to_string()),
        environment_key: environment.map(|text| text.to_string()),
        delivered_secret: secret.map(|text| text.to_string()),
        key_file,
    }
}

fn contents(text: &str) -> KeyFile {
    KeyFile::Contents(text.to_string())
}

#[test]
fn the_settings_come_first() {
    let all = sources(Some(" from-settings "), Some("from-env"), Some("from-hub"), contents("from-file"));
    assert_eq!(load_nanobanana_api_key(all), Ok("from-settings".to_string()));
}

#[test]
fn the_environment_comes_second() {
    let blank_settings = sources(Some("  "), Some("\tfrom-env\n"), Some("from-hub"), contents("from-file"));
    assert_eq!(load_nanobanana_api_key(blank_settings), Ok("from-env".to_string()));
    let no_settings = sources(None, Some("from-env"), None, KeyFile::Missing);
    assert_eq!(load_nanobanana_api_key(no_settings), Ok("from-env".to_string()));
}

#[test]
fn the_delivered_secret_comes_third_and_is_taken_as_it_is() {
    let delivered = sources(None, Some(""), Some(" from-hub "), contents("from-file"));
    assert_eq!(load_nanobanana_api_key(delivered), Ok(" from-hub ".to_string()));
    let empty = sources(Some(""), None, Some(""), contents("from-file"));
    assert_eq!(load_nanobanana_api_key(empty), Ok(String::new()));
}

#[test]
fn the_key_file_comes_last() {
    let from_file = sources(None, None, None, contents("\nfrom-file\n"));
    assert_eq!(load_nanobanana_api_key(from_file), Ok("from-file".to_string()));
}

#[test]
fn an_empty_key_file_is_an_error() {
    assert_eq!(load_nanobanana_api_key(sources(None, None, None, contents(" \n"))), Err(KeyError::FileEmpty));
    assert_eq!(load_nanobanana_api_key(sources(Some(""), Some(" "), None, contents(""))), Err(KeyError::FileEmpty));
}

#[test]
fn no_key_anywhere_is_not_configured() {
    assert_eq!(load_nanobanana_api_key(sources(None, None, None, KeyFile::Missing)), Err(KeyError::NotConfigured));
}

#[test]
fn a_key_file_that_cannot_be_read_is_reported_when_it_is_needed() {
    let unreadable = || KeyFile::Unreadable { detail: "permission denied".to_string() };
    assert_eq!(
        load_nanobanana_api_key(sources(None, None, None, unreadable())),
        Err(KeyError::FileUnreadable { detail: "permission denied".to_string() })
    );
    assert_eq!(load_nanobanana_api_key(sources(Some("k"), None, None, unreadable())), Ok("k".to_string()));
    assert_eq!(load_nanobanana_api_key(sources(None, None, Some("hub"), unreadable())), Ok("hub".to_string()));
}

#[test]
fn a_local_key_is_one_in_the_settings_the_environment_or_the_file() {
    assert_eq!(has_local_nanobanana_key(some(" k "), None, KeyFile::Missing), Ok(true));
    assert_eq!(has_local_nanobanana_key(None, some("k"), KeyFile::Missing), Ok(true));
    assert_eq!(has_local_nanobanana_key(some(" "), some(""), contents(" k\n")), Ok(true));
    assert_eq!(has_local_nanobanana_key(None, None, contents("  ")), Ok(false));
    assert_eq!(has_local_nanobanana_key(some(""), some("\n"), KeyFile::Missing), Ok(false));
    assert_eq!(has_local_nanobanana_key(None, None, KeyFile::Missing), Ok(false));
}

#[test]
fn an_unreadable_key_file_matters_only_without_another_local_key() {
    let unreadable = || KeyFile::Unreadable { detail: "io".to_string() };
    assert_eq!(has_local_nanobanana_key(some("k"), None, unreadable()), Ok(true));
    assert_eq!(has_local_nanobanana_key(None, some("k"), unreadable()), Ok(true));
    assert_eq!(
        has_local_nanobanana_key(None, some(" "), unreadable()),
        Err(KeyError::FileUnreadable { detail: "io".to_string() })
    );
}
