//! Where the key for the image generation service comes from.
//!
//! The caller reads the places a key may be kept in; the order of preference
//! among them is decided here.

use vstd::prelude::*;
use vstd::string::StringExecFns;
use crate::text::{blank, is_blank, trim, trimmed};

verus! {

/// What reading the key file gave.
#[derive(Debug, PartialEq, Eq)]
pub enum KeyFile {
    Contents(String),
    Missing,
    Unreadable { detail: String },
}

/// The places a key may be kept in, as they were read.
#[derive(Debug, PartialEq, Eq)]
pub struct KeySources {
    /// The key in the settings.
    pub settings_key: Option<String>,
    /// The key in the environment.
    pub environment_key: Option<String>,
    /// The secret that the hub delivered.
    pub delivered_secret: Option<String>,
    /// The key file.
    pub key_file: KeyFile,
}

/// Why there is no key.
#[derive(Debug, PartialEq, Eq)]
pub enum KeyError {
    /// The key file holds nothing but whitespace.
    FileEmpty,
    /// No place holds a key.
    NotConfigured,
    /// The key file could not be read.
    FileUnreadable { detail: String },
}

/// A missing key as a mathematical value.
pub enum KeyFailure {
    FileEmpty,
    NotConfigured,
    FileUnreadable { detail: Seq<char> },
}

impl View for KeyError {
    type V = KeyFailure;

    open spec fn view(&self) -> KeyFailure {
        match self {
            KeyError::FileEmpty => KeyFailure::FileEmpty,
            KeyError::NotConfigured => KeyFailure::NotConfigured,
            KeyError::FileUnreadable { detail } => KeyFailure::FileUnreadable { detail: detail@ },
        }
    }
}

/// The key that an optional text holds: the text without surrounding
/// whitespace, unless that leaves nothing.
pub open spec fn usable_key(text: Option<String>) -> Option<Seq<char>> {
    match text {
        Some(text) => if is_blank(text@) {
            None
        } else {
            Some(trimmed(text@))
        },
        None => None,
    }
}

/// The key to use: from the settings, else from the environment, else the
/// delivered secret as it is, else from the key file.
pub open spec fn resolved_key(sources: KeySources) -> Result<Seq<char>, KeyFailure> {
    if usable_key(sources.settings_key) is Some {
        Ok(usable_key(sources.settings_key)->0)
    } else if usable_key(sources.environment_key) is Some {
        Ok(usable_key(sources.environment_key)->0)
    } else if sources.delivered_secret is Some {
        Ok(sources.delivered_secret->0@)
    } else {
        match sources.key_file {
            KeyFile::Contents(contents) => if is_blank(contents@) {
                Err(KeyFailure::FileEmpty)
            } else {
                Ok(trimmed(contents@))
            },
            KeyFile::Missing => Err(KeyFailure::NotConfigured),
            KeyFile::Unreadable { detail } => Err(KeyFailure::FileUnreadable { detail: detail@ }),
        }
    }
}

/// Whether this machine has a key of its own: in the settings, in the
/// environment or in the key file. The delivered secret does not count.
pub open spec fn local_key_present(
    settings_key: Option<String>,
    environment_key: Option<String>,
    key_file: KeyFile,
) -> Result<bool, KeyFailure> {
    if usable_key(settings_key) is Some || usable_key(environment_key) is Some {
        Ok(true)
    } else {
        match key_file {
            KeyFile::Contents(contents) => Ok(!is_blank(contents@)),
            KeyFile::Missing => Ok(false),
            KeyFile::Unreadable { detail } => Err(KeyFailure::FileUnreadable { detail: detail@ }),
        }
    }
}

/// The key that an optional text holds.
fn usable(text: &Option<String>) -> (key: Option<String>)
    ensures
        match key {
            Some(key) => usable_key(*text) == Some(key@),
            None => usable_key(*text) is None,
        },
{
    match text {
        Some(text) => {
            let core = trim(text.as_str());
            if core.is_empty() {
                None
            } else {
                Some(String::from_str(core))
            }
        },
        None => None,
    }
}

/// Picks the key to use from the places that were read.
pub fn load_nanobanana_api_key(sources: KeySources) -> (key: Result<String, KeyError>)
    ensures
        match key {
            Ok(key) => resolved_key(sources) == Ok::<Seq<char>, KeyFailure>(key@),
            Err(error) => resolved_key(sources) == Err::<Seq<char>, KeyFailure>(error@),
        },
{
    if let Some(key) = usable(&sources.settings_key) {
        return Ok(key);
    }
    if let Some(key) = usable(&sources.environment_key) {
        return Ok(key);
    }
    let KeySources { settings_key, environment_key, delivered_secret, key_file } = sources;
    if let Some(secret) = delivered_secret {
        return Ok(secret);
    }
    match key_file {
        KeyFile::Contents(contents) => {
            let core = trim(contents.as_str());
            if core.is_empty() {
                Err(KeyError::FileEmpty)
            } else {
                Ok(String::from_str(core))
            }
        },
        KeyFile::Missing => Err(KeyError::NotConfigured),
        KeyFile::Unreadable { detail } => Err(KeyError::FileUnreadable { detail }),
    }
}

/// Says whether this machine has a key of its own.
pub fn has_local_nanobanana_key(
    settings_key: Option<String>,
    environment_key: Option<String>,
    key_file: KeyFile,
) -> (present: Result<bool, KeyError>)
    ensures
        match present {
            Ok(present) => local_key_present(settings_key, environment_key, key_file) == Ok::<
                bool,
                KeyFailure,
            >(present),
            Err(error) => local_key_present(settings_key, environment_key, key_file) == Err::<
                bool,
                KeyFailure,
            >(error@),
        },
{
    if usable(&settings_key).is_some() {
        return Ok(true);
    }
    if usable(&environment_key).is_some() {
        return Ok(true);
    }
    match key_file {
        KeyFile::Contents(contents) => Ok(!blank(contents.as_str())),
        KeyFile::Missing => Ok(false),
        KeyFile::Unreadable { detail } => Err(KeyError::FileUnreadable { detail }),
    }
}

} // verus!
