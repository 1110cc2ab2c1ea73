//! The process-wide slots: the live tunnel session and the delivered secret.
//!
//! Each slot is owned by its holder, which guards it with a lock of its own
//! and holds that lock only for one call.

use vstd::prelude::*;
use vstd::string::StringExecFns;
use crate::http::StatusCode;
use crate::text::{is_blank, trim, trimmed};

verus! {

/// A running tunnel process and the public URL it was found to serve, where
/// one was found. `H` is the handle by which the process is stopped.
pub struct TunnelSession<H> {
    pub handle: H,
    pub url: Option<String>,
}

/// The slot for the one tunnel session that may be live.
pub struct SessionSlot<H> {
    session: Option<TunnelSession<H>>,
}

impl<H> View for SessionSlot<H> {
    type V = Option<TunnelSession<H>>;

    closed spec fn view(&self) -> Option<TunnelSession<H>> {
        self.session
    }
}

impl<H> SessionSlot<H> {
    /// An empty slot.
    pub fn new() -> (slot: SessionSlot<H>)
        ensures
            slot@ is None,
    {
        SessionSlot { session: None }
    }

    /// Whether a session is live.
    pub fn is_live(&self) -> (live: bool)
        ensures
            live == (self@ is Some),
    {
        self.session.is_some()
    }

    /// Makes `session` the live one and hands back the session that it
    /// displaces, which is still running and is the caller's to stop.
    pub fn publish(&mut self, session: TunnelSession<H>) -> (displaced: Option<TunnelSession<H>>)
        ensures
            final(self)@ == Some(session),
            displaced == old(self)@,
    {
        let displaced = self.session.take();
        self.session = Some(session);
        displaced
    }

    /// Empties the slot and hands out the session that was live.
    pub fn take(&mut self) -> (taken: Option<TunnelSession<H>>)
        ensures
            final(self)@ is None,
            taken == old(self)@,
    {
        self.session.take()
    }
}

/// Why the agent was not stopped.
#[derive(Debug, PartialEq, Eq)]
pub enum StopError {
    /// No session was live.
    NotRunning,
    /// The tunnel process could not be stopped.
    StopFailed { detail: String },
}

/// The slot for the secret that the hub delivers.
pub struct SecretSlot {
    secret: Option<String>,
}

impl View for SecretSlot {
    type V = Option<Seq<char>>;

    closed spec fn view(&self) -> Option<Seq<char>> {
        match self.secret {
            Some(secret) => Some(secret@),
            None => None,
        }
    }
}

impl SecretSlot {
    /// An empty slot.
    pub fn new() -> (slot: SecretSlot)
        ensures
            slot@ is None,
    {
        SecretSlot { secret: None }
    }

    /// A copy of the secret, where one was delivered.
    pub fn get(&self) -> (secret: Option<String>)
        ensures
            match secret {
                Some(secret) => self@ == Some(secret@),
                None => self@ is None,
            },
    {
        match &self.secret {
            Some(secret) => Some(secret.clone()),
            None => None,
        }
    }

    /// Forgets the secret.
    pub fn clear(&mut self)
        ensures
            final(self)@ is None,
    {
        self.secret = None;
    }

    /// Takes a delivered secret. A secret that is blank is refused as a bad
    /// request and the slot stays as it is; any other is stored without its
    /// surrounding whitespace.
    pub fn set_nanobanana_secret(&mut self, secret: &str) -> (status: StatusCode)
        ensures
            is_blank(secret@) ==> status == StatusCode::BadRequest && final(self)@ == old(self)@,
            !is_blank(secret@) ==> status == StatusCode::NoContent && final(self)@ == Some(
                trimmed(secret@),
            ),
    {
        let sanitized = trim(secret);
        if sanitized.is_empty() {
            return StatusCode::BadRequest;
        }
        self.secret = Some(String::from_str(sanitized));
        StatusCode::NoContent
    }

    /// Concludes the stopping of the agent, given what came of stopping the
    /// tunnel process: the secret is forgotten when the process was stopped,
    /// and kept when it was not.
    pub fn conclude_stop(&mut self, stopped: Result<(), String>) -> (result: Result<(), StopError>)
        ensures
            match stopped {
                Ok(_) => result is Ok && final(self)@ is None,
                Err(detail) => final(self)@ == old(self)@ && (result matches Err(
                    StopError::StopFailed { detail: reported },
                ) && reported@ == detail@),
            },
    {
        match stopped {
            Ok(_) => {
                self.secret = None;
                Ok(())
            },
            Err(detail) => Err(StopError::StopFailed { detail }),
        }
    }
}

/// Begins the stopping of the agent: empties the session slot and hands out
/// the session to stop, or says that none was live.
pub fn stop_agent<H>(slot: &mut SessionSlot<H>) -> (taken: Result<TunnelSession<H>, StopError>)
    ensures
        final(slot)@ is None,
        match old(slot)@ {
            Some(session) => taken == Ok::<TunnelSession<H>, StopError>(session),
            None => taken matches Err(StopError::NotRunning),
        },
{
    match slot.take() {
        Some(session) => Ok(session),
        None => Err(StopError::NotRunning),
    }
}

} // verus!
