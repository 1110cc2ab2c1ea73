//! Readiness orchestration and versioned asset broadcast for a local agent.
//!
//! The crate holds the decisions of the agent's companion process: which
//! required models are still missing from a remote inventory, how the waits
//! that bring the tunnel up advance, how the single background asset is
//! versioned, and what a long-poll request is answered with. Network, process
//! and timer work is left to the caller, which performs each action that it
//! is handed and reports what came of it.
//!
//! The components, leaves first:
//!
//! - [`log_watcher`] finds a pattern in the growing output of a process,
//!   within a bounded number of reads.
//! - [`inventory`] reads the remote inventory and tells which required
//!   models it lacks; [`provisioning`] brings the missing ones in.
//! - [`orchestrator`] sequences a whole run: models, tunnel, URL,
//!   registration.
//! - [`asset_store`] holds the current background image and its version;
//!   [`long_poll`] answers the requests for it.
//! - [`generation`] builds the request for a new image and interprets the
//!   reply, with [`image`] locating the image in it.
//! - [`session`] and [`secrets`] keep the process-wide slots and pick the
//!   key; [`settings`] names the required models.
//!
//! [`codec`], [`http`] and [`pattern`] state what is assumed of the `base64`,
//! `http` and `regex` crates; [`text`], [`json`], [`retry`] and [`failure`]
//! are shared by the rest.

pub mod failure;
pub mod retry;
pub mod text;

pub mod codec;
pub mod http;
pub mod pattern;

pub mod json;

pub mod asset_store;
pub mod generation;
pub mod image;
pub mod inventory;
pub mod log_watcher;
pub mod long_poll;
pub mod orchestrator;
pub mod provisioning;
pub mod secrets;
pub mod session;
pub mod settings;
