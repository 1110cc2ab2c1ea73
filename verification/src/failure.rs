//! The kinds of failure that the crate reports.

use vstd::prelude::*;

verus! {

/// What kind of failure an error is.
#[derive(Clone, Copy, Debug, PartialEq, Eq, Structural)]
pub enum FailureKind {
    /// The network did not carry a request or its answer.
    Transient,
    /// The attempts allowed for a wait were used up.
    Timeout,
    /// A collaborator answered outside the success class.
    RemoteRejected,
    /// What the user entered was refused before anything was asked of the
    /// network.
    InvalidInput,
    /// The operation cannot go on: a process did not launch, an answer was
    /// not understood, or the caller reported out of turn.
    Fatal,
}

} // verus!
