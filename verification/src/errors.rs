//! The error taxonomy of the delivery pipeline.
//!
//! Recoverable conditions are converted to diagnostics and filtered
//! out of the event stream before they reach conversation logic; only
//! an [`PollError::Integrity`] fault aborts a polling cycle, since
//! cursor correctness cannot be guaranteed once an entry's identity is
//! unknown.

use vstd::prelude::*;

verus! {

/// A network or remote-service failure during retrieval. The poller
/// retries automatically by re-cycling with an unchanged cursor.
#[derive(Clone, Debug, PartialEq)]
pub struct TransportError {
    /// A human-readable description of what failed.
    pub description: String,
}

impl TransportError {
    /// Builds a transport error from its description.
    pub fn new(description: String) -> (r: Self)
        ensures
            r.description == description,
    {
        Self { description }
    }
}

/// What can go wrong in one polling cycle.
#[derive(Clone, Debug, PartialEq)]
pub enum PollError {
    /// The retrieval call itself failed; the cursor is unchanged and
    /// the cycle is retried.
    Transport(TransportError),
    /// A batch entry's identity could not be determined at all, so the
    /// cursor cannot safely advance: the cycle is aborted.
    Integrity,
}

/// A failure inside a user-supplied transition (typically a failed
/// reply attempt). The dialogue dispatcher leaves the stored state
/// unchanged and considers the event handled.
#[derive(Clone, Debug, PartialEq)]
pub struct TransitionError {
    /// A human-readable description of what failed.
    pub description: String,
}

impl TransitionError {
    /// Builds a transition error from its description.
    pub fn new(description: String) -> (r: Self)
        ensures
            r.description == description,
    {
        Self { description }
    }
}

} // verus!
