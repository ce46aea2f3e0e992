//! The error taxonomy of the synchronization engine.

use vstd::prelude::*;

verus! {

/// A failure of an upstream call: recoverable per item, counted and never
/// escalated to abort a batch.
#[derive(Debug, Clone, PartialEq, Eq)]
pub enum UpstreamError {
    /// The transport failed before a response arrived.
    Transport(String),
    /// The response carried a non-success status.
    BadStatus(u16),
    /// The response body was empty.
    EmptyBody,
    /// The response body did not have the shape the engine expects.
    MalformedPayload,
}

/// A payload rejected by a sanity check: logged apart from upstream
/// failures, treated the same way by a batch.
#[derive(Debug, Clone, Copy, PartialEq, Eq, Structural)]
pub enum ValidationError {
    /// The payload carries no readable resolved identifier.
    IdMissing,
    /// The resolved identifier is shorter than the platform minimum: the
    /// payload belongs to a different platform's listing.
    IdTooShort,
}

/// Anything that can stop one entity's fetch.
#[derive(Debug, Clone, PartialEq, Eq)]
pub enum FetchError {
    Upstream(UpstreamError),
    Validation(ValidationError),
}

} // verus!
