//! Failure taxonomy of the state manager.

use vstd::prelude::*;

verus! {

/// Environment-level failures surfaced to the caller. Expected verification
/// outcomes are not errors; they live in `VerificationStatus`.
#[derive(Clone, Copy, Debug, PartialEq, Eq, Structural)]
pub enum StateError {
    /// The requested key or block is absent from memory and the durable
    /// store. Distinguished so callers can treat a missing parent and a
    /// missing last-accepted pointer differently.
    NotFound,
    /// A stored envelope or block payload failed to decode: data corruption
    /// or a version mismatch. Never swallowed.
    Codec,
    /// A lifecycle transition was asked of a block that already carries a
    /// terminal status in the durable store. Finalization is one-shot: a
    /// terminal status is never overwritten.
    AlreadyFinalized,
}

} // verus!
