//! Block state management for a subnet virtual machine.
//!
//! The library tracks blocks through verification, acceptance and rejection,
//! bridging an in-memory table of verified-but-unfinalized blocks with a
//! durable key/value store that holds every finalized block together with
//! its terminal status.

use vstd::prelude::*;

pub mod block;
pub mod bytes_util;
pub mod envelope;
pub mod errors;
pub mod ids;
pub mod laws;
pub mod layers;
pub mod state;
pub mod store;

verus! {

/// Outcome of verifying a block against the chain state, its parent and the
/// local clock. These are expected results the consensus engine branches on,
/// not errors.
#[derive(Clone, Copy, Debug, PartialEq, Eq, Structural)]
pub enum VerificationStatus {
    /// The block is the trusted genesis block (height 0, empty parent id).
    Genesis,
    /// The block passed every verification rule.
    Verified,
    /// The block is already resolvable from memory or the durable store.
    AlreadyAdded,
    /// The block's height is not exactly one above its parent's height.
    InvalidBlockHeight,
    /// The block's timestamp regresses below its parent's timestamp.
    TimestampGreaterThanParent,
    /// The block's timestamp is an hour or more ahead of the local clock.
    TimestampGreaterThanLocal,
}

} // verus!
