//! The guarantees the state manager gives the consensus engine, stated and
//! proved over the mathematical views that the executable contracts use.

use vstd::prelude::*;

use crate::VerificationStatus;
use crate::block::BlockView;
use crate::block::Status;
use crate::block::block_header_len;
use crate::block::lemma_block_bytes_len;
use crate::block::lemma_block_round_trip;
use crate::block::spec_block_bytes;
use crate::block::spec_block_dec;
use crate::envelope::lemma_envelope_round_trip;
use crate::envelope::spec_env_bytes;
use crate::envelope::spec_env_dec;
use crate::errors::StateError;
use crate::state::StateView;
use crate::state::last_accepted_key;
use crate::state::spec_accept;
use crate::state::spec_block_key;
use crate::state::spec_finalized;
use crate::state::spec_is_genesis;
use crate::state::spec_last_accepted;
use crate::state::spec_reject;
use crate::state::spec_resolve;
use crate::state::spec_verify;

verus! {

/// For a non-genesis block whose parent resolves and whose own id does not,
/// the verification rules decide exactly as specified, in order:
/// `InvalidBlockHeight` iff the height is not one above the parent's,
/// `TimestampGreaterThanParent` iff the timestamp regresses below the
/// parent's, `TimestampGreaterThanLocal` iff the timestamp is an hour or
/// more ahead of the local clock, and `Verified` otherwise.
pub proof fn lemma_verification_rules(sv: StateView, b: BlockView, p: BlockView, now_unix: u64)
    requires
        !spec_is_genesis(b),
        spec_resolve(sv, b.id) is Err,
        spec_resolve(sv, b.parent_id) == Ok::<BlockView, StateError>(p),
    ensures
        spec_verify(sv, b, now_unix) == Ok::<VerificationStatus, StateError>(
            VerificationStatus::InvalidBlockHeight,
        ) <==> p.height as int != b.height as int - 1,
        spec_verify(sv, b, now_unix) == Ok::<VerificationStatus, StateError>(
            VerificationStatus::TimestampGreaterThanParent,
        ) <==> (p.height as int == b.height as int - 1 && p.timestamp > b.timestamp),
        spec_verify(sv, b, now_unix) == Ok::<VerificationStatus, StateError>(
            VerificationStatus::TimestampGreaterThanLocal,
        ) <==> (p.height as int == b.height as int - 1 && p.timestamp <= b.timestamp
            && b.timestamp as int >= now_unix as int + 3600),
        spec_verify(sv, b, now_unix) == Ok::<VerificationStatus, StateError>(
            VerificationStatus::Verified,
        ) <==> (p.height as int == b.height as int - 1 && p.timestamp <= b.timestamp
            && (b.timestamp as int) < now_unix as int + 3600),
{
}

/// Verification reads but never writes (the executable `verify_block` takes
/// `&self`), so on one state and one clock its verdict is a function of its
/// inputs: a never-finalized block that verified once verifies again. A
/// `Verified` verdict moreover pins the block's situation down: it is not
/// genesis, not resolvable anywhere, its parent resolves, and it passes the
/// height and both timestamp rules.
pub proof fn lemma_verify_idempotent(sv: StateView, b: BlockView, now_unix: u64)
    requires
        spec_verify(sv, b, now_unix) == Ok::<VerificationStatus, StateError>(
            VerificationStatus::Verified,
        ),
    ensures
        spec_verify(sv, b, now_unix) == Ok::<VerificationStatus, StateError>(
            VerificationStatus::Verified,
        ),
        !spec_is_genesis(b),
        spec_resolve(sv, b.id) is Err,
        !sv.verified.contains_key(b.id),
        spec_resolve(sv, b.parent_id) is Ok,
        spec_resolve(sv, b.parent_id)->Ok_0.height as int == b.height as int - 1,
        spec_resolve(sv, b.parent_id)->Ok_0.timestamp <= b.timestamp,
        (b.timestamp as int) < now_unix as int + 3600,
{
}

/// A non-genesis block that is already resolvable — in particular one
/// finalized with a well-formed stored envelope — re-verifies as
/// `AlreadyAdded`, whatever the clock says.
pub proof fn lemma_finalized_already_added(sv: StateView, b: BlockView, now_unix: u64)
    requires
        !spec_is_genesis(b),
        spec_resolve(sv, b.id) is Ok,
    ensures
        spec_verify(sv, b, now_unix) == Ok::<VerificationStatus, StateError>(
            VerificationStatus::AlreadyAdded,
        ),
{
}

/// Round trip: an envelope built from any block's bytes and any status
/// value decodes to exactly that payload and status, and the payload decodes
/// back to the block itself (carrying the neutral in-flight status that
/// block bytes do not record).
pub proof fn lemma_block_envelope_round_trip(b: BlockView, s: Status)
    requires
        b.wf(),
        b.payload.len() + block_header_len() <= u64::MAX,
    ensures
        spec_env_dec(spec_env_bytes(spec_block_bytes(b), s)) == Some(
            (spec_block_bytes(b), s),
        ),
        spec_block_dec(spec_block_bytes(b)) == Some(b.with_status(Status::Processing)),
{
    lemma_block_bytes_len(b);
    lemma_envelope_round_trip(spec_block_bytes(b), s);
    lemma_block_round_trip(b);
}

/// Acceptance invariant: after accepting a block, looking its id up returns
/// the block with status Accepted, the last-accepted pointer names it, and
/// the verified table no longer holds it.
pub proof fn lemma_accept_invariant(sv: StateView, b: BlockView)
    requires
        b.wf(),
        b.payload.len() + block_header_len() <= u64::MAX,
    ensures
        spec_resolve(spec_accept(sv, b), b.id) == Ok::<BlockView, StateError>(
            b.with_status(Status::Accepted),
        ),
        spec_last_accepted(spec_accept(sv, b)) == Ok::<Seq<u8>, StateError>(b.id),
        !spec_accept(sv, b).verified.contains_key(b.id),
{
    let ba = b.with_status(Status::Accepted);
    lemma_block_bytes_len(b);
    assert(spec_block_bytes(ba) == spec_block_bytes(b));
    lemma_envelope_round_trip(spec_block_bytes(ba), Status::Accepted);
    lemma_block_round_trip(ba);
    assert(spec_block_key(b.id).len() == 34);
    assert(last_accepted_key().len() == 19);
    assert(ba.with_status(Status::Processing).with_status(Status::Accepted) =~= ba);
}

/// Rejection invariant: after rejecting a block, looking its id up returns
/// the block with status Rejected, the last-accepted pointer is unchanged,
/// and the verified table no longer holds it.
pub proof fn lemma_reject_invariant(sv: StateView, b: BlockView)
    requires
        b.wf(),
        b.payload.len() + block_header_len() <= u64::MAX,
    ensures
        spec_resolve(spec_reject(sv, b), b.id) == Ok::<BlockView, StateError>(
            b.with_status(Status::Rejected),
        ),
        spec_last_accepted(spec_reject(sv, b)) == spec_last_accepted(sv),
        !spec_reject(sv, b).verified.contains_key(b.id),
{
    let br = b.with_status(Status::Rejected);
    lemma_block_bytes_len(b);
    assert(spec_block_bytes(br) == spec_block_bytes(b));
    lemma_envelope_round_trip(spec_block_bytes(br), Status::Rejected);
    lemma_block_round_trip(br);
    assert(spec_block_key(b.id).len() == 34);
    assert(last_accepted_key().len() == 19);
    assert(br.with_status(Status::Processing).with_status(Status::Rejected) =~= br);
}

/// Fast-path precedence: an id present in the in-memory table resolves to
/// the in-memory copy, whatever the durable store holds under its key.
pub proof fn lemma_fast_path_precedence(sv: StateView, id: Seq<u8>)
    requires
        sv.verified.contains_key(id),
    ensures
        spec_resolve(sv, id) == Ok::<BlockView, StateError>(sv.verified[id]),
{
}

/// Acceptance finalizes the id, so a later lifecycle call on it — a reject
/// in particular — is refused and the Accepted envelope stays as written.
pub proof fn lemma_accept_is_final(sv: StateView, b: BlockView)
    ensures
        spec_finalized(spec_accept(sv, b), b.id),
{
}

} // verus!
