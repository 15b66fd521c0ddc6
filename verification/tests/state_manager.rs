//! End-to-end behavior of the block state manager: verification rules,
//! lifecycle transitions and queries.

use subnet_state::VerificationStatus;
use subnet_state::block::Block;
use subnet_state::block::Status;
use subnet_state::errors::StateError;
use subnet_state::ids::Id;
use subnet_state::state::State;

fn mk_id(b: u8) -> Id {
    Id::from_slice(&vec![b; 32])
}

fn mk_block(id: u8, parent: Id, height: u64, timestamp: u64) -> Block {
    Block::new(mk_id(id), parent, height, timestamp, vec![id, 0xAA, 0xBB])
}

const NOW: u64 = 1_700_000_000;

#[test]
fn genesis_block_verifies_regardless_of_timestamp() {
    let st = State::default();
    let genesis = mk_block(1, Id::empty(), 0, NOW + 999_999_999);
    assert_eq!(st.verify_block(&genesis, NOW), Ok(VerificationStatus::Genesis));
    let genesis_old = mk_block(1, Id::empty(), 0, 0);
    assert_eq!(st.verify_block(&genesis_old, NOW), Ok(VerificationStatus::Genesis));
}

#[test]
fn orphan_block_fails_with_not_found() {
    let st = State::default();
    let orphan = mk_block(2, mk_id(1), 1, NOW);
    assert_eq!(st.verify_block(&orphan, NOW), Err(StateError::NotFound));
}

#[test]
fn child_of_verified_parent_verifies() {
    let mut st = State::default();
    let genesis = mk_block(1, Id::empty(), 0, NOW - 10);
    st.add_verified(&genesis);
    let child = mk_block(2, genesis.id(), 1, NOW - 5);
    assert_eq!(st.verify_block(&child, NOW), Ok(VerificationStatus::Verified));
}

#[test]
fn wrong_height_is_invalid_block_height() {
    let mut st = State::default();
    let parent = mk_block(3, Id::empty(), 3, NOW - 10);
    st.add_verified(&parent);
    let skipper = mk_block(5, parent.id(), 5, NOW - 5);
    assert_eq!(st.verify_block(&skipper, NOW), Ok(VerificationStatus::InvalidBlockHeight));
}

#[test]
fn height_zero_with_nonempty_parent_is_invalid_block_height() {
    let mut st = State::default();
    let parent = mk_block(1, Id::empty(), 0, NOW - 10);
    st.add_verified(&parent);
    let zero_child = mk_block(2, parent.id(), 0, NOW - 5);
    assert_eq!(st.verify_block(&zero_child, NOW), Ok(VerificationStatus::InvalidBlockHeight));
}

#[test]
fn timestamp_regression_is_reported_against_parent() {
    let mut st = State::default();
    let parent = mk_block(1, Id::empty(), 0, NOW - 10);
    st.add_verified(&parent);
    let early_child = mk_block(2, parent.id(), 1, NOW - 20);
    assert_eq!(
        st.verify_block(&early_child, NOW),
        Ok(VerificationStatus::TimestampGreaterThanParent)
    );
}

#[test]
fn far_future_timestamp_is_reported_against_local_clock() {
    let mut st = State::default();
    let parent = mk_block(1, Id::empty(), 0, NOW - 10);
    st.add_verified(&parent);
    let boundary_child = mk_block(2, parent.id(), 1, NOW + 3600);
    assert_eq!(
        st.verify_block(&boundary_child, NOW),
        Ok(VerificationStatus::TimestampGreaterThanLocal)
    );
    let near_child = mk_block(3, parent.id(), 1, NOW + 3599);
    assert_eq!(st.verify_block(&near_child, NOW), Ok(VerificationStatus::Verified));
}

#[test]
fn verify_is_idempotent_on_unfinalized_blocks() {
    let mut st = State::default();
    let parent = mk_block(1, Id::empty(), 0, NOW - 10);
    st.add_verified(&parent);
    let child = mk_block(2, parent.id(), 1, NOW - 5);
    assert_eq!(st.verify_block(&child, NOW), Ok(VerificationStatus::Verified));
    assert_eq!(st.verify_block(&child, NOW), Ok(VerificationStatus::Verified));
}

#[test]
fn verify_after_finalization_is_already_added() {
    let mut st = State::default();
    let parent = mk_block(1, Id::empty(), 0, NOW - 10);
    st.add_verified(&parent);
    let mut child = mk_block(2, parent.id(), 1, NOW - 5);
    st.add_verified(&child);
    assert_eq!(st.accept_block(&child), Ok(()));
    child.set_status(Status::Accepted);
    assert_eq!(st.verify_block(&child, NOW), Ok(VerificationStatus::AlreadyAdded));
}

#[test]
fn verify_of_in_memory_block_is_already_added() {
    let mut st = State::default();
    let parent = mk_block(1, Id::empty(), 0, NOW - 10);
    st.add_verified(&parent);
    let child = mk_block(2, parent.id(), 1, NOW - 5);
    st.add_verified(&child);
    assert_eq!(st.verify_block(&child, NOW), Ok(VerificationStatus::AlreadyAdded));
}

#[test]
fn accept_block_persists_updates_pointer_and_clears_memory() {
    let mut st = State::default();
    let block = mk_block(4, mk_id(3), 7, NOW);
    st.add_verified(&block);
    assert!(st.has_verified(&block.id()));
    assert_eq!(st.accept_block(&block), Ok(()));

    let got = st.get_block(&block.id()).unwrap();
    assert_eq!(got.status(), Status::Accepted);
    assert_eq!(got.id(), block.id());
    assert_eq!(got.parent_id(), block.parent_id());
    assert_eq!(got.height(), 7);
    assert_eq!(got.timestamp(), NOW);
    assert_eq!(got.payload(), block.payload());

    assert_eq!(st.get_last_accepted_block_id(), Ok(block.id()));
    assert_eq!(st.has_last_accepted_block(), Ok(true));
    assert!(!st.has_verified(&block.id()));
}

#[test]
fn reject_block_persists_and_leaves_pointer_alone() {
    let mut st = State::default();
    let accepted = mk_block(5, mk_id(3), 7, NOW);
    st.add_verified(&accepted);
    assert_eq!(st.accept_block(&accepted), Ok(()));

    let rejected = mk_block(6, mk_id(3), 7, NOW);
    st.add_verified(&rejected);
    assert_eq!(st.reject_block(&rejected), Ok(()));

    let got = st.get_block(&rejected.id()).unwrap();
    assert_eq!(got.status(), Status::Rejected);
    assert_eq!(got.height(), 7);
    assert_eq!(st.get_last_accepted_block_id(), Ok(accepted.id()));
    assert!(!st.has_verified(&rejected.id()));
}

#[test]
fn fresh_state_has_empty_last_accepted_id() {
    let st = State::default();
    assert_eq!(st.has_last_accepted_block(), Ok(false));
    assert_eq!(st.get_last_accepted_block_id(), Ok(Id::empty()));
}

#[test]
fn reject_after_accept_is_refused_and_accepted_envelope_stays() {
    let mut st = State::default();
    let block = mk_block(7, mk_id(3), 2, NOW);
    st.add_verified(&block);
    assert_eq!(st.accept_block(&block), Ok(()));
    assert_eq!(st.reject_block(&block), Err(StateError::AlreadyFinalized));
    let got = st.get_block(&block.id()).unwrap();
    assert_eq!(got.status(), Status::Accepted);
    assert_eq!(st.get_last_accepted_block_id(), Ok(block.id()));
}

#[test]
fn accept_after_reject_is_refused() {
    let mut st = State::default();
    let block = mk_block(8, mk_id(3), 2, NOW);
    assert_eq!(st.reject_block(&block), Ok(()));
    assert_eq!(st.accept_block(&block), Err(StateError::AlreadyFinalized));
    let got = st.get_block(&block.id()).unwrap();
    assert_eq!(got.status(), Status::Rejected);
    assert_eq!(st.has_last_accepted_block(), Ok(false));
}

#[test]
fn get_block_prefers_the_in_memory_copy() {
    let mut st = State::default();
    // Write a divergent copy of the block straight to the durable store,
    // then shadow it in memory: lookups must see the in-memory copy.
    let mut durable_copy = mk_block(9, mk_id(3), 2, NOW);
    durable_copy.set_status(Status::Accepted);
    assert_eq!(st.write_block(&durable_copy), Ok(()));

    let memory_copy = mk_block(9, mk_id(3), 2, NOW + 1);
    st.add_verified(&memory_copy);

    let got = st.get_block(&memory_copy.id()).unwrap();
    assert_eq!(got.timestamp(), NOW + 1);
    assert_eq!(got.status(), Status::Processing);
    assert_eq!(got, memory_copy);
}

#[test]
fn lookup_during_the_acceptance_window_sees_a_valid_copy() {
    // Replay the window inside acceptance between "envelope durably written"
    // and "dropped from the verified table": the id resolves from memory
    // while the entry is still there, and from the durable store, with the
    // terminal status, once it is gone.
    let mut st = State::default();
    let mut block = mk_block(10, mk_id(3), 2, NOW);
    st.add_verified(&block);
    block.set_status(Status::Accepted);
    assert_eq!(st.write_block(&block), Ok(()));
    assert_eq!(st.set_last_accepted_block(&block.id()), Ok(()));

    let in_window = st.get_block(&block.id()).unwrap();
    assert_eq!(in_window.status(), Status::Processing);
    assert_eq!(in_window.height(), block.height());

    st.remove_verified(&block.id());
    let after = st.get_block(&block.id()).unwrap();
    assert_eq!(after.status(), Status::Accepted);
    assert_eq!(after, block);
}

#[test]
fn get_block_missing_everywhere_is_not_found() {
    let st = State::default();
    assert_eq!(st.get_block(&mk_id(42)), Err(StateError::NotFound));
}

#[test]
fn remove_verified_drops_only_the_named_block() {
    let mut st = State::default();
    let a = mk_block(1, Id::empty(), 0, NOW);
    let b = mk_block(2, a.id(), 1, NOW);
    st.add_verified(&a);
    st.add_verified(&b);
    st.remove_verified(&a.id());
    assert!(!st.has_verified(&a.id()));
    assert!(st.has_verified(&b.id()));
}

#[test]
fn set_preferred_records_the_id_unconditionally() {
    let mut st = State::default();
    assert_eq!(st.preferred(), Id::empty());
    let unknown = mk_id(99);
    assert_eq!(st.set_preferred(&unknown), Ok(()));
    assert_eq!(st.preferred(), unknown);
}

#[test]
fn set_last_accepted_block_overwrites_the_pointer() {
    let mut st = State::default();
    assert_eq!(st.set_last_accepted_block(&mk_id(1)), Ok(()));
    assert_eq!(st.set_last_accepted_block(&mk_id(2)), Ok(()));
    assert_eq!(st.get_last_accepted_block_id(), Ok(mk_id(2)));
}
