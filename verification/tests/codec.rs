//! Round trips and corruption handling of the block codec and the
//! persistence envelope.

use subnet_state::block::Block;
use subnet_state::block::Status;
use subnet_state::envelope::BlockWithStatus;
use subnet_state::errors::StateError;
use subnet_state::ids::Id;

fn sample_block(payload: Vec<u8>) -> Block {
    Block::new(
        Id::from_slice(&vec![0x11; 32]),
        Id::from_slice(&vec![0x22; 32]),
        41,
        1_700_000_123,
        payload,
    )
}

#[test]
fn block_bytes_round_trip() {
    let block = sample_block(vec![1, 2, 3, 4, 5]);
    let bytes = block.to_bytes();
    let decoded = Block::from_bytes(&bytes).unwrap();
    assert_eq!(decoded, block);
    assert_eq!(decoded.status(), Status::Processing);
}

#[test]
fn block_bytes_round_trip_empty_payload() {
    let block = sample_block(Vec::new());
    let decoded = Block::from_bytes(&block.to_bytes()).unwrap();
    assert_eq!(decoded, block);
}

#[test]
fn block_decode_rejects_short_input() {
    assert_eq!(Block::from_bytes(&vec![0u8; 79]), Err(StateError::Codec));
}

#[test]
fn envelope_round_trips_for_every_status() {
    let statuses = [Status::Processing, Status::Accepted, Status::Rejected];
    for status in statuses {
        let env = BlockWithStatus {
            block_bytes: sample_block(vec![9, 8, 7]).to_bytes(),
            status,
        };
        let decoded = BlockWithStatus::from_slice(&env.encode()).unwrap();
        assert_eq!(decoded.block_bytes, env.block_bytes);
        assert_eq!(decoded.status, env.status);
    }
}

#[test]
fn envelope_encoding_is_self_describing() {
    let env = BlockWithStatus { block_bytes: vec![0xFF], status: Status::Accepted };
    let bytes = env.encode();
    assert_eq!(&bytes[0..11], b"block_bytes");
    // Little-endian length of the one-byte payload.
    assert_eq!(&bytes[11..19], &[1, 0, 0, 0, 0, 0, 0, 0]);
    assert_eq!(bytes[19], 0xFF);
    assert_eq!(&bytes[20..26], b"status");
    assert_eq!(bytes.len(), 27);
}

#[test]
fn envelope_rejects_unknown_status_tag() {
    let env = BlockWithStatus { block_bytes: vec![1, 2, 3], status: Status::Rejected };
    let mut bytes = env.encode();
    let last = bytes.len() - 1;
    bytes[last] = 9;
    assert!(matches!(BlockWithStatus::from_slice(&bytes), Err(StateError::Codec)));
}

#[test]
fn envelope_rejects_wrong_length_field() {
    let env = BlockWithStatus { block_bytes: vec![1, 2, 3], status: Status::Processing };
    let mut bytes = env.encode();
    bytes[11] = 77;
    assert!(matches!(BlockWithStatus::from_slice(&bytes), Err(StateError::Codec)));
}

#[test]
fn envelope_rejects_misnamed_field() {
    let env = BlockWithStatus { block_bytes: vec![1, 2, 3], status: Status::Processing };
    let mut bytes = env.encode();
    bytes[0] = b'x';
    assert!(matches!(BlockWithStatus::from_slice(&bytes), Err(StateError::Codec)));
}

#[test]
fn envelope_rejects_truncated_input() {
    assert!(matches!(BlockWithStatus::from_slice(&vec![0u8; 25]), Err(StateError::Codec)));
}

#[test]
fn id_empty_sentinel_and_equality() {
    let empty = Id::empty();
    assert!(empty.is_empty_id());
    assert_eq!(empty.as_bytes(), &vec![0u8; 32]);
    let nonempty = Id::from_slice(&vec![5u8; 32]);
    assert!(!nonempty.is_empty_id());
    assert_ne!(empty, nonempty);
    assert_eq!(nonempty.dup(), nonempty);
    assert_eq!(nonempty.to_vec(), vec![5u8; 32]);
}

#[test]
fn block_set_status_changes_only_the_status() {
    let mut block = sample_block(vec![3, 3]);
    let before = block.dup();
    block.set_status(Status::Rejected);
    assert_eq!(block.status(), Status::Rejected);
    assert_eq!(block.id(), before.id());
    assert_eq!(block.parent_id(), before.parent_id());
    assert_eq!(block.height(), before.height());
    assert_eq!(block.timestamp(), before.timestamp());
    assert_eq!(block.payload(), before.payload());
}
