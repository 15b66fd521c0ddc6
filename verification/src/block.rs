//! Blocks: identity, parent linkage, height, timestamp, status and opaque
//! payload, together with their byte-level codec.
//!
//! The codec lays a block out as: id bytes, parent id bytes, height
//! (8 bytes, little endian), timestamp (8 bytes, little endian), then the
//! payload. The status is deliberately not part of the block bytes: it is
//! persisted beside them in the envelope and re-applied on read.

use vstd::prelude::*;
use vstd::bytes::lemma_auto_spec_u64_to_from_le_bytes;
use vstd::bytes::spec_u64_from_le_bytes;
use vstd::bytes::spec_u64_to_le_bytes;
use vstd::bytes::u64_from_le_bytes;
use vstd::bytes::u64_to_le_bytes;

use crate::bytes_util::copy_range;
use crate::bytes_util::push_bytes;
use crate::errors::StateError;
use crate::ids::ID_LEN;
use crate::ids::Id;

verus! {

/// Lifecycle status of a block. `Processing` is the in-flight state; the two
/// terminal states are set only by the state manager.
#[derive(Clone, Copy, Debug, PartialEq, Eq, Structural)]
pub enum Status {
    Processing,
    Accepted,
    Rejected,
}

/// Mathematical view of a block.
#[verifier::ext_equal]
pub ghost struct BlockView {
    pub id: Seq<u8>,
    pub parent_id: Seq<u8>,
    pub height: u64,
    pub timestamp: u64,
    pub status: Status,
    pub payload: Seq<u8>,
}

impl BlockView {
    /// Both ids hold exactly `ID_LEN` bytes.
    pub open spec fn wf(self) -> bool {
        &&& self.id.len() == ID_LEN
        &&& self.parent_id.len() == ID_LEN
    }

    /// The same block with its status replaced.
    pub open spec fn with_status(self, status: Status) -> BlockView {
        BlockView { status, ..self }
    }
}

/// Number of bytes before the payload in an encoded block: two ids, the
/// height and the timestamp.
pub open spec fn block_header_len() -> int {
    ID_LEN + ID_LEN + 8 + 8
}

/// The byte encoding of a block. Independent of the block's status.
pub open spec fn spec_block_bytes(b: BlockView) -> Seq<u8> {
    b.id + b.parent_id + spec_u64_to_le_bytes(b.height) + spec_u64_to_le_bytes(b.timestamp)
        + b.payload
}

/// Decodes block bytes. Succeeds on any input long enough to hold the
/// header; the decoded block always carries status `Processing`.
pub open spec fn spec_block_dec(s: Seq<u8>) -> Option<BlockView> {
    if s.len() >= block_header_len() {
        Some(
            BlockView {
                id: s.subrange(0, ID_LEN as int),
                parent_id: s.subrange(ID_LEN as int, 2 * ID_LEN),
                height: spec_u64_from_le_bytes(s.subrange(2 * ID_LEN, 2 * ID_LEN + 8)),
                timestamp: spec_u64_from_le_bytes(
                    s.subrange(2 * ID_LEN + 8, 2 * ID_LEN + 16),
                ),
                status: Status::Processing,
                payload: s.subrange(block_header_len(), s.len() as int),
            },
        )
    } else {
        None
    }
}

/// An encoded block is its header followed by its payload.
pub proof fn lemma_block_bytes_len(b: BlockView)
    requires
        b.wf(),
    ensures
        spec_block_bytes(b).len() == block_header_len() + b.payload.len(),
{
    lemma_auto_spec_u64_to_from_le_bytes();
}

/// Decoding inverts encoding, up to the status, which the block bytes do not
/// carry.
pub proof fn lemma_block_round_trip(b: BlockView)
    requires
        b.wf(),
    ensures
        spec_block_dec(spec_block_bytes(b)) == Some(b.with_status(Status::Processing)),
{
    lemma_auto_spec_u64_to_from_le_bytes();
    let s = spec_block_bytes(b);
    assert(s.subrange(0, ID_LEN as int) =~= b.id);
    assert(s.subrange(ID_LEN as int, 2 * ID_LEN) =~= b.parent_id);
    assert(s.subrange(2 * ID_LEN, 2 * ID_LEN + 8) =~= spec_u64_to_le_bytes(b.height));
    assert(s.subrange(2 * ID_LEN + 8, 2 * ID_LEN + 16) =~= spec_u64_to_le_bytes(b.timestamp));
    assert(s.subrange(block_header_len(), s.len() as int) =~= b.payload);
    assert(spec_block_dec(spec_block_bytes(b))->Some_0 =~= b.with_status(Status::Processing));
}

/// A block as the state manager handles it. Produced externally, verified
/// and finalized here; only the state manager ever changes the status.
#[derive(Debug)]
pub struct Block {
    id: Id,
    parent_id: Id,
    height: u64,
    timestamp: u64,
    status: Status,
    payload: Vec<u8>,
}

impl View for Block {
    type V = BlockView;

    closed spec fn view(&self) -> BlockView {
        BlockView {
            id: self.id@,
            parent_id: self.parent_id@,
            height: self.height,
            timestamp: self.timestamp,
            status: self.status,
            payload: self.payload@,
        }
    }
}

impl PartialEq for Block {
    fn eq(&self, other: &Block) -> (r: bool) {
        self.id == other.id && self.parent_id == other.parent_id
            && self.height == other.height && self.timestamp == other.timestamp
            && self.status == other.status
            && crate::bytes_util::bytes_eq(&self.payload, &other.payload)
    }
}

impl vstd::std_specs::cmp::PartialEqSpecImpl for Block {
    open spec fn obeys_eq_spec() -> bool {
        true
    }

    open spec fn eq_spec(&self, other: &Block) -> bool {
        self@ =~= other@
    }
}

impl Block {
    /// Both ids are well-formed.
    pub open spec fn wf(&self) -> bool {
        self@.wf()
    }

    /// Builds a block; newly built blocks start out as `Processing`.
    pub fn new(id: Id, parent_id: Id, height: u64, timestamp: u64, payload: Vec<u8>) -> (r:
        Block)
        requires
            id.wf(),
            parent_id.wf(),
        ensures
            r@ == (BlockView {
                id: id@,
                parent_id: parent_id@,
                height,
                timestamp,
                status: Status::Processing,
                payload: payload@,
            }),
            r.wf(),
    {
        Block { id, parent_id, height, timestamp, status: Status::Processing, payload }
    }

    /// The block's own id.
    pub fn id(&self) -> (r: Id)
        ensures
            r@ == self@.id,
    {
        self.id.dup()
    }

    /// The id of the block's parent; the empty id only on the genesis block.
    pub fn parent_id(&self) -> (r: Id)
        ensures
            r@ == self@.parent_id,
    {
        self.parent_id.dup()
    }

    /// The block's height: 0 for genesis, otherwise one above its parent.
    pub fn height(&self) -> (r: u64)
        ensures
            r == self@.height,
    {
        self.height
    }

    /// The block's timestamp, in seconds since the epoch.
    pub fn timestamp(&self) -> (r: u64)
        ensures
            r == self@.timestamp,
    {
        self.timestamp
    }

    /// The block's current status.
    pub fn status(&self) -> (r: Status)
        ensures
            r == self@.status,
    {
        self.status
    }

    /// Replaces the block's status; everything else is untouched.
    pub fn set_status(&mut self, status: Status)
        ensures
            final(self)@ == old(self)@.with_status(status),
    {
        self.status = status;
        proof {
            assert(self@ =~= old(self)@.with_status(status));
        }
    }

    /// The block's opaque payload bytes.
    pub fn payload(&self) -> (r: &Vec<u8>)
        ensures
            r@ == self@.payload,
    {
        &self.payload
    }

    /// An identical copy of the block.
    pub fn dup(&self) -> (r: Block)
        ensures
            r@ == self@,
    {
        let r = Block {
            id: self.id.dup(),
            parent_id: self.parent_id.dup(),
            height: self.height,
            timestamp: self.timestamp,
            status: self.status,
            payload: crate::bytes_util::copy_range(&self.payload, 0, self.payload.len()),
        };
        proof {
            assert(self.payload@.subrange(0, self.payload@.len() as int) =~= self.payload@);
            assert(r@ =~= self@);
        }
        r
    }

    /// Serializes the block. The status is not part of the bytes.
    pub fn to_bytes(&self) -> (r: Vec<u8>)
        requires
            self.wf(),
        ensures
            r@ == spec_block_bytes(self@),
    {
        let mut r: Vec<u8> = Vec::new();
        push_bytes(&mut r, self.id.as_bytes());
        push_bytes(&mut r, self.parent_id.as_bytes());
        let height_bytes = u64_to_le_bytes(self.height);
        push_bytes(&mut r, &height_bytes);
        let timestamp_bytes = u64_to_le_bytes(self.timestamp);
        push_bytes(&mut r, &timestamp_bytes);
        push_bytes(&mut r, &self.payload);
        proof {
            assert(r@ =~= spec_block_bytes(self@));
        }
        r
    }

    /// Deserializes a block from bytes; the result carries status
    /// `Processing` until a stored status is applied. Fails exactly on
    /// inputs too short to hold the block header.
    pub fn from_bytes(b: &Vec<u8>) -> (r: Result<Block, StateError>)
        ensures
            match r {
                Ok(blk) => spec_block_dec(b@) == Some(blk@) && blk.wf(),
                Err(e) => spec_block_dec(b@) is None && e == StateError::Codec,
            },
    {
        if b.len() < ID_LEN + ID_LEN + 8 + 8 {
            return Err(StateError::Codec);
        }
        let id = Id::from_slice(&copy_range(b, 0, ID_LEN));
        let parent_id = Id::from_slice(&copy_range(b, ID_LEN, ID_LEN));
        let height_bytes = copy_range(b, 2 * ID_LEN, 8);
        let height = u64_from_le_bytes(height_bytes.as_slice());
        let timestamp_bytes = copy_range(b, 2 * ID_LEN + 8, 8);
        let timestamp = u64_from_le_bytes(timestamp_bytes.as_slice());
        let payload = copy_range(b, 2 * ID_LEN + 16, b.len() - (2 * ID_LEN + 16));
        let blk = Block { id, parent_id, height, timestamp, status: Status::Processing, payload };
        proof {
            assert(spec_block_dec(b@)->Some_0 =~= blk@);
        }
        Ok(blk)
    }
}

} // verus!
