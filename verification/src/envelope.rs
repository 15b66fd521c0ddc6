//! The persistence envelope: the only form ever written to the durable
//! store. It pairs a block's opaque bytes with the block's status.
//!
//! The encoding is self-describing: the ASCII field name `block_bytes`, the
//! payload length (8 bytes, little endian), the payload itself, the ASCII
//! field name `status`, then a one-byte status tag. Decoding rejects unknown
//! status tags instead of defaulting.

use vstd::prelude::*;
use vstd::bytes::lemma_auto_spec_u64_to_from_le_bytes;
use vstd::bytes::spec_u64_from_le_bytes;
use vstd::bytes::spec_u64_to_le_bytes;
use vstd::bytes::u64_from_le_bytes;
use vstd::bytes::u64_to_le_bytes;

use crate::block::Status;
use crate::bytes_util::copy_range;
use crate::bytes_util::push_bytes;
use crate::bytes_util::range_eq;
use crate::errors::StateError;

verus! {

/// The ASCII bytes of the field name "block_bytes".
pub open spec fn name_block_bytes() -> Seq<u8> {
    seq![98u8, 108u8, 111u8, 99u8, 107u8, 95u8, 98u8, 121u8, 116u8, 101u8, 115u8]
}

/// The ASCII bytes of the field name "status".
pub open spec fn name_status() -> Seq<u8> {
    seq![115u8, 116u8, 97u8, 116u8, 117u8, 115u8]
}

/// The wire tag of each status value.
pub open spec fn status_tag(s: Status) -> u8 {
    match s {
        Status::Processing => 0u8,
        Status::Accepted => 1u8,
        Status::Rejected => 2u8,
    }
}

/// The status a wire tag stands for; unknown tags decode to nothing.
pub open spec fn tag_status(t: u8) -> Option<Status> {
    if t == 0 {
        Some(Status::Processing)
    } else if t == 1 {
        Some(Status::Accepted)
    } else if t == 2 {
        Some(Status::Rejected)
    } else {
        None
    }
}

/// Bytes an envelope adds around its payload: both field names, the length
/// field and the status tag.
pub open spec fn envelope_overhead() -> int {
    (11 + 8 + 6 + 1) as int
}

/// The byte encoding of an envelope.
pub open spec fn spec_env_bytes(block_bytes: Seq<u8>, status: Status) -> Seq<u8> {
    name_block_bytes() + spec_u64_to_le_bytes(block_bytes.len() as u64) + block_bytes
        + name_status() + seq![status_tag(status)]
}

/// Decodes an envelope: both field names must sit at their places, the
/// length field must match the payload length, and the status tag must be a
/// known one.
pub open spec fn spec_env_dec(s: Seq<u8>) -> Option<(Seq<u8>, Status)> {
    if s.len() < envelope_overhead() {
        None
    } else {
        let blen = s.len() - envelope_overhead();
        if s.subrange(0, 11) == name_block_bytes() && spec_u64_from_le_bytes(
            s.subrange(11, 19),
        ) == blen && s.subrange(19 + blen, 25 + blen) == name_status() {
            match tag_status(s[25 + blen]) {
                Some(st) => Some((s.subrange(19, 19 + blen), st)),
                None => None,
            }
        } else {
            None
        }
    }
}

/// Decoding inverts encoding, for every payload and every status value.
pub proof fn lemma_envelope_round_trip(block_bytes: Seq<u8>, status: Status)
    requires
        block_bytes.len() <= u64::MAX,
    ensures
        spec_env_dec(spec_env_bytes(block_bytes, status)) == Some((block_bytes, status)),
{
    lemma_auto_spec_u64_to_from_le_bytes();
    let s = spec_env_bytes(block_bytes, status);
    let blen = block_bytes.len() as int;
    assert(s.len() == envelope_overhead() + blen);
    assert(s.subrange(0, 11) =~= name_block_bytes());
    assert(s.subrange(11, 19) =~= spec_u64_to_le_bytes(block_bytes.len() as u64));
    assert(s.subrange(19 + blen, 25 + blen) =~= name_status());
    assert(s[25 + blen] == status_tag(status));
    assert(s.subrange(19, 19 + blen) =~= block_bytes);
}

/// Builds the field name "block_bytes" as a vector.
fn name_block_bytes_vec() -> (r: Vec<u8>)
    ensures
        r@ == name_block_bytes(),
{
    let mut r: Vec<u8> = Vec::new();
    r.push(98u8);
    r.push(108u8);
    r.push(111u8);
    r.push(99u8);
    r.push(107u8);
    r.push(95u8);
    r.push(98u8);
    r.push(121u8);
    r.push(116u8);
    r.push(101u8);
    r.push(115u8);
    proof {
        assert(r@ =~= name_block_bytes());
    }
    r
}

/// Builds the field name "status" as a vector.
fn name_status_vec() -> (r: Vec<u8>)
    ensures
        r@ == name_status(),
{
    let mut r: Vec<u8> = Vec::new();
    r.push(115u8);
    r.push(116u8);
    r.push(97u8);
    r.push(116u8);
    r.push(117u8);
    r.push(115u8);
    proof {
        assert(r@ =~= name_status());
    }
    r
}

/// Wraps a block's bytes and its status: the record the state manager
/// persists under the block's key.
pub struct BlockWithStatus {
    pub block_bytes: Vec<u8>,
    pub status: Status,
}

impl BlockWithStatus {
    /// Serializes the envelope. Never fails.
    pub fn encode(&self) -> (r: Vec<u8>)
        ensures
            r@ == spec_env_bytes(self.block_bytes@, self.status),
    {
        let mut r = name_block_bytes_vec();
        let len_bytes = u64_to_le_bytes(self.block_bytes.len() as u64);
        push_bytes(&mut r, &len_bytes);
        push_bytes(&mut r, &self.block_bytes);
        let name2 = name_status_vec();
        push_bytes(&mut r, &name2);
        let tag: u8 = match self.status {
            Status::Processing => 0u8,
            Status::Accepted => 1u8,
            Status::Rejected => 2u8,
        };
        r.push(tag);
        proof {
            assert(r@ =~= spec_env_bytes(self.block_bytes@, self.status));
        }
        r
    }

    /// Deserializes an envelope. Fails exactly on inputs that are too short,
    /// misname a field, carry a wrong length field, or carry an unknown
    /// status tag.
    pub fn from_slice(d: &Vec<u8>) -> (r: Result<BlockWithStatus, StateError>)
        ensures
            match r {
                Ok(env) => spec_env_dec(d@) == Some((env.block_bytes@, env.status)),
                Err(e) => spec_env_dec(d@) is None && e == StateError::Codec,
            },
    {
        if d.len() < 26 {
            return Err(StateError::Codec);
        }
        let blen = d.len() - 26;
        let name1 = name_block_bytes_vec();
        if !range_eq(d, 0, &name1) {
            return Err(StateError::Codec);
        }
        let len_bytes = copy_range(d, 11, 8);
        let len_field = u64_from_le_bytes(len_bytes.as_slice());
        if len_field != blen as u64 {
            return Err(StateError::Codec);
        }
        let name2 = name_status_vec();
        if !range_eq(d, 19 + blen, &name2) {
            return Err(StateError::Codec);
        }
        let tag = d[25 + blen];
        let status = if tag == 0 {
            Status::Processing
        } else if tag == 1 {
            Status::Accepted
        } else if tag == 2 {
            Status::Rejected
        } else {
            return Err(StateError::Codec);
        };
        let block_bytes = copy_range(d, 19, blen);
        let env = BlockWithStatus { block_bytes, status };
        proof {
            assert(spec_env_dec(d@)->Some_0 == (env.block_bytes@, env.status));
        }
        Ok(env)
    }
}

} // verus!
