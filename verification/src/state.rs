//! The block state manager: owns the in-memory table of verified-but-
//! unfinalized blocks, the durable store and the preferred block id, and
//! exposes verification, lifecycle transitions and queries to the consensus
//! engine.

use vstd::prelude::*;

use crate::block::Block;
use crate::block::BlockView;
use crate::block::Status;
use crate::block::spec_block_bytes;
use crate::block::spec_block_dec;
use crate::bytes_util::bytes_eq;
use crate::bytes_util::push_bytes;
use crate::envelope::BlockWithStatus;
use crate::envelope::spec_env_bytes;
use crate::envelope::spec_env_dec;
use crate::errors::StateError;
use crate::ids::ID_LEN;
use crate::ids::Id;
use crate::ids::empty_id_seq;
use crate::store::MemStore;
use crate::VerificationStatus;

verus! {

/// The byte key of the last-accepted pointer: the ASCII bytes of
/// "last_accepted_block".
pub open spec fn last_accepted_key() -> Seq<u8> {
    seq![
        108u8, 97u8, 115u8, 116u8, 95u8, 97u8, 99u8, 99u8, 101u8, 112u8, 116u8, 101u8, 100u8,
        95u8, 98u8, 108u8, 111u8, 99u8, 107u8,
    ]
}

/// The byte key a block's envelope is stored under: a one-byte status
/// namespace tag, an ASCII '/' delimiter, then the id bytes. The two leading
/// bytes keep block keys out of band from every other key class.
pub open spec fn spec_block_key(id: Seq<u8>) -> Seq<u8> {
    seq![0u8, 47u8] + id
}

/// Builds the last-accepted pointer key.
fn last_accepted_key_vec() -> (r: Vec<u8>)
    ensures
        r@ == last_accepted_key(),
{
    let mut r: Vec<u8> = Vec::new();
    r.push(108u8);
    r.push(97u8);
    r.push(115u8);
    r.push(116u8);
    r.push(95u8);
    r.push(97u8);
    r.push(99u8);
    r.push(99u8);
    r.push(101u8);
    r.push(112u8);
    r.push(116u8);
    r.push(101u8);
    r.push(100u8);
    r.push(95u8);
    r.push(98u8);
    r.push(108u8);
    r.push(111u8);
    r.push(99u8);
    r.push(107u8);
    proof {
        assert(r@ =~= last_accepted_key());
    }
    r
}

/// Builds the durable-store key identifying a block's envelope.
fn block_with_status_key(blk_id: &Id) -> (k: Vec<u8>)
    ensures
        k@ == spec_block_key(blk_id@),
{
    let mut k: Vec<u8> = Vec::new();
    k.push(0u8);
    k.push(47u8);
    push_bytes(&mut k, blk_id.as_bytes());
    proof {
        assert(k@ =~= spec_block_key(blk_id@));
    }
    k
}

/// The verified-blocks table a record log denotes: an insertion record binds
/// the id, a removal record clears it, and later records win.
pub open spec fn vlog_map(s: Seq<(Id, Option<Block>)>) -> Map<Seq<u8>, BlockView>
    decreases s.len(),
{
    if s.len() == 0 {
        Map::empty()
    } else {
        let m = vlog_map(s.drop_last());
        match s.last().1 {
            Some(b) => m.insert(s.last().0@, b@),
            None => m.remove(s.last().0@),
        }
    }
}

/// The newest record under a key decides that key's binding.
proof fn lemma_vlog_newest(s: Seq<(Id, Option<Block>)>, i: int, k: Seq<u8>)
    requires
        0 <= i < s.len(),
        s[i].0@ == k,
        forall|j: int| i < j < s.len() ==> s[j].0@ != k,
    ensures
        match s[i].1 {
            Some(b) => vlog_map(s).contains_key(k) && vlog_map(s)[k] == b@,
            None => !vlog_map(s).contains_key(k),
        },
    decreases s.len(),
{
    if i < s.len() - 1 {
        lemma_vlog_newest(s.drop_last(), i, k);
    }
}

/// A key no record holds is absent from the table.
proof fn lemma_vlog_miss(s: Seq<(Id, Option<Block>)>, k: Seq<u8>)
    requires
        forall|j: int| 0 <= j < s.len() ==> s[j].0@ != k,
    ensures
        !vlog_map(s).contains_key(k),
    decreases s.len(),
{
    if s.len() > 0 {
        lemma_vlog_miss(s.drop_last(), k);
    }
}

/// Mathematical view of the whole state manager.
#[verifier::ext_equal]
pub ghost struct StateView {
    /// Blocks verified but not yet finalized, by id.
    pub verified: Map<Seq<u8>, BlockView>,
    /// The durable store's contents, by key.
    pub store: Map<Seq<u8>, Seq<u8>>,
    /// The consensus engine's current head choice; advisory only.
    pub preferred: Seq<u8>,
}

/// True iff the durable store already holds an envelope for this id, i.e.
/// the block carries a terminal status.
pub open spec fn spec_finalized(sv: StateView, id: Seq<u8>) -> bool {
    sv.store.contains_key(spec_block_key(id))
}

/// What looking a block up returns: the in-memory copy when one is present
/// (the fast path), otherwise the stored envelope decoded with its status
/// applied; `NotFound` when both miss, `Codec` when stored bytes are
/// corrupt.
pub open spec fn spec_resolve(sv: StateView, id: Seq<u8>) -> Result<BlockView, StateError> {
    if sv.verified.contains_key(id) {
        Ok(sv.verified[id])
    } else if !sv.store.contains_key(spec_block_key(id)) {
        Err(StateError::NotFound)
    } else {
        match spec_env_dec(sv.store[spec_block_key(id)]) {
            None => Err(StateError::Codec),
            Some(env) => match spec_block_dec(env.0) {
                None => Err(StateError::Codec),
                Some(bv) => Ok(bv.with_status(env.1)),
            },
        }
    }
}

/// What the last-accepted query returns: the stored pointer, or the empty id
/// when nothing was ever accepted. A pointer of the wrong length is
/// corruption.
pub open spec fn spec_last_accepted(sv: StateView) -> Result<Seq<u8>, StateError> {
    if sv.store.contains_key(last_accepted_key()) {
        if sv.store[last_accepted_key()].len() == ID_LEN {
            Ok(sv.store[last_accepted_key()])
        } else {
            Err(StateError::Codec)
        }
    } else {
        Ok(empty_id_seq())
    }
}

/// The genesis block: height 0 and the empty parent id.
pub open spec fn spec_is_genesis(b: BlockView) -> bool {
    b.height == 0 && b.parent_id == empty_id_seq()
}

/// The verification rules, evaluated in order, first match wins. `now_unix`
/// is the local clock in seconds since the epoch.
pub open spec fn spec_verify(sv: StateView, b: BlockView, now_unix: u64) -> Result<
    VerificationStatus,
    StateError,
> {
    if spec_is_genesis(b) {
        Ok(VerificationStatus::Genesis)
    } else if spec_resolve(sv, b.id) is Ok {
        Ok(VerificationStatus::AlreadyAdded)
    } else {
        match spec_resolve(sv, b.parent_id) {
            Err(e) => Err(e),
            Ok(p) => if p.height as int != b.height as int - 1 {
                Ok(VerificationStatus::InvalidBlockHeight)
            } else if p.timestamp > b.timestamp {
                Ok(VerificationStatus::TimestampGreaterThanParent)
            } else if b.timestamp as int >= now_unix as int + 3600 {
                Ok(VerificationStatus::TimestampGreaterThanLocal)
            } else {
                Ok(VerificationStatus::Verified)
            },
        }
    }
}

/// The state after a block's envelope is written under the block's key.
pub open spec fn spec_write_block(sv: StateView, b: BlockView) -> StateView {
    StateView {
        store: sv.store.insert(spec_block_key(b.id), spec_env_bytes(spec_block_bytes(b), b.status)),
        ..sv
    }
}

/// The state after accepting a block: its envelope stored as Accepted, the
/// last-accepted pointer moved to it, and its in-memory entry dropped.
pub open spec fn spec_accept(sv: StateView, b: BlockView) -> StateView {
    StateView {
        verified: sv.verified.remove(b.id),
        store: sv.store.insert(
            spec_block_key(b.id),
            spec_env_bytes(spec_block_bytes(b.with_status(Status::Accepted)), Status::Accepted),
        ).insert(last_accepted_key(), b.id),
        preferred: sv.preferred,
    }
}

/// The state after rejecting a block: its envelope stored as Rejected and
/// its in-memory entry dropped. The last-accepted pointer is untouched.
pub open spec fn spec_reject(sv: StateView, b: BlockView) -> StateView {
    StateView {
        verified: sv.verified.remove(b.id),
        store: sv.store.insert(
            spec_block_key(b.id),
            spec_env_bytes(spec_block_bytes(b.with_status(Status::Rejected)), Status::Rejected),
        ),
        preferred: sv.preferred,
    }
}

/// Manages block and chain states, both in-memory and persistent. The
/// in-memory table is a record log with removal records; the durable store
/// holds finalized envelopes and the last-accepted pointer.
pub struct State {
    verified_blocks: Vec<(Id, Option<Block>)>,
    store: MemStore,
    preferred: Id,
}

impl View for State {
    type V = StateView;

    closed spec fn view(&self) -> StateView {
        StateView {
            verified: vlog_map(self.verified_blocks@),
            store: self.store@,
            preferred: self.preferred@,
        }
    }
}

impl Default for State {
    /// A fresh manager: nothing verified, nothing stored, no preference.
    fn default() -> (r: State)
        ensures
            r@.verified == Map::<Seq<u8>, BlockView>::empty(),
            r@.store == Map::<Seq<u8>, Seq<u8>>::empty(),
            r@.preferred == empty_id_seq(),
            r.wf(),
    {
        State { verified_blocks: Vec::new(), store: MemStore::new(), preferred: Id::empty() }
    }
}

impl State {
    /// Every id in the table is well-formed and every insertion record holds
    /// a well-formed block filed under its own id.
    pub closed spec fn wf(&self) -> bool {
        &&& self.preferred.wf()
        &&& forall|i: int|
            0 <= i < self.verified_blocks@.len() ==> (#[trigger] self.verified_blocks@[i]).0.wf()
        &&& forall|i: int|
            0 <= i < self.verified_blocks@.len() ==> match (
            #[trigger] self.verified_blocks@[i]).1 {
                Some(b) => b.wf() && b@.id == self.verified_blocks@[i].0@,
                None => true,
            }
    }

    /// The in-memory copy of an unfinalized block, if one is present.
    fn find_verified(&self, blk_id: &Id) -> (r: Option<&Block>)
        requires
            self.wf(),
        ensures
            match r {
                Some(b) => self@.verified.contains_key(blk_id@) && b@ == self@.verified[blk_id@]
                    && b.wf(),
                None => !self@.verified.contains_key(blk_id@),
            },
    {
        let mut i: usize = self.verified_blocks.len();
        while i > 0
            invariant
                0 <= i <= self.verified_blocks@.len(),
                self.wf(),
                forall|j: int|
                    i <= j < self.verified_blocks@.len() ==> self.verified_blocks@[j].0@
                        != blk_id@,
            decreases i,
        {
            i = i - 1;
            if bytes_eq(self.verified_blocks[i].0.as_bytes(), blk_id.as_bytes()) {
                proof {
                    lemma_vlog_newest(self.verified_blocks@, i as int, blk_id@);
                }
                match &self.verified_blocks[i].1 {
                    Some(b) => {
                        return Some(b);
                    },
                    None => {
                        return None;
                    },
                }
            }
        }
        proof {
            lemma_vlog_miss(self.verified_blocks@, blk_id@);
        }
        None
    }

    /// Records a block as verified but not yet finalized.
    pub fn add_verified(&mut self, block: &Block)
        requires
            old(self).wf(),
            block.wf(),
        ensures
            final(self).wf(),
            final(self)@.verified == old(self)@.verified.insert(block@.id, block@),
            final(self)@.store == old(self)@.store,
            final(self)@.preferred == old(self)@.preferred,
    {
        let blk_id = block.id();
        self.verified_blocks.push((blk_id, Some(block.dup())));
        proof {
            assert(self.verified_blocks@.drop_last() =~= old(self).verified_blocks@);
        }
    }

    /// Drops a block from the verified table; a no-op on absent ids.
    pub fn remove_verified(&mut self, blk_id: &Id)
        requires
            old(self).wf(),
            blk_id.wf(),
        ensures
            final(self).wf(),
            final(self)@.verified == old(self)@.verified.remove(blk_id@),
            final(self)@.store == old(self)@.store,
            final(self)@.preferred == old(self)@.preferred,
    {
        self.verified_blocks.push((blk_id.dup(), None));
        proof {
            assert(self.verified_blocks@.drop_last() =~= old(self).verified_blocks@);
        }
    }

    /// True iff the id sits in the verified table; the durable store is not
    /// consulted.
    pub fn has_verified(&self, blk_id: &Id) -> (r: bool)
        requires
            self.wf(),
        ensures
            r == self@.verified.contains_key(blk_id@),
    {
        self.find_verified(blk_id).is_some()
    }

    /// Records the consensus engine's current head choice, unconditionally;
    /// the id is not checked against any table.
    pub fn set_preferred(&mut self, blk_id: &Id) -> (r: Result<(), StateError>)
        requires
            old(self).wf(),
            blk_id.wf(),
        ensures
            r is Ok,
            final(self).wf(),
            final(self)@.preferred == blk_id@,
            final(self)@.verified == old(self)@.verified,
            final(self)@.store == old(self)@.store,
    {
        self.preferred = blk_id.dup();
        Ok(())
    }

    /// The consensus engine's current head choice.
    pub fn preferred(&self) -> (r: Id)
        requires
            self.wf(),
        ensures
            r@ == self@.preferred,
            r.wf(),
    {
        self.preferred.dup()
    }

    /// Persists the last-accepted pointer.
    pub fn set_last_accepted_block(&mut self, blk_id: &Id) -> (r: Result<(), StateError>)
        requires
            old(self).wf(),
            blk_id.wf(),
        ensures
            r is Ok,
            final(self).wf(),
            final(self)@.store == old(self)@.store.insert(last_accepted_key(), blk_id@),
            final(self)@.verified == old(self)@.verified,
            final(self)@.preferred == old(self)@.preferred,
    {
        let key = last_accepted_key_vec();
        self.store.put(key, blk_id.to_vec());
        Ok(())
    }

    /// True iff some block was ever accepted.
    pub fn has_last_accepted_block(&self) -> (r: Result<bool, StateError>)
        ensures
            r == Ok::<bool, StateError>(self@.store.contains_key(last_accepted_key())),
    {
        let key = last_accepted_key_vec();
        Ok(self.store.has(&key))
    }

    /// The last-accepted block id, or the empty id when no block was ever
    /// accepted. A stored pointer of the wrong length is surfaced as
    /// corruption, never swallowed.
    pub fn get_last_accepted_block_id(&self) -> (r: Result<Id, StateError>)
        ensures
            match r {
                Ok(id) => spec_last_accepted(self@) == Ok::<Seq<u8>, StateError>(id@) && id.wf(),
                Err(e) => spec_last_accepted(self@) == Err::<Seq<u8>, StateError>(e),
            },
    {
        let key = last_accepted_key_vec();
        match self.store.get(&key) {
            Some(v) => {
                if v.len() == ID_LEN {
                    Ok(Id::from_slice(v))
                } else {
                    Err(StateError::Codec)
                }
            },
            None => Ok(Id::empty()),
        }
    }

    /// Writes the block's envelope, carrying the block's current status, to
    /// the durable store under the block's key.
    pub fn write_block(&mut self, block: &Block) -> (r: Result<(), StateError>)
        requires
            old(self).wf(),
            block.wf(),
        ensures
            r is Ok,
            final(self).wf(),
            final(self)@ == spec_write_block(old(self)@, block@),
    {
        let blk_id = block.id();
        let blk_bytes = block.to_bytes();
        let env = BlockWithStatus { block_bytes: blk_bytes, status: block.status() };
        let env_bytes = env.encode();
        let key = block_with_status_key(&blk_id);
        self.store.put(key, env_bytes);
        proof {
            assert(self@ =~= spec_write_block(old(self)@, block@));
        }
        Ok(())
    }

    /// Looks a block up: the in-memory table first (the fast path), then the
    /// durable store, decoding the envelope and applying the stored status.
    pub fn get_block(&self, blk_id: &Id) -> (r: Result<Block, StateError>)
        requires
            self.wf(),
            blk_id.wf(),
        ensures
            match r {
                Ok(b) => spec_resolve(self@, blk_id@) == Ok::<BlockView, StateError>(b@) && b.wf(),
                Err(e) => spec_resolve(self@, blk_id@) == Err::<BlockView, StateError>(e),
            },
    {
        if let Some(b) = self.find_verified(blk_id) {
            return Ok(b.dup());
        }
        let key = block_with_status_key(blk_id);
        let env_bytes = match self.store.get(&key) {
            Some(v) => v,
            None => {
                return Err(StateError::NotFound);
            },
        };
        let env = match BlockWithStatus::from_slice(env_bytes) {
            Ok(env) => env,
            Err(e) => {
                return Err(e);
            },
        };
        let mut blk = match Block::from_bytes(&env.block_bytes) {
            Ok(b) => b,
            Err(e) => {
                return Err(e);
            },
        };
        blk.set_status(env.status);
        Ok(blk)
    }

    /// Applies the verification rules to a block, in order, first match
    /// wins; reads state but never changes it. A missing parent is the
    /// caller's fault and surfaces as an error, not a status.
    pub fn verify_block(&self, block: &Block, now_unix: u64) -> (r: Result<
        VerificationStatus,
        StateError,
    >)
        requires
            self.wf(),
            block.wf(),
        ensures
            r == spec_verify(self@, block@, now_unix),
    {
        let parent_id = block.parent_id();
        if block.height() == 0 && parent_id.is_empty_id() {
            return Ok(VerificationStatus::Genesis);
        }
        let blk_id = block.id();
        if self.get_block(&blk_id).is_ok() {
            return Ok(VerificationStatus::AlreadyAdded);
        }
        let parent_blk = match self.get_block(&parent_id) {
            Ok(b) => b,
            Err(e) => {
                return Err(e);
            },
        };
        if block.height() == 0 || parent_blk.height() != block.height() - 1 {
            return Ok(VerificationStatus::InvalidBlockHeight);
        }
        if parent_blk.timestamp() > block.timestamp() {
            return Ok(VerificationStatus::TimestampGreaterThanParent);
        }
        if now_unix <= u64::MAX - 3600 && block.timestamp() >= now_unix + 3600 {
            return Ok(VerificationStatus::TimestampGreaterThanLocal);
        }
        Ok(VerificationStatus::Verified)
    }

    /// Finalizes a block as Accepted: stores its envelope, moves the
    /// last-accepted pointer to it, then drops it from the verified table.
    /// Finalization is one-shot: an id that already carries a terminal
    /// status is refused untouched.
    pub fn accept_block(&mut self, block: &Block) -> (r: Result<(), StateError>)
        requires
            old(self).wf(),
            block.wf(),
        ensures
            final(self).wf(),
            r is Ok <==> !spec_finalized(old(self)@, block@.id),
            r is Ok ==> final(self)@ == spec_accept(old(self)@, block@),
            r is Err ==> r->Err_0 == StateError::AlreadyFinalized && final(self)@ == old(self)@,
    {
        let blk_id = block.id();
        let key = block_with_status_key(&blk_id);
        if self.store.has(&key) {
            return Err(StateError::AlreadyFinalized);
        }
        let mut blk = block.dup();
        blk.set_status(Status::Accepted);
        self.write_block(&blk)?;
        self.set_last_accepted_block(&blk_id)?;
        self.remove_verified(&blk_id);
        proof {
            assert(self@ =~= spec_accept(old(self)@, block@));
        }
        Ok(())
    }

    /// Finalizes a block as Rejected: stores its envelope for auditability
    /// and anti-replay, then drops it from the verified table. The
    /// last-accepted pointer is untouched, and an id that already carries a
    /// terminal status is refused untouched.
    pub fn reject_block(&mut self, block: &Block) -> (r: Result<(), StateError>)
        requires
            old(self).wf(),
            block.wf(),
        ensures
            final(self).wf(),
            r is Ok <==> !spec_finalized(old(self)@, block@.id),
            r is Ok ==> final(self)@ == spec_reject(old(self)@, block@),
            r is Err ==> r->Err_0 == StateError::AlreadyFinalized && final(self)@ == old(self)@,
    {
        let blk_id = block.id();
        let key = block_with_status_key(&blk_id);
        if self.store.has(&key) {
            return Err(StateError::AlreadyFinalized);
        }
        let mut blk = block.dup();
        blk.set_status(Status::Rejected);
        self.write_block(&blk)?;
        self.remove_verified(&blk_id);
        proof {
            assert(self@ =~= spec_reject(old(self)@, block@));
        }
        Ok(())
    }
}

} // verus!
