//! Fixed-length block identifiers with a distinguished empty sentinel.

use vstd::prelude::*;

use crate::bytes_util::bytes_eq;
use crate::bytes_util::copy_range;

verus! {

/// Number of bytes in a block id.
pub const ID_LEN: usize = 32;

/// The byte sequence of the empty ("no block") id: `ID_LEN` zero bytes.
pub open spec fn empty_id_seq() -> Seq<u8> {
    Seq::new(ID_LEN as nat, |i: int| 0u8)
}

/// Fixed-length content identifier of a block. The all-zero value is the
/// distinguished "empty" sentinel meaning "no block"; only the genesis block
/// has it as parent id.
#[derive(Debug)]
pub struct Id {
    bytes: Vec<u8>,
}

impl View for Id {
    type V = Seq<u8>;

    closed spec fn view(&self) -> Seq<u8> {
        self.bytes@
    }
}

impl PartialEq for Id {
    fn eq(&self, other: &Id) -> (r: bool) {
        bytes_eq(&self.bytes, &other.bytes)
    }
}

impl vstd::std_specs::cmp::PartialEqSpecImpl for Id {
    open spec fn obeys_eq_spec() -> bool {
        true
    }

    open spec fn eq_spec(&self, other: &Id) -> bool {
        self@ == other@
    }
}

impl Id {
    /// A well-formed id holds exactly `ID_LEN` bytes.
    pub open spec fn wf(&self) -> bool {
        self@.len() == ID_LEN
    }

    /// The empty sentinel id.
    pub fn empty() -> (r: Id)
        ensures
            r@ == empty_id_seq(),
            r.wf(),
    {
        let mut bytes: Vec<u8> = Vec::new();
        let mut i: usize = 0;
        while i < ID_LEN
            invariant
                0 <= i <= ID_LEN,
                bytes@.len() == i,
                forall|j: int| 0 <= j < i ==> bytes@[j] == 0u8,
            decreases ID_LEN - i,
        {
            bytes.push(0u8);
            i = i + 1;
        }
        proof {
            assert(bytes@ =~= empty_id_seq());
        }
        Id { bytes }
    }

    /// Builds an id from exactly `ID_LEN` bytes.
    pub fn from_slice(s: &Vec<u8>) -> (r: Id)
        requires
            s@.len() == ID_LEN,
        ensures
            r@ == s@,
            r.wf(),
    {
        let bytes = copy_range(s, 0, ID_LEN);
        proof {
            assert(s@.subrange(0, ID_LEN as int) =~= s@);
        }
        Id { bytes }
    }

    /// The raw bytes of the id.
    pub fn as_bytes(&self) -> (r: &Vec<u8>)
        ensures
            r@ == self@,
    {
        &self.bytes
    }

    /// A copy of the id's bytes, for writing to storage.
    pub fn to_vec(&self) -> (r: Vec<u8>)
        ensures
            r@ == self@,
    {
        let r = copy_range(&self.bytes, 0, self.bytes.len());
        proof {
            assert(self.bytes@.subrange(0, self.bytes@.len() as int) =~= self.bytes@);
        }
        r
    }

    /// An identical copy of the id.
    pub fn dup(&self) -> (r: Id)
        ensures
            r@ == self@,
    {
        Id { bytes: self.to_vec() }
    }

    /// True iff this id is the empty sentinel.
    pub fn is_empty_id(&self) -> (r: bool)
        requires
            self.wf(),
        ensures
            r == (self@ == empty_id_seq()),
    {
        let mut i: usize = 0;
        while i < self.bytes.len()
            invariant
                0 <= i <= self@.len(),
                self.wf(),
                forall|j: int| 0 <= j < i ==> self@[j] == 0u8,
            decreases self@.len() - i,
        {
            if self.bytes[i] != 0 {
                proof {
                    assert(self@[i as int] != empty_id_seq()[i as int]);
                }
                return false;
            }
            i = i + 1;
        }
        proof {
            assert(self@ =~= empty_id_seq());
        }
        true
    }
}

} // verus!
