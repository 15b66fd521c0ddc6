//! The durable-store model: a key/value capability with `get`, `put` and
//! `has`, where "not found" is a distinguishable outcome.
//!
//! The store is log-structured: `put` appends a record and a read scans from
//! the newest record backwards, so the visible value under a key is the one
//! written last. Its mathematical view is the map from each key to that
//! latest value.

use vstd::prelude::*;

use crate::bytes_util::bytes_eq;

verus! {

/// The map a record log denotes: later records shadow earlier ones.
pub open spec fn log_map(s: Seq<(Vec<u8>, Vec<u8>)>) -> Map<Seq<u8>, Seq<u8>>
    decreases s.len(),
{
    if s.len() == 0 {
        Map::empty()
    } else {
        log_map(s.drop_last()).insert(s.last().0@, s.last().1@)
    }
}

/// If position `i` holds the newest record under key `k`, the log's map
/// binds `k` to that record's value.
proof fn lemma_log_map_hit(s: Seq<(Vec<u8>, Vec<u8>)>, i: int, k: Seq<u8>)
    requires
        0 <= i < s.len(),
        s[i].0@ == k,
        forall|j: int| i < j < s.len() ==> s[j].0@ != k,
    ensures
        log_map(s).contains_key(k),
        log_map(s)[k] == s[i].1@,
    decreases s.len(),
{
    if i == s.len() - 1 {
    } else {
        lemma_log_map_hit(s.drop_last(), i, k);
    }
}

/// A key no record holds is absent from the log's map.
proof fn lemma_log_map_miss(s: Seq<(Vec<u8>, Vec<u8>)>, k: Seq<u8>)
    requires
        forall|j: int| 0 <= j < s.len() ==> s[j].0@ != k,
    ensures
        !log_map(s).contains_key(k),
    decreases s.len(),
{
    if s.len() > 0 {
        lemma_log_map_miss(s.drop_last(), k);
    }
}

/// In-memory durable-store backing: every finalized block's envelope and the
/// last-accepted pointer live here.
pub struct MemStore {
    records: Vec<(Vec<u8>, Vec<u8>)>,
}

impl View for MemStore {
    type V = Map<Seq<u8>, Seq<u8>>;

    closed spec fn view(&self) -> Map<Seq<u8>, Seq<u8>> {
        log_map(self.records@)
    }
}

impl MemStore {
    /// An empty store.
    pub fn new() -> (r: MemStore)
        ensures
            r@ == Map::<Seq<u8>, Seq<u8>>::empty(),
    {
        MemStore { records: Vec::new() }
    }

    /// Binds `key` to `value`, shadowing any earlier binding.
    pub fn put(&mut self, key: Vec<u8>, value: Vec<u8>)
        ensures
            final(self)@ == old(self)@.insert(key@, value@),
    {
        self.records.push((key, value));
        proof {
            assert(self.records@.drop_last() =~= old(self).records@);
        }
    }

    /// The value bound to `key`, or nothing if the key was never written.
    pub fn get(&self, key: &Vec<u8>) -> (r: Option<&Vec<u8>>)
        ensures
            match r {
                Some(v) => self@.contains_key(key@) && v@ == self@[key@],
                None => !self@.contains_key(key@),
            },
    {
        let mut i: usize = self.records.len();
        while i > 0
            invariant
                0 <= i <= self.records@.len(),
                forall|j: int| i <= j < self.records@.len() ==> self.records@[j].0@ != key@,
            decreases i,
        {
            i = i - 1;
            if bytes_eq(&self.records[i].0, key) {
                proof {
                    lemma_log_map_hit(self.records@, i as int, key@);
                }
                return Some(&self.records[i].1);
            }
        }
        proof {
            lemma_log_map_miss(self.records@, key@);
        }
        None
    }

    /// True iff some value is bound to `key`.
    pub fn has(&self, key: &Vec<u8>) -> (r: bool)
        ensures
            r == self@.contains_key(key@),
    {
        self.get(key).is_some()
    }
}

} // verus!
