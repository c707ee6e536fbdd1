//! The key-value store capability the host supplies, and an in-memory
//! implementation of it.
//!
//! The contract never owns its storage: the host hands a store to each
//! call. The [`Store`] trait is the capability the transition logic works
//! against, specified by the map of byte strings it holds; [`MemStore`]
//! is a verified in-memory store for harnesses and tests.

use vstd::prelude::*;

use crate::bytes::{bytes_eq, copy_bytes};

verus! {

/// A persistent byte-keyed store with get/set semantics, as the host
/// provides it.
pub trait Store {
    /// The map of byte strings this store currently holds.
    spec fn contents(&self) -> Map<Seq<u8>, Seq<u8>>;

    /// Looks up the value stored under `key`, if any.
    fn get(&self, key: &Vec<u8>) -> (r: Option<Vec<u8>>)
        ensures
            match r {
                Some(v) => self.contents().contains_key(key@) && v@ == self.contents()[key@],
                None => !self.contents().contains_key(key@),
            },
    ;

    /// Stores `value` under `key`, replacing any earlier value.
    fn set(&mut self, key: Vec<u8>, value: Vec<u8>)
        ensures
            final(self).contents() == old(self).contents().insert(key@, value@),
    ;
}

/// The map held by a list of entries in which the latest entry for a key
/// wins.
pub open spec fn map_of(s: Seq<(Vec<u8>, Vec<u8>)>) -> Map<Seq<u8>, Seq<u8>>
    decreases s.len(),
{
    if s.len() == 0 {
        Map::empty()
    } else {
        map_of(s.drop_last()).insert(s.last().0@, s.last().1@)
    }
}

proof fn lemma_map_of_found(s: Seq<(Vec<u8>, Vec<u8>)>, i: int)
    requires
        0 <= i < s.len(),
        forall|j: int| i < j < s.len() ==> s[j].0@ != s[i].0@,
    ensures
        map_of(s).contains_key(s[i].0@),
        map_of(s)[s[i].0@] == s[i].1@,
    decreases s.len(),
{
    if i < s.len() - 1 {
        lemma_map_of_found(s.drop_last(), i);
    }
}

proof fn lemma_map_of_absent(s: Seq<(Vec<u8>, Vec<u8>)>, k: Seq<u8>)
    requires
        forall|j: int| 0 <= j < s.len() ==> s[j].0@ != k,
    ensures
        !map_of(s).contains_key(k),
    decreases s.len(),
{
    if s.len() > 0 {
        lemma_map_of_absent(s.drop_last(), k);
    }
}

/// An in-memory store: entries are kept in insertion order and a lookup
/// takes the latest entry for its key.
pub struct MemStore {
    pub entries: Vec<(Vec<u8>, Vec<u8>)>,
}

impl MemStore {
    /// Creates an empty store.
    pub fn new() -> (r: MemStore)
        ensures
            r.contents() == Map::<Seq<u8>, Seq<u8>>::empty(),
    {
        MemStore { entries: Vec::new() }
    }
}

impl Store for MemStore {
    open spec fn contents(&self) -> Map<Seq<u8>, Seq<u8>> {
        map_of(self.entries@)
    }

    fn get(&self, key: &Vec<u8>) -> (r: Option<Vec<u8>>) {
        let mut i: usize = self.entries.len();
        while i > 0
            invariant
                i <= self.entries@.len(),
                forall|j: int| i <= j < self.entries@.len() ==> self.entries@[j].0@ != key@,
            decreases i,
        {
            i = i - 1;
            if bytes_eq(&self.entries[i].0, key) {
                let v = copy_bytes(&self.entries[i].1);
                proof {
                    lemma_map_of_found(self.entries@, i as int);
                }
                return Some(v);
            }
        }
        proof {
            lemma_map_of_absent(self.entries@, key@);
        }
        None
    }

    fn set(&mut self, key: Vec<u8>, value: Vec<u8>) {
        let ghost k = key@;
        let ghost v = value@;
        self.entries.push((key, value));
        proof {
            assert(self.entries@.drop_last() =~= old(self).entries@);
            assert(self.entries@.last().0@ == k && self.entries@.last().1@ == v);
        }
    }
}

} // verus!
