//! Storing and retrieving knowledge records by their identifier.

use vstd::prelude::*;
use std::collections::HashMap;
use vstd::std_specs::hash::{spec_hash_map_iter, into_iter};
use vstd::std_specs::iter::IteratorSpec;
use super::knowledge::Knowledge;
use super::errors::KnowledgeError;

verus! {

broadcast use vstd::std_specs::hash::group_hash_axioms;

/// `listed` holds every record of `records` exactly once: as many entries
/// as records, each one a stored record, no identifier twice.
pub open spec fn lists_each_record_once(listed: Seq<Knowledge>, records: Map<u128, Knowledge>) -> bool {
    &&& listed.len() == records.len()
    &&& forall|i: int|
        0 <= i < listed.len() ==> records.contains_key(#[trigger] listed[i].id) && records[listed[i].id]
            == listed[i]
    &&& forall|i: int, j: int|
        0 <= i < listed.len() && 0 <= j < listed.len() && i != j ==> #[trigger] listed[i].id
            != #[trigger] listed[j].id
}

/// Contract for storing and retrieving knowledge, keyed on its identifier;
/// the implementation can evolve (to a database, say) without changing
/// callers.
pub trait KnowledgeRepository {
    /// The records held, by the 128-bit value of their identifier.
    spec fn records(&self) -> Map<u128, Knowledge>;

    /// Whether every insert into this repository succeeds.
    spec fn accepts_every_insert(&self) -> bool;

    /// The stored records in the order `iter` lists them. It is a function
    /// of the repository's state: a repository that has not changed lists
    /// its records in the same order again.
    spec fn listing(&self) -> Seq<Knowledge>;

    /// Stores a record under its identifier, replacing any record stored there.
    fn insert(&mut self, knowledge: Knowledge) -> (res: Result<(), KnowledgeError>)
        ensures
            old(self).accepts_every_insert() ==> res is Ok,
            res is Err ==> final(self).records() == old(self).records(),
            final(self).accepts_every_insert() == old(self).accepts_every_insert(),
            res is Ok ==> final(self).records() == old(self).records().insert(knowledge.id, knowledge),
    ;

    fn get(&self, id: &u128) -> (res: Option<&Knowledge>)
        ensures
            match res {
                Some(g) => self.records().contains_key(*id) && *g == self.records()[*id],
                None => !self.records().contains_key(*id),
            },
    ;

    fn contains(&self, id: &u128) -> (res: bool)
        ensures
            res == self.records().contains_key(*id),
    ;

    fn count(&self) -> (res: usize)
        ensures
            self.records().dom().finite(),
            res == self.records().len(),
    ;

    /// Every stored record, once each, in the repository's listing order.
    fn iter(&self) -> (res: Vec<&Knowledge>)
        ensures
            res@.map_values(|k: &Knowledge| *k) == self.listing(),
            lists_each_record_once(self.listing(), self.records()),
    ;
}

/// Knowledge kept in memory.
pub struct MemoryKnowledgeRepository {
    storage: HashMap<u128, Knowledge>,
}

impl MemoryKnowledgeRepository {
    /// Each record is stored under its own identifier.
    #[verifier::type_invariant]
    spec fn keyed_by_id(&self) -> bool {
        forall|k: u128| #[trigger] self.storage@.contains_key(k) ==> self.storage@[k].id == k
    }

    pub fn new() -> (res: Self)
        ensures
            res.records() == Map::<u128, Knowledge>::empty(),
    {
        MemoryKnowledgeRepository { storage: HashMap::new() }
    }
}

impl Default for MemoryKnowledgeRepository {
    fn default() -> (res: Self)
        ensures
            res.records() == Map::<u128, Knowledge>::empty(),
    {
        Self::new()
    }
}

impl KnowledgeRepository for MemoryKnowledgeRepository {
    open spec fn accepts_every_insert(&self) -> bool {
        true
    }

    closed spec fn records(&self) -> Map<u128, Knowledge> {
        self.storage@
    }

    /// The order in which the map's iterator yields its entries.
    closed spec fn listing(&self) -> Seq<Knowledge> {
        into_iter(spec_hash_map_iter(&self.storage)).map_values(|p: (u128, Knowledge)| p.1)
    }

    fn insert(&mut self, knowledge: Knowledge) -> (res: Result<(), KnowledgeError>)
        ensures
            res is Ok,
    {
        proof {
            use_type_invariant(&*self);
        }
        let id = knowledge.id;
        let mut storage = HashMap::new();
        std::mem::swap(&mut storage, &mut self.storage);
        storage.insert(id, knowledge);
        self.storage = storage;
        Ok(())
    }

    fn get(&self, id: &u128) -> (res: Option<&Knowledge>) {
        self.storage.get(id)
    }

    fn contains(&self, id: &u128) -> (res: bool) {
        self.storage.contains_key(id)
    }

    fn count(&self) -> (res: usize) {
        self.storage.len()
    }

    fn iter(&self) -> (res: Vec<&Knowledge>) {
        proof {
            use_type_invariant(self);
        }
        let mut res: Vec<&Knowledge> = Vec::new();
        let ghost order = into_iter(spec_hash_map_iter(&self.storage));
        for p in it: self.storage.iter()
            invariant
                it.seq().unref() == order,
                order == into_iter(spec_hash_map_iter(&self.storage)),
                res@.len() == it.index(),
                it.seq().len() == self.storage@.len(),
                it.seq().no_duplicates(),
                forall|j: int|
                    0 <= j < it.seq().len() ==> self.storage@.contains_key(*(#[trigger] it.seq()[j]).0)
                        && self.storage@[*it.seq()[j].0] == *it.seq()[j].1,
                forall|j: int| 0 <= j < res@.len() ==> res@[j] == it.seq()[j].1,
                forall|k: u128| #[trigger] self.storage@.contains_key(k) ==> self.storage@[k].id == k,
        {
            res.push(p.1);
        }
        proof {
            let listed = self.listing();
            assert(res@.map_values(|k: &Knowledge| *k) =~= listed);
            assert forall|i: int| 0 <= i < listed.len() implies self.storage@.contains_key(
                #[trigger] listed[i].id,
            ) && self.storage@[listed[i].id] == listed[i] by {
                assert(self.storage@.contains_key(order[i].0));
            }
            assert forall|i: int, j: int|
                0 <= i < listed.len() && 0 <= j < listed.len() && i != j implies #[trigger] listed[i].id
                != #[trigger] listed[j].id by {
                assert(self.storage@.contains_key(order[i].0));
                assert(self.storage@.contains_key(order[j].0));
                if listed[i].id == listed[j].id {
                    assert(order[i] == order[j]);
                }
            }
        }
        res
    }
}

} // verus!
