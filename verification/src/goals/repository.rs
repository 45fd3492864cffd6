//! Storing and retrieving goals by their identifier.

use vstd::prelude::*;
use std::collections::HashMap;
use vstd::std_specs::hash::{spec_hash_map_iter, into_iter};
use vstd::std_specs::iter::IteratorSpec;
use super::goal::Goal;
use super::goal_id::GoalId;
use super::errors::GoalError;

verus! {

broadcast use vstd::std_specs::hash::group_hash_axioms;

/// `listed` holds every goal of `goals` exactly once: as many entries as
/// goals, each one a stored goal, no identifier twice.
pub open spec fn lists_each_goal_once(listed: Seq<Goal>, goals: Map<u128, Goal>) -> bool {
    &&& listed.len() == goals.len()
    &&& forall|i: int|
        0 <= i < listed.len() ==> goals.contains_key(#[trigger] listed[i].id.0) && goals[listed[i].id.0]
            == listed[i]
    &&& forall|i: int, j: int|
        0 <= i < listed.len() && 0 <= j < listed.len() && i != j ==> #[trigger] listed[i].id
            != #[trigger] listed[j].id
}

/// Storing a value under a key that is already in use replaces the value
/// and leaves the count as it was; a new key adds one.
pub proof fn lemma_insert_count<V>(stored: Map<u128, V>, id: u128, value: V)
    requires
        stored.dom().finite(),
    ensures
        stored.insert(id, value).len() == if stored.contains_key(id) {
            stored.len()
        } else {
            stored.len() + 1
        },
        stored.insert(id, value)[id] == value,
{
    assert(stored.insert(id, value).dom() =~= stored.dom().insert(id));
}

/// Contract for storing and retrieving goals, keyed on their identifier.
pub trait GoalRepository {
    /// The goals held, by the 128-bit value of their identifier.
    spec fn goals(&self) -> Map<u128, Goal>;

    /// Whether every insert into this repository succeeds.
    spec fn accepts_every_insert(&self) -> bool;

    /// The stored goals in the order `iter` lists them. It is a function of
    /// the repository's state: a repository that has not changed lists its
    /// goals in the same order again.
    spec fn listing(&self) -> Seq<Goal>;

    /// Stores a goal under its identifier, replacing any goal stored there.
    fn insert(&mut self, goal: Goal) -> (res: Result<(), GoalError>)
        ensures
            old(self).accepts_every_insert() ==> res is Ok,
            res is Err ==> final(self).goals() == old(self).goals(),
            final(self).accepts_every_insert() == old(self).accepts_every_insert(),
            res is Ok ==> final(self).goals() == old(self).goals().insert(goal.id.0, goal),
    ;

    fn get(&self, id: &GoalId) -> (res: Option<&Goal>)
        ensures
            match res {
                Some(g) => self.goals().contains_key(id.0) && *g == self.goals()[id.0],
                None => !self.goals().contains_key(id.0),
            },
    ;

    fn contains(&self, id: &GoalId) -> (res: bool)
        ensures
            res == self.goals().contains_key(id.0),
    ;

    fn count(&self) -> (res: usize)
        ensures
            self.goals().dom().finite(),
            res == self.goals().len(),
    ;

    /// Every stored goal, once each, in the repository's listing order.
    fn iter(&self) -> (res: Vec<&Goal>)
        ensures
            res@.map_values(|g: &Goal| *g) == self.listing(),
            lists_each_goal_once(self.listing(), self.goals()),
    ;
}

/// Goals kept in memory.
pub struct MemoryGoalRepository {
    storage: HashMap<u128, Goal>,
}

impl MemoryGoalRepository {
    /// Each goal is stored under its own identifier.
    #[verifier::type_invariant]
    spec fn keyed_by_id(&self) -> bool {
        forall|k: u128| #[trigger] self.storage@.contains_key(k) ==> self.storage@[k].id.0 == k
    }

    pub fn new() -> (res: Self)
        ensures
            res.goals() == Map::<u128, Goal>::empty(),
    {
        MemoryGoalRepository { storage: HashMap::new() }
    }
}

impl Default for MemoryGoalRepository {
    fn default() -> (res: Self)
        ensures
            res.goals() == Map::<u128, Goal>::empty(),
    {
        Self::new()
    }
}

impl GoalRepository for MemoryGoalRepository {
    open spec fn accepts_every_insert(&self) -> bool {
        true
    }

    closed spec fn goals(&self) -> Map<u128, Goal> {
        self.storage@
    }

    /// The order in which the map's iterator yields its entries.
    closed spec fn listing(&self) -> Seq<Goal> {
        into_iter(spec_hash_map_iter(&self.storage)).map_values(|p: (u128, Goal)| p.1)
    }

    fn insert(&mut self, goal: Goal) -> (res: Result<(), GoalError>)
        ensures
            res is Ok,
    {
        proof {
            use_type_invariant(&*self);
        }
        let id = goal.id.0;
        let mut storage = HashMap::new();
        std::mem::swap(&mut storage, &mut self.storage);
        storage.insert(id, goal);
        self.storage = storage;
        Ok(())
    }

    fn get(&self, id: &GoalId) -> (res: Option<&Goal>) {
        self.storage.get(&id.0)
    }

    fn contains(&self, id: &GoalId) -> (res: bool) {
        self.storage.contains_key(&id.0)
    }

    fn count(&self) -> (res: usize) {
        self.storage.len()
    }

    fn iter(&self) -> (res: Vec<&Goal>) {
        proof {
            use_type_invariant(self);
        }
        let mut res: Vec<&Goal> = Vec::new();
        let ghost order = into_iter(spec_hash_map_iter(&self.storage));
        for p in it: self.storage.iter()
            invariant
                it.seq().unref() == order,
                order == into_iter(spec_hash_map_iter(&self.storage)),
                res@.len() == it.index(),
                it.seq().len() == self.storage@.len(),
                it.seq().no_duplicates(),
                forall|j: int|
                    0 <= j < it.seq().len() ==> self.storage@.contains_key(*(#[trigger] it.seq()[j]).0)
                        && self.storage@[*it.seq()[j].0] == *it.seq()[j].1,
                forall|j: int| 0 <= j < res@.len() ==> res@[j] == it.seq()[j].1,
                forall|k: u128| #[trigger] self.storage@.contains_key(k) ==> self.storage@[k].id.0 == k,
        {
            res.push(p.1);
        }
        proof {
            let listed = self.listing();
            assert(res@.map_values(|g: &Goal| *g) =~= listed);
            assert forall|i: int| 0 <= i < listed.len() implies self.storage@.contains_key(
                #[trigger] listed[i].id.0,
            ) && self.storage@[listed[i].id.0] == listed[i] by {
                assert(self.storage@.contains_key(order[i].0));
            }
            assert forall|i: int, j: int|
                0 <= i < listed.len() && 0 <= j < listed.len() && i != j implies #[trigger] listed[i].id
                != #[trigger] listed[j].id by {
                assert(self.storage@.contains_key(order[i].0));
                assert(self.storage@.contains_key(order[j].0));
                if listed[i].id == listed[j].id {
                    assert(order[i] == order[j]);
                }
            }
        }
        res
    }
}

} // verus!
