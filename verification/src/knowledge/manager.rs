//! Recording knowledge: build it from the command's evidence, store it, and
//! announce it.
//!
//! Publishing is the caller's part: `handle` returns the `knowledge.created`
//! event to publish.

use vstd::prelude::*;
use crate::ids::{is_random_uuid, uuid_text, uuid_to_string};
use crate::json::{json_object, json_object_text, pairs_view, distinct_keys};
use crate::protocol::envelope::{AespEnvelope, create_event, is_event};
use super::category::category_label;
use super::command::StoreKnowledgeCommand;
use super::knowledge::Knowledge;
use super::errors::KnowledgeError;
use crate::goals::repository::lemma_insert_count;
use super::repository::{KnowledgeRepository, MemoryKnowledgeRepository, lists_each_record_once};

verus! {

/// The members of the `knowledge.created` event.
pub open spec fn knowledge_created_fields(k: Knowledge) -> Seq<(Seq<char>, Seq<char>)> {
    seq![("knowledge_id"@, uuid_text(k.id)), ("category"@, category_label(k.category)), ("title"@, k.title@)]
}

fn knowledge_created_payload(k: &Knowledge) -> (res: String)
    ensures
        res@ == json_object_text(knowledge_created_fields(*k)),
{
    let mut fields: Vec<(String, String)> = Vec::new();
    fields.push((String::from_str("knowledge_id"), uuid_to_string(k.id)));
    fields.push((String::from_str("category"), k.category.to_string()));
    fields.push((String::from_str("title"), k.title.clone()));
    proof {
        reveal_strlit("knowledge_id");
        reveal_strlit("category");
        reveal_strlit("title");
        assert("knowledge_id"@.len() != "category"@.len());
        assert("knowledge_id"@.len() != "title"@.len());
        assert("category"@.len() != "title"@.len());
        assert(pairs_view(fields@) =~= knowledge_created_fields(*k));
    }
    assert(distinct_keys(pairs_view(fields@)));
    json_object(&fields)
}

/// Records knowledge in a repository of the caller's choice.
pub struct KnowledgeManager<R: KnowledgeRepository> {
    repository: R,
}

impl<R: KnowledgeRepository> KnowledgeManager<R> {
    /// The records in the manager's repository.
    pub closed spec fn records(&self) -> Map<u128, Knowledge> {
        self.repository.records()
    }

    /// Whether the manager's repository accepts every insert.
    pub closed spec fn accepts_every_insert(&self) -> bool {
        self.repository.accepts_every_insert()
    }

    pub fn new(repository: R) -> (res: Self)
        ensures
            res.records() == repository.records(),
            res.accepts_every_insert() == repository.accepts_every_insert(),
    {
        KnowledgeManager { repository }
    }

    /// Builds knowledge from the command's evidence, stores it and returns
    /// its identifier with the `knowledge.created` event to publish. An
    /// error from the repository is passed on.
    pub fn handle(&mut self, command: StoreKnowledgeCommand) -> (res: Result<(u128, AespEnvelope), KnowledgeError>)
        ensures
            final(self).accepts_every_insert() == old(self).accepts_every_insert(),
            old(self).accepts_every_insert() ==> res is Ok,
            res is Err ==> final(self).records() == old(self).records(),
            res matches Ok((id, env)) ==> {
                let k = final(self).records()[id];
                &&& final(self).records() == old(self).records().insert(id, k)
                &&& old(self).records().dom().finite() ==> final(self).records().len() == old(
                    self,
                ).records().len() + if old(self).records().contains_key(id) {
                    0int
                } else {
                    1int
                }
                &&& k.id == id
                &&& is_random_uuid(id)
                &&& k.title == command.title
                &&& k.category == command.category
                &&& k.source == command.source
                &&& k.evidence@ == seq![command.evidence]
                &&& is_event(
                    env,
                    "knowledge_manager"@,
                    "knowledge.created"@,
                    json_object_text(knowledge_created_fields(k)),
                )
            },
    {
        let StoreKnowledgeCommand { title, category, source, evidence } = command;
        let knowledge = match Knowledge::from_evidence(title, category, source, evidence) {
            Ok(k) => k,
            Err(e) => return Err(e),
        };
        let id = knowledge.id;
        let payload = knowledge_created_payload(&knowledge);
        match self.repository.insert(knowledge) {
            Ok(()) => {},
            Err(e) => return Err(e),
        }
        proof {
            if old(self).records().dom().finite() {
                lemma_insert_count(old(self).records(), id, self.records()[id]);
            }
        }
        Ok((id, create_event("knowledge_manager", "knowledge.created", payload)))
    }

    /// The number of records stored.
    pub fn count(&self) -> (res: usize)
        ensures
            self.records().dom().finite(),
            res == self.records().len(),
    {
        self.repository.count()
    }

    /// The stored records in the order the repository lists them.
    pub closed spec fn listing(&self) -> Seq<Knowledge> {
        self.repository.listing()
    }

    /// The titles of all stored records, one per record, in the
    /// repository's listing order (the same order again while nothing is
    /// stored).
    pub fn titles(&self) -> (res: Vec<String>)
        ensures
            res@ == self.listing().map_values(|k: Knowledge| k.title),
            lists_each_record_once(self.listing(), self.records()),
    {
        let listed = self.repository.iter();
        let n = listed.len();
        let mut res: Vec<String> = Vec::new();
        let mut i: usize = 0;
        while i < n
            invariant
                n == listed@.len(),
                i <= n,
                res@.len() == i,
                forall|j: int| 0 <= j < i ==> #[trigger] res@[j] == listed@[j].title,
            decreases n - i,
        {
            res.push(listed[i].title.clone());
            i = i + 1;
        }
        proof {
            assert(listed@.map_values(|k: &Knowledge| *k) == self.listing());
            assert(res@ =~= self.listing().map_values(|k: Knowledge| k.title)) by {
                assert forall|j: int| 0 <= j < n implies res@[j] == self.listing()[j].title by {
                    assert(listed@.map_values(|k: &Knowledge| *k)[j] == *listed@[j]);
                }
            }
        }
        res
    }
}

impl KnowledgeManager<MemoryKnowledgeRepository> {
    /// A manager over the in-memory repository accepts every insert, so its
    /// `handle` always succeeds.
    pub proof fn lemma_memory_accepts_every_insert(&self)
        ensures
            self.accepts_every_insert(),
    {
    }
}

} // verus!
