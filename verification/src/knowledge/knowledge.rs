//! A piece of knowledge and the rule that it is made from evidence.

use vstd::prelude::*;
use crate::ids::{fresh_uuid, is_random_uuid, now, Timestamp};
use super::category::KnowledgeCategory;
use super::source::KnowledgeSource;
use super::evidence::Evidence;
use super::errors::KnowledgeError;

verus! {

#[derive(Debug, Clone)]
pub struct Knowledge {
    /// A UUID, carried as its 128-bit value.
    pub id: u128,
    pub title: String,
    pub category: KnowledgeCategory,
    pub source: KnowledgeSource,
    pub evidence: Vec<Evidence>,
    /// When it was made.
    pub created_at: Timestamp,
}

impl Knowledge {
    /// Knowledge backed by one piece of evidence.
    pub fn from_evidence(
        title: String,
        category: KnowledgeCategory,
        source: KnowledgeSource,
        evidence: Evidence,
    ) -> (res: Result<Self, KnowledgeError>)
        ensures
            res matches Ok(k) && k.title == title && k.category == category && k.source == source
                && k.evidence@ == seq![evidence] && is_random_uuid(k.id),
    {
        let mut list: Vec<Evidence> = Vec::new();
        list.push(evidence);
        Self::from_evidence_list(title, category, source, list)
    }

    /// Knowledge backed by a list of evidence; refused with
    /// `MissingEvidence` when the list is empty.
    pub fn from_evidence_list(
        title: String,
        category: KnowledgeCategory,
        source: KnowledgeSource,
        evidence: Vec<Evidence>,
    ) -> (res: Result<Self, KnowledgeError>)
        ensures
            evidence@.len() == 0 <==> res is Err,
            res matches Err(e) ==> e is MissingEvidence,
            res matches Ok(k) ==> k.title == title && k.category == category && k.source == source
                && k.evidence == evidence && is_random_uuid(k.id),
    {
        if evidence.len() == 0 {
            return Err(KnowledgeError::MissingEvidence);
        }
        Ok(Knowledge {
            id: fresh_uuid(),
            title,
            category,
            source,
            evidence,
            created_at: now(),
        })
    }
}

} // verus!
