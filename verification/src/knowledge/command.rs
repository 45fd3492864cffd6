//! The intent to store a piece of knowledge: raw ingredients only.

use vstd::prelude::*;
use super::category::KnowledgeCategory;
use super::source::KnowledgeSource;
use super::evidence::Evidence;

verus! {

#[derive(Debug, Clone)]
pub struct StoreKnowledgeCommand {
    pub title: String,
    pub category: KnowledgeCategory,
    pub source: KnowledgeSource,
    pub evidence: Evidence,
}

} // verus!
