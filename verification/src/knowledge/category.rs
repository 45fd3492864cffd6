//! What a piece of knowledge is about.

use vstd::prelude::*;

verus! {

#[derive(Debug, Clone, Copy, PartialEq, Eq, Structural)]
pub enum KnowledgeCategory {
    Operational,
    Financial,
    Market,
    Security,
    Technical,
    Strategic,
}

/// The upper-case label a category is displayed with.
pub open spec fn category_label(c: KnowledgeCategory) -> Seq<char> {
    match c {
        KnowledgeCategory::Operational => "OPERATIONAL"@,
        KnowledgeCategory::Financial => "FINANCIAL"@,
        KnowledgeCategory::Market => "MARKET"@,
        KnowledgeCategory::Security => "SECURITY"@,
        KnowledgeCategory::Technical => "TECHNICAL"@,
        KnowledgeCategory::Strategic => "STRATEGIC"@,
    }
}

impl KnowledgeCategory {
    pub fn to_string(&self) -> (res: String)
        ensures
            res@ == category_label(*self),
    {
        match self {
            KnowledgeCategory::Operational => String::from_str("OPERATIONAL"),
            KnowledgeCategory::Financial => String::from_str("FINANCIAL"),
            KnowledgeCategory::Market => String::from_str("MARKET"),
            KnowledgeCategory::Security => String::from_str("SECURITY"),
            KnowledgeCategory::Technical => String::from_str("TECHNICAL"),
            KnowledgeCategory::Strategic => String::from_str("STRATEGIC"),
        }
    }
}

} // verus!
