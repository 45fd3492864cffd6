//! What can go wrong when recording knowledge.

use vstd::prelude::*;

verus! {

#[derive(Debug)]
pub enum KnowledgeError {
    MissingEvidence,
    InvalidCategory(String),
    IdParseError(String),
    MissingField(String),
}

/// The message a knowledge error is displayed with.
pub open spec fn knowledge_error_message(e: KnowledgeError) -> Seq<char> {
    match e {
        KnowledgeError::MissingEvidence => "Knowledge cannot be created without evidence"@,
        KnowledgeError::InvalidCategory(cat) => "Invalid category: "@ + cat@,
        KnowledgeError::IdParseError(id) => "Failed to parse ID: "@ + id@,
        KnowledgeError::MissingField(field) => "Missing required field in event payload: "@ + field@,
    }
}

impl KnowledgeError {
    pub fn to_string(&self) -> (res: String)
        ensures
            res@ == knowledge_error_message(*self),
    {
        match self {
            KnowledgeError::MissingEvidence => String::from_str(
                "Knowledge cannot be created without evidence",
            ),
            KnowledgeError::InvalidCategory(cat) => {
                let mut s = String::from_str("Invalid category: ");
                s.append(cat.as_str());
                s
            },
            KnowledgeError::IdParseError(id) => {
                let mut s = String::from_str("Failed to parse ID: ");
                s.append(id.as_str());
                s
            },
            KnowledgeError::MissingField(field) => {
                let mut s = String::from_str("Missing required field in event payload: ");
                s.append(field.as_str());
                s
            },
        }
    }
}

} // verus!
