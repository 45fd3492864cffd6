//! Raw data extracted from a mission or another source. Knowledge is derived
//! from evidence, never without it.

use vstd::prelude::*;
use crate::ids::{fresh_uuid, is_random_uuid, now, Timestamp};

verus! {

#[derive(Debug, Clone)]
pub struct Evidence {
    /// A UUID, carried as its 128-bit value.
    pub id: u128,
    /// The mission the evidence was extracted from, if any.
    pub mission_id: Option<u128>,
    pub content: String,
    /// When it was made.
    pub extracted_at: Timestamp,
}

impl Evidence {
    /// Evidence extracted from the mission `mission_id`.
    pub fn new(mission_id: u128, content: String) -> (res: Self)
        ensures
            res.mission_id == Some(mission_id),
            res.content == content,
            is_random_uuid(res.id),
    {
        Evidence { id: fresh_uuid(), mission_id: Some(mission_id), content, extracted_at: now() }
    }

    /// Evidence that no mission produced.
    pub fn standalone(content: String) -> (res: Self)
        ensures
            res.mission_id is None,
            res.content == content,
            is_random_uuid(res.id),
    {
        Evidence { id: fresh_uuid(), mission_id: None, content, extracted_at: now() }
    }
}

} // verus!
