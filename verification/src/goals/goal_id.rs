//! The identity of a goal: a UUID, carried as its 128-bit value.

use vstd::prelude::*;
use crate::ids::{fresh_uuid, is_random_uuid, uuid_text, uuid_to_string};

verus! {

#[derive(Debug, Clone, Copy, PartialEq, Eq, Structural, Hash)]
pub struct GoalId(pub u128);

impl GoalId {
    /// A fresh random (version 4) identifier.
    pub fn new() -> (res: Self)
        ensures
            is_random_uuid(res.0),
    {
        GoalId(fresh_uuid())
    }

    /// The hyphenated text of the identifier.
    pub fn to_string(&self) -> (res: String)
        ensures
            res@ == uuid_text(self.0),
    {
        uuid_to_string(self.0)
    }
}

} // verus!
