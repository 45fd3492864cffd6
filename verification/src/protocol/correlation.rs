//! Correlation identifiers tie a response to the request it answers.

use vstd::prelude::*;
use crate::ids::{fresh_uuid, is_random_uuid, uuid_text, uuid_to_string};

verus! {

/// A UUID, carried as its 128-bit value.
#[derive(Debug, Clone, Copy, PartialEq, Eq, Structural, Hash)]
pub struct CorrelationId(pub u128);

impl CorrelationId {
    /// A fresh random (version 4) identifier.
    pub fn new() -> (res: Self)
        ensures
            is_random_uuid(res.0),
    {
        CorrelationId(fresh_uuid())
    }

    pub fn from_u128(val: u128) -> (res: Self)
        ensures
            res.0 == val,
    {
        CorrelationId(val)
    }

    pub fn as_u128(&self) -> (res: u128)
        ensures
            res == self.0,
    {
        self.0
    }

    /// The hyphenated text of the identifier.
    pub fn to_string(&self) -> (res: String)
        ensures
            res@ == uuid_text(self.0),
    {
        uuid_to_string(self.0)
    }
}

impl Default for CorrelationId {
    /// A fresh random identifier, as `new` draws it.
    fn default() -> (res: Self)
        ensures
            is_random_uuid(res.0),
    {
        Self::new()
    }
}

} // verus!
