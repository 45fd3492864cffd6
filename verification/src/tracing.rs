//! Tracing spans.

use vstd::prelude::*;
use crate::ids::{fresh_uuid, is_random_uuid, uuid_text, uuid_to_string};

verus! {

pub struct Tracer;

impl Tracer {
    pub fn new() -> (res: Self) {
        Tracer
    }

    /// Opens a span and returns its identifier: the text of a fresh
    /// random UUID.
    pub fn start_span(&self, _name: &str) -> (res: String)
        ensures
            exists|v: u128| is_random_uuid(v) && res@ == #[trigger] uuid_text(v),
    {
        let id = fresh_uuid();
        let res = uuid_to_string(id);
        assert(is_random_uuid(id) && res@ == uuid_text(id));
        res
    }

    /// Closes a span; nothing is recorded yet.
    pub fn end_span(&self, _span_id: &str) {
    }
}

} // verus!
