//! What a goal is trying to achieve, as one declarative sentence.

use vstd::prelude::*;

verus! {

#[derive(Debug, Clone)]
pub struct Objective {
    pub statement: String,
}

impl Objective {
    pub fn new(statement: String) -> (res: Self)
        ensures
            res.statement == statement,
    {
        Objective { statement }
    }

    /// The statement, as the objective is displayed.
    pub fn to_string(&self) -> (res: String)
        ensures
            res@ == self.statement@,
    {
        self.statement.clone()
    }
}

} // verus!
