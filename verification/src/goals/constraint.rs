//! Rules a goal must respect.

use vstd::prelude::*;

verus! {

/// Whether a constraint is absolute ("never ...") or weighed against other
/// factors ("respect ...").
#[derive(Debug, Clone, Copy, PartialEq, Eq, Structural)]
pub enum ConstraintKind {
    Hard,
    Soft,
}

#[derive(Debug)]
pub struct Constraint {
    pub description: String,
    pub kind: ConstraintKind,
}

impl Clone for Constraint {
    fn clone(&self) -> (res: Self)
        ensures
            res == *self,
    {
        Constraint { description: self.description.clone(), kind: self.kind }
    }
}

impl Constraint {
    pub fn hard(description: String) -> (res: Self)
        ensures
            res.description == description,
            res.kind == ConstraintKind::Hard,
    {
        Constraint { description, kind: ConstraintKind::Hard }
    }

    pub fn soft(description: String) -> (res: Self)
        ensures
            res.description == description,
            res.kind == ConstraintKind::Soft,
    {
        Constraint { description, kind: ConstraintKind::Soft }
    }
}

} // verus!
