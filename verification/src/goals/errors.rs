//! What can go wrong with a goal.

use vstd::prelude::*;

verus! {

#[derive(Debug)]
pub enum GoalError {
    InvalidStateTransition { from: String, to: String },
    EmptyName,
}

/// The message a goal error is displayed with.
pub open spec fn goal_error_message(e: GoalError) -> Seq<char> {
    match e {
        GoalError::InvalidStateTransition { from, to } => "Invalid goal state transition: "@ + from@
            + " -> "@ + to@,
        GoalError::EmptyName => "Goal name cannot be empty"@,
    }
}

impl GoalError {
    pub fn to_string(&self) -> (res: String)
        ensures
            res@ == goal_error_message(*self),
    {
        match self {
            GoalError::InvalidStateTransition { from, to } => {
                let mut s = String::from_str("Invalid goal state transition: ");
                s.append(from.as_str());
                s.append(" -> ");
                s.append(to.as_str());
                s
            },
            GoalError::EmptyName => String::from_str("Goal name cannot be empty"),
        }
    }
}

} // verus!
