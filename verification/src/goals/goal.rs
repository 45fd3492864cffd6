//! A goal: a long-lived objective, distinct from a mission (one unit of
//! temporary work). A goal is the reason that work gets generated and may
//! outlive many missions.

use vstd::prelude::*;
use crate::ids::{is_random_uuid, now, Timestamp};
use crate::priority::Priority;
use crate::text::{is_blank, is_blank_str};
use super::goal_id::GoalId;
use super::objective::Objective;
use super::constraint::Constraint;
use super::lifecycle::{GoalState, goal_transition_allowed, goal_state_name};
use super::errors::GoalError;

verus! {

#[derive(Debug, Clone)]
pub struct Goal {
    pub id: GoalId,
    pub name: String,
    pub description: String,
    pub priority: Priority,
    pub objective: Objective,
    pub constraints: Vec<Constraint>,
    pub state: GoalState,
    /// When it was made.
    pub created_at: Timestamp,
}

/// `g` is a fresh draft built from the given ingredients, with no
/// constraints yet.
pub open spec fn fresh_draft(
    g: Goal,
    name: String,
    description: String,
    priority: Priority,
    objective: Objective,
) -> bool {
    &&& g.name == name
    &&& g.description == description
    &&& g.priority == priority
    &&& g.objective == objective
    &&& g.constraints@.len() == 0
    &&& g.state == GoalState::Draft
}

impl Goal {
    /// Creates a draft goal; a name that is empty once trimmed is refused.
    pub fn new(name: String, description: String, priority: Priority, objective: Objective) -> (res:
        Result<Self, GoalError>)
        ensures
            is_blank(name@) <==> res is Err,
            res matches Err(e) ==> e is EmptyName,
            res matches Ok(g) ==> fresh_draft(g, name, description, priority, objective) && is_random_uuid(
                g.id.0,
            ),
    {
        if is_blank_str(name.as_str()) {
            return Err(GoalError::EmptyName);
        }
        Ok(Goal {
            id: GoalId::new(),
            name,
            description,
            priority,
            objective,
            constraints: Vec::new(),
            state: GoalState::Draft,
            created_at: now(),
        })
    }

    /// Adds a constraint after the ones the goal already has.
    pub fn with_constraint(self, constraint: Constraint) -> (res: Self)
        ensures
            res.constraints@ == self.constraints@.push(constraint),
            res == (Goal { constraints: res.constraints, ..self }),
    {
        let mut goal = self;
        goal.constraints.push(constraint);
        goal
    }

    /// Validated lifecycle transition: the state only ever changes through
    /// this method, and a transition the lifecycle does not allow is
    /// refused, leaving the goal as it was.
    pub fn transition_to(&mut self, next: GoalState) -> (res: Result<(), GoalError>)
        ensures
            goal_transition_allowed(old(self).state, next) <==> res is Ok,
            res is Ok ==> *final(self) == (Goal { state: next, ..*old(self) }),
            res is Err ==> *final(self) == *old(self),
            res matches Err(e) ==> e matches GoalError::InvalidStateTransition { from, to } && from@
                == goal_state_name(old(self).state) && to@ == goal_state_name(next),
    {
        if self.state.can_transition_to(next) {
            self.state = next;
            Ok(())
        } else {
            Err(GoalError::InvalidStateTransition { from: self.state.name(), to: next.name() })
        }
    }

    pub fn is_active(&self) -> (res: bool)
        ensures
            res == (self.state == GoalState::Active),
    {
        self.state == GoalState::Active
    }
}

} // verus!
