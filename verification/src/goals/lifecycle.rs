//! The states a goal moves through, and which moves are allowed.

use vstd::prelude::*;

verus! {

#[derive(Debug, Clone, Copy, PartialEq, Eq, Structural)]
pub enum GoalState {
    Draft,
    Active,
    Paused,
    Completed,
    Archived,
}

/// The lifecycle of a goal: a draft is activated or archived; an active
/// goal is paused or completed; a paused goal is resumed or archived; a
/// completed goal is archived. Nothing else is allowed.
pub open spec fn goal_transition_allowed(from: GoalState, to: GoalState) -> bool {
    ||| from == GoalState::Draft && to == GoalState::Active
    ||| from == GoalState::Draft && to == GoalState::Archived
    ||| from == GoalState::Active && to == GoalState::Paused
    ||| from == GoalState::Active && to == GoalState::Completed
    ||| from == GoalState::Paused && to == GoalState::Active
    ||| from == GoalState::Paused && to == GoalState::Archived
    ||| from == GoalState::Completed && to == GoalState::Archived
}

/// An archived goal stays archived: no transition leaves `Archived`.
pub proof fn lemma_archived_goal_is_final(next: GoalState)
    ensures
        !goal_transition_allowed(GoalState::Archived, next),
{
}

/// Once a goal leaves `Draft` it never returns there.
pub proof fn lemma_no_goal_returns_to_draft(from: GoalState)
    ensures
        !goal_transition_allowed(from, GoalState::Draft),
{
}

/// A goal is completed only while it is active, and a completed goal can
/// only be archived.
pub proof fn lemma_goal_completes_only_when_active(from: GoalState, next: GoalState)
    ensures
        goal_transition_allowed(from, GoalState::Completed) ==> from == GoalState::Active,
        goal_transition_allowed(GoalState::Completed, next) ==> next == GoalState::Archived,
{
}

/// The upper-case label a goal state is displayed with.
pub open spec fn goal_state_label(s: GoalState) -> Seq<char> {
    match s {
        GoalState::Draft => "DRAFT"@,
        GoalState::Active => "ACTIVE"@,
        GoalState::Paused => "PAUSED"@,
        GoalState::Completed => "COMPLETED"@,
        GoalState::Archived => "ARCHIVED"@,
    }
}

/// The name of the variant, as `{:?}` prints it.
pub open spec fn goal_state_name(s: GoalState) -> Seq<char> {
    match s {
        GoalState::Draft => "Draft"@,
        GoalState::Active => "Active"@,
        GoalState::Paused => "Paused"@,
        GoalState::Completed => "Completed"@,
        GoalState::Archived => "Archived"@,
    }
}

impl GoalState {
    pub fn to_string(&self) -> (res: String)
        ensures
            res@ == goal_state_label(*self),
    {
        match self {
            GoalState::Draft => String::from_str("DRAFT"),
            GoalState::Active => String::from_str("ACTIVE"),
            GoalState::Paused => String::from_str("PAUSED"),
            GoalState::Completed => String::from_str("COMPLETED"),
            GoalState::Archived => String::from_str("ARCHIVED"),
        }
    }

    /// The variant's name, as `{:?}` prints it.
    pub fn name(&self) -> (res: String)
        ensures
            res@ == goal_state_name(*self),
    {
        match self {
            GoalState::Draft => String::from_str("Draft"),
            GoalState::Active => String::from_str("Active"),
            GoalState::Paused => String::from_str("Paused"),
            GoalState::Completed => String::from_str("Completed"),
            GoalState::Archived => String::from_str("Archived"),
        }
    }

    /// Whether the lifecycle allows moving from this state to `next`.
    pub(crate) fn can_transition_to(&self, next: GoalState) -> (res: bool)
        ensures
            res == goal_transition_allowed(*self, next),
    {
        match (*self, next) {
            (GoalState::Draft, GoalState::Active) => true,
            (GoalState::Draft, GoalState::Archived) => true,
            (GoalState::Active, GoalState::Paused) => true,
            (GoalState::Active, GoalState::Completed) => true,
            (GoalState::Paused, GoalState::Active) => true,
            (GoalState::Paused, GoalState::Archived) => true,
            (GoalState::Completed, GoalState::Archived) => true,
            _ => false,
        }
    }
}

} // verus!
