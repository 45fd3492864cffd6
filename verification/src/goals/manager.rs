//! Goal creation: validate the command, build the goal, store it, and
//! announce it.
//!
//! Publishing is the caller's part: `handle` returns the `goal.created`
//! event to publish.

use vstd::prelude::*;
use crate::ids::{is_random_uuid, uuid_text, uuid_to_string};
use crate::json::{json_object, json_object_text, pairs_view, distinct_keys};
use crate::priority::priority_label;
use crate::protocol::envelope::{AespEnvelope, create_event, is_event};
use crate::text::is_blank;
use super::command::CreateGoalCommand;
use super::constraint::Constraint;
use super::goal::Goal;
use super::goal_id::GoalId;
use super::lifecycle::GoalState;
use super::errors::GoalError;
use super::repository::{GoalRepository, MemoryGoalRepository, lists_each_goal_once, lemma_insert_count};

verus! {

/// The members of the `goal.created` event.
pub open spec fn goal_created_fields(g: Goal) -> Seq<(Seq<char>, Seq<char>)> {
    seq![("goal_id"@, uuid_text(g.id.0)), ("name"@, g.name@), ("priority"@, priority_label(g.priority))]
}

/// `g` is the draft goal that `command` asks for, constraints in the
/// command's order.
pub open spec fn goal_from_command(g: Goal, command: CreateGoalCommand) -> bool {
    &&& g.name == command.name
    &&& g.description == command.description
    &&& g.priority == command.priority
    &&& g.objective == command.objective
    &&& g.constraints@ == command.constraints@
    &&& g.state == GoalState::Draft
}

fn goal_created_payload(g: &Goal) -> (res: String)
    ensures
        res@ == json_object_text(goal_created_fields(*g)),
{
    let mut fields: Vec<(String, String)> = Vec::new();
    fields.push((String::from_str("goal_id"), g.id.to_string()));
    fields.push((String::from_str("name"), g.name.clone()));
    fields.push((String::from_str("priority"), g.priority.to_string()));
    proof {
        reveal_strlit("goal_id");
        reveal_strlit("name");
        reveal_strlit("priority");
        assert("goal_id"@.len() != "name"@.len());
        assert("goal_id"@.len() != "priority"@.len());
        assert("name"@.len() != "priority"@.len());
        assert(pairs_view(fields@) =~= goal_created_fields(*g));
    }
    assert(distinct_keys(pairs_view(fields@)));
    json_object(&fields)
}

/// Orchestrates goal creation over a repository of the caller's choice.
pub struct GoalManager<R: GoalRepository> {
    repository: R,
}

impl<R: GoalRepository> GoalManager<R> {
    /// The goals in the manager's repository.
    pub closed spec fn goals(&self) -> Map<u128, Goal> {
        self.repository.goals()
    }

    /// Whether the manager's repository accepts every insert.
    pub closed spec fn accepts_every_insert(&self) -> bool {
        self.repository.accepts_every_insert()
    }

    pub fn new(repository: R) -> (res: Self)
        ensures
            res.goals() == repository.goals(),
            res.accepts_every_insert() == repository.accepts_every_insert(),
    {
        GoalManager { repository }
    }

    /// Creates the goal that `command` asks for, stores it and returns its
    /// identifier with the `goal.created` event to publish. A name that is
    /// empty once trimmed is refused and nothing is stored; an error from
    /// the repository is passed on.
    pub fn handle(&mut self, command: CreateGoalCommand) -> (res: Result<(GoalId, AespEnvelope), GoalError>)
        ensures
            final(self).accepts_every_insert() == old(self).accepts_every_insert(),
            is_blank(command.name@) ==> (res matches Err(e) && e is EmptyName),
            is_blank(command.name@) ==> *final(self) == *old(self),
            !is_blank(command.name@) && old(self).accepts_every_insert() ==> res is Ok,
            res is Err ==> final(self).goals() == old(self).goals(),
            res matches Ok((id, env)) ==> {
                let g = final(self).goals()[id.0];
                &&& final(self).goals() == old(self).goals().insert(id.0, g)
                &&& old(self).goals().dom().finite() ==> final(self).goals().len() == old(self).goals().len()
                    + if old(self).goals().contains_key(id.0) {
                    0int
                } else {
                    1int
                }
                &&& g.id == id
                &&& is_random_uuid(id.0)
                &&& goal_from_command(g, command)
                &&& is_event(env, "goal_manager"@, "goal.created"@, json_object_text(goal_created_fields(g)))
            },
    {
        let CreateGoalCommand { name, description, priority, objective, constraints } = command;
        let mut goal = match Goal::new(name, description, priority, objective) {
            Ok(g) => g,
            Err(e) => return Err(e),
        };
        let n = constraints.len();
        let mut i: usize = 0;
        while i < n
            invariant
                n == constraints@.len(),
                i <= n,
                goal.name == command.name,
                goal.description == command.description,
                goal.priority == command.priority,
                goal.objective == command.objective,
                goal.state == GoalState::Draft,
                is_random_uuid(goal.id.0),
                goal.constraints@ == constraints@.take(i as int),
                constraints@ == command.constraints@,
            decreases n - i,
        {
            let c: Constraint = constraints[i].clone();
            goal = goal.with_constraint(c);
            assert(goal.constraints@ =~= constraints@.take(i + 1));
            i = i + 1;
        }
        assert(constraints@.take(n as int) =~= constraints@);
        let id = goal.id;
        let payload = goal_created_payload(&goal);
        match self.repository.insert(goal) {
            Ok(()) => {},
            Err(e) => return Err(e),
        }
        proof {
            if old(self).goals().dom().finite() {
                lemma_insert_count(old(self).goals(), id.0, self.goals()[id.0]);
            }
        }
        Ok((id, create_event("goal_manager", "goal.created", payload)))
    }

    /// The number of goals stored.
    pub fn count(&self) -> (res: usize)
        ensures
            self.goals().dom().finite(),
            res == self.goals().len(),
    {
        self.repository.count()
    }

    /// The stored goals in the order the repository lists them.
    pub closed spec fn listing(&self) -> Seq<Goal> {
        self.repository.listing()
    }

    /// The names of all stored goals, one per goal, in the repository's
    /// listing order (the same order again while nothing is stored).
    pub fn names(&self) -> (res: Vec<String>)
        ensures
            res@ == self.listing().map_values(|g: Goal| g.name),
            lists_each_goal_once(self.listing(), self.goals()),
    {
        let listed = self.repository.iter();
        let n = listed.len();
        let mut res: Vec<String> = Vec::new();
        let mut i: usize = 0;
        while i < n
            invariant
                n == listed@.len(),
                i <= n,
                res@.len() == i,
                forall|j: int| 0 <= j < i ==> #[trigger] res@[j] == listed@[j].name,
            decreases n - i,
        {
            res.push(listed[i].name.clone());
            i = i + 1;
        }
        proof {
            assert(listed@.map_values(|g: &Goal| *g) == self.listing());
            assert(res@ =~= self.listing().map_values(|g: Goal| g.name)) by {
                assert forall|j: int| 0 <= j < n implies res@[j] == self.listing()[j].name by {
                    assert(listed@.map_values(|g: &Goal| *g)[j] == *listed@[j]);
                }
            }
        }
        res
    }
}

impl GoalManager<MemoryGoalRepository> {
    /// A manager over the in-memory repository accepts every insert, so its
    /// `handle` succeeds on every name that is not blank.
    pub proof fn lemma_memory_accepts_every_insert(&self)
        ensures
            self.accepts_every_insert(),
    {
    }
}

} // verus!
