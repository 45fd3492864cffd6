//! A mission: one unit of temporary work.

use vstd::prelude::*;
use crate::ids::{fresh_uuid, is_random_uuid, now, Timestamp};
use crate::priority::Priority;
use super::state::{MissionState, mission_transition_allowed, mission_state_name};
use super::errors::MissionError;

verus! {

#[derive(Debug, Clone)]
pub struct Mission {
    /// A UUID, carried as its 128-bit value.
    pub id: u128,
    pub name: String,
    pub priority: Priority,
    pub state: MissionState,
    /// When it was made.
    pub created_at: Timestamp,
    /// Mission parameters, as JSON text.
    pub payload: String,
}

impl Mission {
    /// A new mission in state `Created`, with a fresh identifier.
    pub fn new(name: &str, priority: Priority, payload: String) -> (res: Self)
        ensures
            res.name@ == name@,
            res.priority == priority,
            res.state == MissionState::Created,
            res.payload == payload,
            is_random_uuid(res.id),
    {
        Mission {
            id: fresh_uuid(),
            name: name.to_owned(),
            priority,
            state: MissionState::Created,
            created_at: now(),
            payload,
        }
    }

    /// Validated lifecycle transition: a transition the lifecycle does not
    /// allow is refused, leaving the mission as it was.
    pub fn transition_to(&mut self, next: MissionState) -> (res: Result<(), MissionError>)
        ensures
            mission_transition_allowed(old(self).state, next) <==> res is Ok,
            res is Ok ==> *final(self) == (Mission { state: next, ..*old(self) }),
            res is Ok && next == MissionState::Queued ==> old(self).state == MissionState::Created,
            res is Ok && next == MissionState::Running ==> old(self).state == MissionState::Scheduled,
            res is Ok && (next == MissionState::Completed || next == MissionState::Failed) ==> old(
                self,
            ).state == MissionState::Running,
            res is Ok ==> next != MissionState::Created && old(self).state != MissionState::Completed,
            res is Err ==> *final(self) == *old(self),
            res matches Err(e) ==> e matches MissionError::InvalidStateTransition { from, to } && from@
                == mission_state_name(old(self).state) && to@ == mission_state_name(next),
    {
        if self.state.can_transition_to(next) {
            self.state = next;
            Ok(())
        } else {
            Err(MissionError::InvalidStateTransition { from: self.state.name(), to: next.name() })
        }
    }

    /// A mission is complete once it has completed or failed.
    pub fn is_complete(&self) -> (res: bool)
        ensures
            res == (self.state == MissionState::Completed || self.state == MissionState::Failed),
    {
        self.state == MissionState::Completed || self.state == MissionState::Failed
    }
}

} // verus!
