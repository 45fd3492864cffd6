//! Admission of missions: a created mission is queued, announced, and later
//! taken from the queue and scheduled.
//!
//! Publishing is the caller's part: each operation returns the events to
//! publish, in order.

use vstd::prelude::*;
use crate::ids::{uuid_text, uuid_to_string};
use crate::json::{json_object, json_object_text, json_str_field, pairs_view, distinct_keys, lemma_lookup_at};
use crate::priority::priority_label;
use crate::protocol::envelope::{AespEnvelope, create_event, is_event};
use super::mission::Mission;
use super::queue::MissionQueue;
use super::state::{MissionState, mission_state_label, mission_state_name};
use super::errors::MissionError;

verus! {

/// The members of the `mission.created` event.
pub open spec fn created_fields(m: Mission) -> Seq<(Seq<char>, Seq<char>)> {
    seq![("mission_id"@, uuid_text(m.id)), ("name"@, m.name@), ("priority"@, priority_label(m.priority))]
}

/// The members of an event that reports a mission's new state.
pub open spec fn state_fields(m: Mission) -> Seq<(Seq<char>, Seq<char>)> {
    seq![("mission_id"@, uuid_text(m.id)), ("state"@, mission_state_label(m.state))]
}

fn created_payload(m: &Mission) -> (res: String)
    ensures
        res@ == json_object_text(created_fields(*m)),
{
    let mut fields: Vec<(String, String)> = Vec::new();
    fields.push((String::from_str("mission_id"), uuid_to_string(m.id)));
    fields.push((String::from_str("name"), m.name.clone()));
    fields.push((String::from_str("priority"), m.priority.to_string()));
    proof {
        reveal_strlit("mission_id");
        reveal_strlit("name");
        reveal_strlit("priority");
        assert("mission_id"@.len() != "name"@.len());
        assert("mission_id"@.len() != "priority"@.len());
        assert("name"@.len() != "priority"@.len());
        assert(pairs_view(fields@) =~= created_fields(*m));
    }
    assert(distinct_keys(pairs_view(fields@)));
    json_object(&fields)
}

fn state_payload(m: &Mission) -> (res: String)
    ensures
        res@ == json_object_text(state_fields(*m)),
        json_str_field(res@, "mission_id"@) == Some(uuid_text(m.id)),
        json_str_field(res@, "state"@) == Some(mission_state_label(m.state)),
{
    let mut fields: Vec<(String, String)> = Vec::new();
    fields.push((String::from_str("mission_id"), uuid_to_string(m.id)));
    fields.push((String::from_str("state"), m.state.to_string()));
    proof {
        reveal_strlit("mission_id");
        reveal_strlit("state");
        assert("mission_id"@.len() != "state"@.len());
        assert(pairs_view(fields@) =~= state_fields(*m));
    }
    assert(distinct_keys(pairs_view(fields@)));
    proof {
        lemma_lookup_at(pairs_view(fields@), 0);
        lemma_lookup_at(pairs_view(fields@), 1);
    }
    json_object(&fields)
}

pub struct MissionScheduler {
    queue: MissionQueue,
}

impl View for MissionScheduler {
    type V = Seq<Mission>;

    /// The missions waiting to be scheduled, oldest first.
    closed spec fn view(&self) -> Seq<Mission> {
        self.queue@
    }
}

impl MissionScheduler {
    /// Every mission waiting in the scheduler's queue is in state `Queued`.
    #[verifier::type_invariant]
    spec fn all_queued(&self) -> bool {
        forall|i: int| 0 <= i < self.queue@.len() ==> #[trigger] self.queue@[i].state == MissionState::Queued
    }

    /// How many missions may wait at once.
    pub closed spec fn capacity(&self) -> nat {
        self.queue.capacity()
    }

    pub fn new() -> (res: Self)
        ensures
            res@ == Seq::<Mission>::empty(),
            res.capacity() == 1000,
    {
        MissionScheduler { queue: MissionQueue::new(1000) }
    }

    /// Queues a newly created mission. A mission that is not in state
    /// `Created` is refused before anything else happens. Otherwise the
    /// mission moves to `Queued`, the `mission.created` and `mission.queued`
    /// events are returned for publishing, and the mission joins the back
    /// of the queue unless the queue is full.
    pub fn enqueue(&mut self, mission: Mission) -> (res: (Vec<AespEnvelope>, Result<(), MissionError>))
        ensures
            final(self).capacity() == old(self).capacity(),
            mission.state != MissionState::Created ==> {
                &&& res.0@.len() == 0
                &&& res.1 matches Err(MissionError::InvalidStateTransition { from, to })
                &&& from@ == mission_state_name(mission.state)
                &&& to@ == mission_state_name(MissionState::Queued)
                &&& final(self)@ == old(self)@
            },
            mission.state == MissionState::Created ==> {
                let queued = (Mission { state: MissionState::Queued, ..mission });
                &&& res.0@.len() == 2
                &&& is_event(
                    res.0@[0],
                    "scheduler"@,
                    "mission.created"@,
                    json_object_text(created_fields(queued)),
                )
                &&& is_event(
                    res.0@[1],
                    "scheduler"@,
                    "mission.queued"@,
                    json_object_text(state_fields(queued)),
                )
                &&& json_str_field(res.0@[1].payload@, "mission_id"@) == Some(uuid_text(mission.id))
                &&& json_str_field(res.0@[1].payload@, "state"@) == Some("QUEUED"@)
                &&& (old(self)@.len() >= old(self).capacity() <==> res.1 is Err)
                &&& res.1 matches Err(e) ==> e is QueueFull && final(self)@ == old(self)@
                &&& res.1 is Ok ==> final(self)@ == old(self)@.push(queued)
            },
    {
        proof {
            use_type_invariant(&*self);
        }
        let mut mission = mission;
        if let Err(e) = mission.transition_to(MissionState::Queued) {
            return (Vec::new(), Err(e));
        }
        let mut events: Vec<AespEnvelope> = Vec::new();
        events.push(create_event("scheduler", "mission.created", created_payload(&mission)));
        events.push(create_event("scheduler", "mission.queued", state_payload(&mission)));
        let mut queue = MissionQueue::new(0);
        std::mem::swap(&mut queue, &mut self.queue);
        let pushed = queue.push(mission);
        self.queue = queue;
        (events, pushed)
    }

    /// Takes the oldest waiting mission, moves it to `Scheduled` and returns
    /// it with the `mission.scheduled` event to publish.
    pub fn dequeue(&mut self) -> (res: Option<(Mission, AespEnvelope)>)
        ensures
            final(self).capacity() == old(self).capacity(),
            old(self)@.len() == 0 <==> res is None,
            res is None ==> final(self)@ == old(self)@,
            res matches Some((m, env)) ==> {
                &&& m == (Mission { state: MissionState::Scheduled, ..old(self)@[0] })
                &&& final(self)@ == old(self)@.drop_first()
                &&& is_event(env, "scheduler"@, "mission.scheduled"@, json_object_text(state_fields(m)))
                &&& json_str_field(env.payload@, "mission_id"@) == Some(uuid_text(old(self)@[0].id))
                &&& json_str_field(env.payload@, "state"@) == Some("SCHEDULED"@)
            },
    {
        proof {
            use_type_invariant(&*self);
        }
        let mut queue = MissionQueue::new(0);
        std::mem::swap(&mut queue, &mut self.queue);
        let popped = queue.pop();
        self.queue = queue;
        match popped {
            None => None,
            Some(m) => {
                let mut mission = m;
                assert(mission.state == MissionState::Queued);
                let scheduled = mission.transition_to(MissionState::Scheduled);
                assert(scheduled is Ok);
                let env = create_event("scheduler", "mission.scheduled", state_payload(&mission));
                Some((mission, env))
            },
        }
    }

    /// The number of missions waiting.
    pub fn get_queue_length(&self) -> (res: usize)
        ensures
            res == self@.len(),
            res <= self.capacity(),
    {
        self.queue.len()
    }
}

} // verus!
