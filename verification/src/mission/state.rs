//! The states a mission moves through, and which moves are allowed.

use vstd::prelude::*;

verus! {

#[derive(Debug, Clone, Copy, PartialEq, Eq, Structural)]
pub enum MissionState {
    Created,
    Queued,
    Scheduled,
    Running,
    Completed,
    Failed,
    Retrying,
}

/// The lifecycle of a mission: created, queued, scheduled, running, then
/// completed or failed; a failed mission may be retried, which schedules it
/// again. Nothing else is allowed.
pub open spec fn mission_transition_allowed(from: MissionState, to: MissionState) -> bool {
    ||| from == MissionState::Created && to == MissionState::Queued
    ||| from == MissionState::Queued && to == MissionState::Scheduled
    ||| from == MissionState::Scheduled && to == MissionState::Running
    ||| from == MissionState::Running && to == MissionState::Completed
    ||| from == MissionState::Running && to == MissionState::Failed
    ||| from == MissionState::Failed && to == MissionState::Retrying
    ||| from == MissionState::Retrying && to == MissionState::Scheduled
}

/// A completed mission stays completed: no transition leaves `Completed`.
pub proof fn lemma_completed_mission_is_final(next: MissionState)
    ensures
        !mission_transition_allowed(MissionState::Completed, next),
{
}

/// No mission ever returns to `Created`.
pub proof fn lemma_no_mission_returns_to_created(from: MissionState)
    ensures
        !mission_transition_allowed(from, MissionState::Created),
{
}

/// A mission runs only once it is scheduled, and it ends running only by
/// completing or failing.
pub proof fn lemma_mission_runs_only_when_scheduled(from: MissionState, next: MissionState)
    ensures
        mission_transition_allowed(from, MissionState::Running) ==> from == MissionState::Scheduled,
        mission_transition_allowed(MissionState::Running, next) ==> next == MissionState::Completed
            || next == MissionState::Failed,
{
}

/// A failed mission gets back to running only by being retried and then
/// scheduled again.
pub proof fn lemma_failed_mission_retries_through_scheduling(next: MissionState)
    ensures
        mission_transition_allowed(MissionState::Failed, next) ==> next == MissionState::Retrying,
        mission_transition_allowed(MissionState::Retrying, next) ==> next == MissionState::Scheduled,
{
}

/// Every move of the lifecycle has the predecessor the lifecycle names: a
/// mission is queued only once created, scheduled only from the queue or a
/// retry, run only once scheduled, completed or failed only while running,
/// and retried only after failing; nothing moves back to `Created` or out
/// of `Completed`.
pub proof fn lemma_mission_predecessors(from: MissionState, to: MissionState)
    requires
        mission_transition_allowed(from, to),
    ensures
        to != MissionState::Created,
        from != MissionState::Completed,
        to == MissionState::Queued ==> from == MissionState::Created,
        to == MissionState::Scheduled ==> from == MissionState::Queued || from == MissionState::Retrying,
        to == MissionState::Running ==> from == MissionState::Scheduled,
        to == MissionState::Completed ==> from == MissionState::Running,
        to == MissionState::Failed ==> from == MissionState::Running,
        to == MissionState::Retrying ==> from == MissionState::Failed,
        from == MissionState::Created ==> to == MissionState::Queued,
        from == MissionState::Queued ==> to == MissionState::Scheduled,
        from == MissionState::Scheduled ==> to == MissionState::Running,
{
}

/// A mission completes only by going the whole way: every run of allowed
/// moves from `Created` that ends in `Completed` first queues the mission,
/// and schedules and then runs it right before completing.
pub proof fn lemma_completion_goes_through_every_stage(path: Seq<MissionState>)
    requires
        path.len() >= 1,
        path[0] == MissionState::Created,
        path.last() == MissionState::Completed,
        forall|i: int| 0 <= i < path.len() - 1 ==> mission_transition_allowed(#[trigger] path[i], path[i + 1]),
    ensures
        path.len() >= 4,
        path[1] == MissionState::Queued,
        path[path.len() - 3] == MissionState::Scheduled,
        path[path.len() - 2] == MissionState::Running,
{
    let n = path.len() as int;
    assert(mission_transition_allowed(path[n - 2], path[n - 1]));
    assert(path[n - 2] == MissionState::Running);
    assert(mission_transition_allowed(path[n - 3], path[n - 2]));
    assert(path[n - 3] == MissionState::Scheduled);
    assert(mission_transition_allowed(path[0], path[1]));
    assert(path[1] == MissionState::Queued);
}

/// The upper-case label a mission state is displayed with.
pub open spec fn mission_state_label(s: MissionState) -> Seq<char> {
    match s {
        MissionState::Created => "CREATED"@,
        MissionState::Queued => "QUEUED"@,
        MissionState::Scheduled => "SCHEDULED"@,
        MissionState::Running => "RUNNING"@,
        MissionState::Completed => "COMPLETED"@,
        MissionState::Failed => "FAILED"@,
        MissionState::Retrying => "RETRYING"@,
    }
}

/// The name of the variant, as `{:?}` prints it.
pub open spec fn mission_state_name(s: MissionState) -> Seq<char> {
    match s {
        MissionState::Created => "Created"@,
        MissionState::Queued => "Queued"@,
        MissionState::Scheduled => "Scheduled"@,
        MissionState::Running => "Running"@,
        MissionState::Completed => "Completed"@,
        MissionState::Failed => "Failed"@,
        MissionState::Retrying => "Retrying"@,
    }
}

impl MissionState {
    pub fn to_string(&self) -> (res: String)
        ensures
            res@ == mission_state_label(*self),
    {
        match self {
            MissionState::Created => String::from_str("CREATED"),
            MissionState::Queued => String::from_str("QUEUED"),
            MissionState::Scheduled => String::from_str("SCHEDULED"),
            MissionState::Running => String::from_str("RUNNING"),
            MissionState::Completed => String::from_str("COMPLETED"),
            MissionState::Failed => String::from_str("FAILED"),
            MissionState::Retrying => String::from_str("RETRYING"),
        }
    }

    /// The variant's name, as `{:?}` prints it.
    pub fn name(&self) -> (res: String)
        ensures
            res@ == mission_state_name(*self),
    {
        match self {
            MissionState::Created => String::from_str("Created"),
            MissionState::Queued => String::from_str("Queued"),
            MissionState::Scheduled => String::from_str("Scheduled"),
            MissionState::Running => String::from_str("Running"),
            MissionState::Completed => String::from_str("Completed"),
            MissionState::Failed => String::from_str("Failed"),
            MissionState::Retrying => String::from_str("Retrying"),
        }
    }

    /// Whether the lifecycle allows moving from this state to `next`.
    pub(crate) fn can_transition_to(&self, next: MissionState) -> (res: bool)
        ensures
            res == mission_transition_allowed(*self, next),
    {
        match (*self, next) {
            (MissionState::Created, MissionState::Queued) => true,
            (MissionState::Queued, MissionState::Scheduled) => true,
            (MissionState::Scheduled, MissionState::Running) => true,
            (MissionState::Running, MissionState::Completed) => true,
            (MissionState::Running, MissionState::Failed) => true,
            (MissionState::Failed, MissionState::Retrying) => true,
            (MissionState::Retrying, MissionState::Scheduled) => true,
            _ => false,
        }
    }
}

} // verus!
