//! Running a scheduled mission to completion or failure.
//!
//! Publishing is the caller's part: `execute` returns the events to publish,
//! in order.

use vstd::prelude::*;
use crate::ids::{uuid_parse, uuid_text, uuid_to_string};
use crate::json::{json_object, json_object_text, json_str_field, pairs_view, distinct_keys, lemma_lookup_at};
use crate::protocol::envelope::{AespEnvelope, create_event, is_event};
use crate::text::str_eq;
use super::mission::Mission;
use super::state::{MissionState, mission_state_label, mission_state_name};
use super::errors::{MissionError, mission_error_message};

verus! {

/// The one mission the executor knows how to run.
pub open spec fn is_health_check(name: Seq<char>) -> bool {
    name == "SystemHealthCheck"@
}

/// The report of a successful health check.
pub open spec fn health_check_report(name: Seq<char>) -> Seq<char> {
    "Health Check Report for "@ + name + ": OK - All systems nominal."@
}

/// Why a mission the executor does not know fails.
pub open spec fn unknown_mission_reason(name: Seq<char>) -> Seq<char> {
    "Unknown mission: "@ + name
}

/// The members of the `mission.started` event.
pub open spec fn started_fields(m: Mission) -> Seq<(Seq<char>, Seq<char>)> {
    seq![("mission_id"@, uuid_text(m.id)), ("name"@, m.name@), ("state"@, mission_state_label(m.state))]
}

/// The members of the `mission.completed` event.
pub open spec fn completed_fields(m: Mission, report: Seq<char>) -> Seq<(Seq<char>, Seq<char>)> {
    seq![
        ("mission_id"@, uuid_text(m.id)),
        ("name"@, m.name@),
        ("state"@, mission_state_label(m.state)),
        ("report"@, report),
    ]
}

/// The members of the `mission.failed` event.
pub open spec fn failed_fields(m: Mission, error: Seq<char>) -> Seq<(Seq<char>, Seq<char>)> {
    seq![("mission_id"@, uuid_text(m.id)), ("name"@, m.name@), ("error"@, error)]
}

fn started_payload(m: &Mission) -> (res: String)
    ensures
        res@ == json_object_text(started_fields(*m)),
{
    let mut fields: Vec<(String, String)> = Vec::new();
    fields.push((String::from_str("mission_id"), uuid_to_string(m.id)));
    fields.push((String::from_str("name"), m.name.clone()));
    fields.push((String::from_str("state"), m.state.to_string()));
    proof {
        reveal_strlit("mission_id");
        reveal_strlit("name");
        reveal_strlit("state");
        assert("mission_id"@.len() != "name"@.len());
        assert("mission_id"@.len() != "state"@.len());
        assert("name"@.len() != "state"@.len());
        assert(pairs_view(fields@) =~= started_fields(*m));
    }
    assert(distinct_keys(pairs_view(fields@)));
    json_object(&fields)
}

fn completed_payload(m: &Mission, report: String) -> (res: String)
    ensures
        res@ == json_object_text(completed_fields(*m, report@)),
        json_str_field(res@, "mission_id"@) == Some(uuid_text(m.id)),
        json_str_field(res@, "name"@) == Some(m.name@),
        json_str_field(res@, "report"@) == Some(report@),
        uuid_parse(uuid_text(m.id)) matches Ok(v) && v == m.id,
{
    let mut fields: Vec<(String, String)> = Vec::new();
    fields.push((String::from_str("mission_id"), uuid_to_string(m.id)));
    fields.push((String::from_str("name"), m.name.clone()));
    fields.push((String::from_str("state"), m.state.to_string()));
    fields.push((String::from_str("report"), report));
    proof {
        reveal_strlit("mission_id");
        reveal_strlit("name");
        reveal_strlit("state");
        reveal_strlit("report");
        assert("mission_id"@.len() != "name"@.len());
        assert("mission_id"@.len() != "state"@.len());
        assert("mission_id"@.len() != "report"@.len());
        assert("name"@.len() != "state"@.len());
        assert("name"@.len() != "report"@.len());
        assert("state"@.len() != "report"@.len());
        assert(pairs_view(fields@) =~= completed_fields(*m, report@));
    }
    assert(distinct_keys(pairs_view(fields@)));
    proof {
        lemma_lookup_at(pairs_view(fields@), 0);
        lemma_lookup_at(pairs_view(fields@), 1);
        lemma_lookup_at(pairs_view(fields@), 3);
    }
    json_object(&fields)
}

fn failed_payload(m: &Mission, error: String) -> (res: String)
    ensures
        res@ == json_object_text(failed_fields(*m, error@)),
{
    let mut fields: Vec<(String, String)> = Vec::new();
    fields.push((String::from_str("mission_id"), uuid_to_string(m.id)));
    fields.push((String::from_str("name"), m.name.clone()));
    fields.push((String::from_str("error"), error));
    proof {
        reveal_strlit("mission_id");
        reveal_strlit("name");
        reveal_strlit("error");
        assert("mission_id"@.len() != "name"@.len());
        assert("mission_id"@.len() != "error"@.len());
        assert("name"@.len() != "error"@.len());
        assert(pairs_view(fields@) =~= failed_fields(*m, error@));
    }
    assert(distinct_keys(pairs_view(fields@)));
    json_object(&fields)
}

/// What running `mission` gives: the events returned for publishing and
/// the outcome. A mission that is not `Scheduled` is refused with no event;
/// a scheduled one yields `mission.started`, then `mission.completed` (a
/// health check) or `mission.failed` (any other mission).
pub open spec fn execution_outcome(
    mission: Mission,
    events: Seq<AespEnvelope>,
    result: Result<(), MissionError>,
) -> bool {
    &&& (mission.state != MissionState::Scheduled ==> {
        &&& events.len() == 0
        &&& result matches Err(MissionError::InvalidStateTransition { from, to })
        &&& from@ == mission_state_name(mission.state)
        &&& to@ == mission_state_name(MissionState::Running)
    })
    &&& (mission.state == MissionState::Scheduled ==> {
        let running = (Mission { state: MissionState::Running, ..mission });
        &&& events.len() == 2
        &&& is_event(
            events[0],
            "executor"@,
            "mission.started"@,
            json_object_text(started_fields(running)),
        )
        &&& is_health_check(mission.name@) ==> {
            &&& result is Ok
            &&& json_str_field(events[1].payload@, "mission_id"@) == Some(uuid_text(mission.id))
            &&& uuid_parse(uuid_text(mission.id)) matches Ok(v) && v == mission.id
            &&& json_str_field(events[1].payload@, "name"@) == Some(mission.name@)
            &&& json_str_field(events[1].payload@, "report"@) == Some(
                health_check_report(mission.name@),
            )
            &&& is_event(
                events[1],
                "executor"@,
                "mission.completed"@,
                json_object_text(
                    completed_fields(
                        (Mission { state: MissionState::Completed, ..mission }),
                        health_check_report(mission.name@),
                    ),
                ),
            )
        }
        &&& !is_health_check(mission.name@) ==> {
            &&& result matches Err(MissionError::ExecutionFailed(why))
            &&& why@ == unknown_mission_reason(mission.name@)
            &&& is_event(
                events[1],
                "executor"@,
                "mission.failed"@,
                json_object_text(
                    failed_fields(
                        (Mission { state: MissionState::Failed, ..mission }),
                        "Execution failed: "@ + unknown_mission_reason(mission.name@),
                    ),
                ),
            )
        }
    })
}

/// Only the health check completes. Run on a scheduled mission, the
/// executor succeeds exactly when the mission's name is
/// `SystemHealthCheck`, and then reports `Health Check Report for
/// SystemHealthCheck: OK - All systems nominal.` in a `mission.completed`
/// event. Every other name fails with `Unknown mission: <name>`, announced
/// in a `mission.failed` event whose error is `Execution failed: Unknown
/// mission: <name>`. Either way `mission.started` comes first.
pub proof fn lemma_only_health_check_completes(
    mission: Mission,
    events: Seq<AespEnvelope>,
    result: Result<(), MissionError>,
)
    requires
        mission.state == MissionState::Scheduled,
        execution_outcome(mission, events, result),
    ensures
        events.len() == 2,
        events[0].topic@ == "mission.started"@,
        result is Ok <==> mission.name@ == "SystemHealthCheck"@,
        mission.name@ == "SystemHealthCheck"@ ==> {
            &&& events[1].topic@ == "mission.completed"@
            &&& json_str_field(events[1].payload@, "report"@) == Some(
                "Health Check Report for "@ + mission.name@ + ": OK - All systems nominal."@,
            )
        },
        mission.name@ != "SystemHealthCheck"@ ==> {
            &&& result matches Err(MissionError::ExecutionFailed(why))
            &&& why@ == "Unknown mission: "@ + mission.name@
            &&& events[1].topic@ == "mission.failed"@
            &&& events[1].payload@ == json_object_text(
                seq![
                    ("mission_id"@, uuid_text(mission.id)),
                    ("name"@, mission.name@),
                    ("error"@, "Execution failed: "@ + ("Unknown mission: "@ + mission.name@)),
                ],
            )
        },
{
}

pub struct MissionExecutor;

impl MissionExecutor {
    pub fn new() -> (res: Self) {
        MissionExecutor
    }

    /// Runs a scheduled mission. A mission that cannot move to `Running` is
    /// refused before anything else happens. Otherwise the mission runs,
    /// then completes (a health check) or fails (any other mission); the
    /// `mission.started` event and then `mission.completed` or
    /// `mission.failed` are returned for publishing.
    pub fn execute(&self, mission: Mission) -> (res: (Vec<AespEnvelope>, Result<(), MissionError>))
        ensures
            execution_outcome(mission, res.0@, res.1),
            mission.state == MissionState::Scheduled ==> (res.1 is Ok <==> mission.name@ == "SystemHealthCheck"@),
            mission.state == MissionState::Scheduled && mission.name@ != "SystemHealthCheck"@ ==> {
                &&& res.1 matches Err(MissionError::ExecutionFailed(why))
                &&& why@ == "Unknown mission: "@ + mission.name@
                &&& res.0@[1].topic@ == "mission.failed"@
            },
    {
        let mut mission = mission;
        if let Err(e) = mission.transition_to(MissionState::Running) {
            return (Vec::new(), Err(e));
        }
        let mut events: Vec<AespEnvelope> = Vec::new();
        events.push(create_event("executor", "mission.started", started_payload(&mission)));
        match self.run_mission_logic(&mission) {
            Ok(report) => {
                let done = mission.transition_to(MissionState::Completed);
                assert(done is Ok);
                events.push(
                    create_event("executor", "mission.completed", completed_payload(&mission, report)),
                );
                (events, Ok(()))
            },
            Err(e) => {
                let failed = mission.transition_to(MissionState::Failed);
                assert(failed is Ok);
                events.push(create_event("executor", "mission.failed", failed_payload(&mission, e.to_string())));
                (events, Err(e))
            },
        }
    }

    fn run_mission_logic(&self, mission: &Mission) -> (res: Result<String, MissionError>)
        ensures
            is_health_check(mission.name@) ==> (res matches Ok(report) && report@
                == health_check_report(mission.name@)),
            !is_health_check(mission.name@) ==> (res matches Err(MissionError::ExecutionFailed(why))
                && why@ == unknown_mission_reason(mission.name@)),
            res is Ok <==> mission.name@ == "SystemHealthCheck"@,
            res matches Ok(report) ==> report@ == "Health Check Report for "@ + mission.name@
                + ": OK - All systems nominal."@,
            res matches Err(e) ==> (e matches MissionError::ExecutionFailed(why) && why@ == "Unknown mission: "@
                + mission.name@),
    {
        if str_eq(mission.name.as_str(), "SystemHealthCheck") {
            let mut report = String::from_str("Health Check Report for ");
            report.append(mission.name.as_str());
            report.append(": OK - All systems nominal.");
            Ok(report)
        } else {
            let mut why = String::from_str("Unknown mission: ");
            why.append(mission.name.as_str());
            Err(MissionError::ExecutionFailed(why))
        }
    }
}

} // verus!
