//! Turning a `mission.completed` event into a command to store knowledge.
//!
//! Subscribing the handler to the bus is the caller's part; this module
//! decides what an event is worth.

use vstd::prelude::*;
use crate::ids::{uuid_parse, uuid_text, parse_uuid};
use crate::json::{json_str_field, json_field};
use crate::protocol::envelope::AespEnvelope;
use super::category::KnowledgeCategory;
use super::source::KnowledgeSource;
use super::evidence::Evidence;
use super::command::StoreKnowledgeCommand;
use super::errors::KnowledgeError;
use crate::mission::mission::Mission;
use crate::mission::state::MissionState;
use crate::mission::errors::MissionError;
use crate::mission::executor::{execution_outcome, is_health_check, health_check_report};

verus! {

/// The mission's name as the payload gives it, or `unknown mission`.
pub open spec fn mission_name_of(payload: Seq<char>) -> Seq<char> {
    match json_str_field(payload, "name"@) {
        Some(n) => n,
        None => "unknown mission"@,
    }
}

/// The mission's report as the payload gives it, or `no report provided`.
pub open spec fn mission_report_of(payload: Seq<char>) -> Seq<char> {
    match json_str_field(payload, "report"@) {
        Some(r) => r,
        None => "no report provided"@,
    }
}

/// `cmd` records, as operational knowledge from a mission's execution, that
/// the mission `mission_id` described by `payload` completed: its title
/// names the mission and its evidence is the mission's report.
pub open spec fn completion_command(cmd: StoreKnowledgeCommand, mission_id: u128, payload: Seq<char>) -> bool {
    &&& cmd.title@ == "Mission completed: "@ + mission_name_of(payload)
    &&& cmd.category == KnowledgeCategory::Operational
    &&& cmd.source == KnowledgeSource::MissionExecution
    &&& cmd.evidence.mission_id == Some(mission_id)
    &&& cmd.evidence.content@ == mission_report_of(payload)
}

/// What `handle_mission_completed` gives for an event whose payload is
/// `payload`: an error when the `mission_id` member is missing or does not
/// spell a UUID, and otherwise the command that records the completion.
pub open spec fn completion_outcome(
    payload: Seq<char>,
    res: Result<StoreKnowledgeCommand, KnowledgeError>,
) -> bool {
    match json_str_field(payload, "mission_id"@) {
        None => res matches Err(KnowledgeError::MissingField(f)) && f@ == "mission_id"@,
        Some(text) => match uuid_parse(text) {
            Err(msg) => res matches Err(KnowledgeError::IdParseError(m)) && m@ == msg,
            Ok(id) => res matches Ok(cmd) && completion_command(cmd, id, payload),
        },
    }
}

/// A completed mission turns into knowledge. For a scheduled health-check
/// mission, the `mission.completed` event that `MissionExecutor::execute`
/// returns is accepted by `handle_mission_completed`, and the command it
/// gives records operational knowledge from that mission's execution: the
/// evidence is linked to the mission and holds its report, and the title
/// names the mission.
pub proof fn lemma_completed_mission_becomes_knowledge(
    mission: Mission,
    events: Seq<AespEnvelope>,
    result: Result<(), MissionError>,
    handled: Result<StoreKnowledgeCommand, KnowledgeError>,
)
    requires
        mission.state == MissionState::Scheduled,
        is_health_check(mission.name@),
        execution_outcome(mission, events, result),
        completion_outcome(events[1].payload@, handled),
    ensures
        result is Ok,
        events.len() == 2,
        events[1].topic@ == "mission.completed"@,
        handled matches Ok(cmd) && {
            &&& cmd.title@ == "Mission completed: "@ + mission.name@
            &&& cmd.category == KnowledgeCategory::Operational
            &&& cmd.source == KnowledgeSource::MissionExecution
            &&& cmd.evidence.mission_id == Some(mission.id)
            &&& cmd.evidence.content@ == health_check_report(mission.name@)
        },
{
}

/// Reads a `mission.completed` event. The payload must carry the mission's
/// identifier as a string member `mission_id` that spells a UUID; `name`
/// and `report` are optional.
pub fn handle_mission_completed(env: &AespEnvelope) -> (res: Result<StoreKnowledgeCommand, KnowledgeError>)
    ensures
        completion_outcome(env.payload@, res),
{
    let payload = env.payload.as_str();
    let id_text = match json_field(payload, "mission_id") {
        Some(t) => t,
        None => return Err(KnowledgeError::MissingField(String::from_str("mission_id"))),
    };
    let mission_id = match parse_uuid(id_text.as_str()) {
        Ok(v) => v,
        Err(msg) => return Err(KnowledgeError::IdParseError(msg)),
    };
    let mission_name = match json_field(payload, "name") {
        Some(n) => n,
        None => String::from_str("unknown mission"),
    };
    let report = match json_field(payload, "report") {
        Some(r) => r,
        None => String::from_str("no report provided"),
    };
    let evidence = Evidence::new(mission_id, report);
    let mut title = String::from_str("Mission completed: ");
    title.append(mission_name.as_str());
    Ok(StoreKnowledgeCommand {
        title,
        category: KnowledgeCategory::Operational,
        source: KnowledgeSource::MissionExecution,
        evidence,
    })
}

} // verus!
