//! What can go wrong with a mission.

use vstd::prelude::*;

verus! {

#[derive(Debug)]
pub enum MissionError {
    InvalidStateTransition { from: String, to: String },
    MissionNotFound(String),
    QueueFull,
    ExecutionFailed(String),
}

/// The message a mission error is displayed with.
pub open spec fn mission_error_message(e: MissionError) -> Seq<char> {
    match e {
        MissionError::InvalidStateTransition { from, to } => "Invalid state transition: "@ + from@
            + " -> "@ + to@,
        MissionError::MissionNotFound(id) => "Mission not found: "@ + id@,
        MissionError::QueueFull => "Queue is full"@,
        MissionError::ExecutionFailed(why) => "Execution failed: "@ + why@,
    }
}

impl MissionError {
    pub fn to_string(&self) -> (res: String)
        ensures
            res@ == mission_error_message(*self),
    {
        match self {
            MissionError::InvalidStateTransition { from, to } => {
                let mut s = String::from_str("Invalid state transition: ");
                s.append(from.as_str());
                s.append(" -> ");
                s.append(to.as_str());
                s
            },
            MissionError::MissionNotFound(id) => {
                let mut s = String::from_str("Mission not found: ");
                s.append(id.as_str());
                s
            },
            MissionError::QueueFull => String::from_str("Queue is full"),
            MissionError::ExecutionFailed(why) => {
                let mut s = String::from_str("Execution failed: ");
                s.append(why.as_str());
                s
            },
        }
    }
}

} // verus!
