//! Missions: units of temporary work with a validated lifecycle, the
//! bounded queue they wait in, the scheduler that admits them and the
//! executor that runs them.

pub mod state;
pub mod errors;
pub mod mission;
pub mod queue;
pub mod scheduler;
pub mod executor;
