//! Goals: long-lived objectives with a validated lifecycle, the repository
//! that stores them and the manager that creates them.

pub mod lifecycle;
pub mod errors;
pub mod constraint;
pub mod objective;
pub mod goal_id;
pub mod goal;
pub mod command;
pub mod repository;
pub mod manager;
