//! Knowledge: facts the system has learned, always derived from evidence,
//! the repository that stores them, the manager that records them and the
//! handler that turns completed missions into knowledge.

pub mod category;
pub mod source;
pub mod errors;
pub mod evidence;
pub mod knowledge;
pub mod command;
pub mod repository;
pub mod manager;
pub mod event_handler;
