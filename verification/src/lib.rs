//! The core of the AES kernel: its message protocol, topic routing, mission
//! and goal lifecycles, knowledge records and the small kernel services, each
//! with a contract checked by Verus.

pub mod text;
pub mod protocol;
pub mod ids;
pub mod priority;
pub mod goals;
pub mod mission;
pub mod knowledge;
pub mod json;
pub mod event_bus;
pub mod registry;
pub mod state;
pub mod security;
pub mod health;
pub mod metrics;
pub mod tracing;
pub mod errors;
pub mod config;
pub mod bootstrap;
