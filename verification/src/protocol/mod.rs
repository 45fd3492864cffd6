//! The AES message protocol: envelopes, their kinds, topics and correlation
//! identifiers.

pub mod message;
pub mod correlation;
pub mod topic;
pub mod envelope;
