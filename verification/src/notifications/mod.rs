//! Agent-session lifecycle facts, turned into notifications for people.

pub mod consumer;
pub mod laws;
pub mod plan;
