//! Cursor cloud agents behind an agent-client session.

pub mod api;
pub mod backfill;
pub mod event;
pub mod event_laws;
pub mod git;
pub mod ingest;
pub mod ingest_laws;
pub mod journal;
pub mod laws;
pub mod loading;
pub mod model;
pub mod models;
pub mod polling;
pub mod projection;
pub mod queueing;
pub mod registry;
pub mod replay_laws;
pub mod session;
pub mod session_laws;
pub mod stopping;
pub mod turn;
pub mod turn_laws;
pub mod wire;
pub mod wire_laws;
