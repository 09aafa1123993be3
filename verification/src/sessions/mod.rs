//! Agent sessions: their records and the facts of their lifecycle.

pub mod events;
pub mod model;
