//! Decision logic of the agent platform, verified.
//!
//! Everything here is a pure function or a plain state machine: network,
//! storage, clocks and transports stay with the host, which performs the
//! actions these modules ask for and hands back what came of them.

pub mod cache;
pub mod cursor;
pub mod decimal;
pub mod fold;
pub mod harness;
pub mod identity;
pub mod json;
pub mod notifications;
pub mod ordered;
pub mod sessions;
pub mod text;
