//! Reading what an agent's harness reports about its own work.

pub mod cursor;
pub mod laws;
pub mod metadata;
