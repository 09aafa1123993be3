//! The browser's query cache: its operations, its lifecycle, its answers.

pub mod answers;
pub mod filtering;
pub mod interner;
pub mod laws;
pub mod reports;
pub mod settling;
pub mod state;
pub mod storage;
pub mod writing;
