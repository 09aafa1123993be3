//! The harness around agent sessions: its errors, its announcements, and who
//! it tells.

pub mod announcer;
pub mod chooser;
pub mod error;
pub mod laws;
pub mod mentions;
pub mod ports;
