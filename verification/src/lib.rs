//! Bridge engine between a local meeting-status feed and a remote state
//! store: decodes meeting-state events, detects transitions, decides when a
//! notification is owed, and supplies the session and supervisor decisions.

pub mod configuration;
pub mod session;
pub mod teams_api;
pub mod teams_states;
pub mod utils;
