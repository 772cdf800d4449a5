//! Commit-message generation pipeline: diff intake, prompt rendering,
//! interpretation of the generation service's replies, the accept /
//! regenerate / cancel loop and the commit and push sequence, as a state
//! machine driven by a host that performs its actions.
pub mod config;
pub mod diff;
pub mod error;
pub mod models;
pub mod prompt;
pub mod reply;
pub mod session;
pub mod text;
