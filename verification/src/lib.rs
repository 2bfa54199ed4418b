//! Selection and application engine for moving labelled change requests onto a
//! target branch, with the supporting configuration and list-state logic.

pub mod auth;
pub mod config;
pub mod discovery;
pub mod git;
pub mod github;
pub mod orchestrator;
pub mod text;
pub mod ui;
pub mod util;
