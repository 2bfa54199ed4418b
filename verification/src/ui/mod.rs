//! State and decisions of the front end, kept apart from drawing and input.

pub mod app;
pub mod components;
pub mod config_selector;
pub mod events;
pub mod selector;
pub mod simple_input;
pub mod state;
