//! The `collab init` wizard: a verified state machine that turns key presses
//! into a project configuration, together with the screen geometry it is
//! drawn with.

pub mod behaviour;
pub mod config;
pub mod keys;
pub mod laws;
pub mod layout;
pub mod screen;
pub mod screen_laws;
pub mod text;
pub mod wizard;
