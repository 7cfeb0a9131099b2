//! Verified core of the GlazeWM session and workspace-focus logic.
//!
//! The modules hold a model of the window manager's state, the decisions
//! taken on session changes (lock, unlock, sleep, resume), on window title
//! changes, and when a workspace is focused, each with its contract.

pub mod error;
pub mod events;
pub mod events_laws;
pub mod wellformed;
pub mod model;
pub mod session;
pub mod workspace;
pub mod workspace_laws;
