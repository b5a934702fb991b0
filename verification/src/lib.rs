//! The decisions of a desktop shell that pauses its front end whenever its
//! window loses input focus.
//!
//! The host framework owns the windows, the event bus and the process. This
//! crate owns what is decided: which notification a window event calls for,
//! what is attached at startup, and when a failure ends the process.

pub mod event;
pub mod notifier;
pub mod outcome;
pub mod startup;
