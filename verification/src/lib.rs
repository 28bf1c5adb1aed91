//! Start-up decisions of a desktop application shell: which capability
//! plugins a build attaches to its host, in which order, and what becomes of
//! the process once the host's run loop has returned.
//!
//! The host itself (windows, event loop, plugin lifecycle) is not part of
//! this crate. Callers perform the steps that [`plan::startup_plan`] lists and
//! hand the run loop's result to [`outcome::conclude`].

pub mod outcome;
pub mod plan;
pub mod plugin;
