//! A project autopilot: it drives managed projects around a loop of
//! stages (plan, execute, verify, document sync, cooldown, with a bug loop
//! and a blocked state), proposes and dispatches actions, backs off after
//! failures, and decides when to ask a person and when to report.

pub mod actions;
pub mod confirm;
pub mod control;
pub mod cycle;
pub mod daemon;
pub mod failure;
pub mod report;
pub mod setup;
pub mod suggest;
pub mod text;
pub mod types;
