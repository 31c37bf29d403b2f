//! A scheduled chat-channel notifier for a daily "Happy Hour" window.
//!
//! The library holds the verified core: the window model over Unix
//! seconds, the cron-expression generator, the message renderer, the
//! channel-state classifier and the reconciliation planner. The
//! surrounding program feeds observations (the clock, the channel's
//! recent messages, environment values) in as plain values and carries
//! the planned gateway actions out.

pub mod clock;
pub mod config;
pub mod crontime;
pub mod env_vars;
pub mod decimal;
pub mod messages_generator;
pub mod notifier;
pub mod window;
