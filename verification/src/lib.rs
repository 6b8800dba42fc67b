//! Verified planning core of a git workflow driver.
//!
//! The library decides which external git / ssh commands to run, in which
//! order, and how to aggregate their results. It performs no I/O itself:
//! a thin unverified shell executes the commands the planner emits and
//! feeds the captured results back in.

pub mod action;
pub mod branches;
pub mod commands;
pub mod connect;
pub mod detect;
pub mod initrepo;
pub mod model;
pub mod pathnorm;
pub mod probes;
pub mod quote;
pub mod resolve;
pub mod text;
