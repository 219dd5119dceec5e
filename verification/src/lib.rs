//! Controlled recursive agent spawning.
//!
//! An agent may hand a task to a child agent. How deep such delegation goes,
//! which roles may delegate to which, what a child is told and allowed to do,
//! and how its outcome is reported are decided here. Every decision is a
//! function of plain values; the surrounding program performs the effects.
pub mod agent;
pub mod args;
pub mod behaviour;
pub mod conduct;
pub mod config;
pub mod depth;
pub mod effect;
pub mod error;
pub mod faithful;
pub mod handler;
pub mod lifecycle;
pub mod prompt;
pub mod result;
pub mod role;
pub mod spawn;
pub mod task;
pub mod text;
pub mod tools;
pub mod wait;
pub mod watch;
