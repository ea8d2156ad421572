//! The decision core of a minimal init process: which command a signal starts,
//! when exited children are collected, and which failures end the system.
//!
//! Nothing here touches the operating system. A driver performs each
//! [`supervisor::Action`] and reports what came of it as a
//! [`supervisor::Event`]; every decision in between is taken, and proved, here.

pub mod signal;
pub mod reaper;
pub mod failure;
pub mod runner;
pub mod config;
pub mod supervisor;
pub mod trace;
pub mod laws;
