//! Startup-and-lifecycle orchestration core of a graphical editor front end.
//!
//! The library verifies the orchestration logic itself: how a panic is turned
//! into a durable log record, how the bootstrap sequence orders its steps, how
//! the lifecycle driver maps every way the UI loop can end to a process exit
//! code, and how the background runtime is shut down exactly once.  The
//! platform edges (the window system, the settings store, the embedded editor
//! process, file and environment access) stay outside and are reached only
//! through narrow trusted wrappers or through the caller.

pub mod bootstrap;
pub mod lifecycle;
pub mod panic_log;
pub mod panic_message;
pub mod text;
