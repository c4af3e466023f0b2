//! Crash-pause support: when a fatal signal arrives, the first faulting
//! thread prints where to attach a debugger and waits for the operator;
//! any later fault aborts at once.
//!
//! This crate holds the decisions and the text. Registering the handler,
//! the process-wide flag and the terminal I/O live with the caller.

pub mod signals;
pub mod text;
pub mod handler;
