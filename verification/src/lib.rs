//! A single-threaded reactor that multiplexes directory-change notifications
//! and a non-blocking client connection into one ordered queue of events.

pub mod command;
pub mod config;
pub mod event;
pub mod queue;
pub mod reactor;
pub mod scoped;
pub mod session;
pub mod watch;
