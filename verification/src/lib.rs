//! Control plane of a statistics-serving background daemon.
//!
//! The library owns the daemon's lifecycle state machine, the control-channel
//! command vocabulary, the dispatcher that maps commands to lifecycle
//! operations and responses, the retry policy for delivering responses over a
//! non-blocking channel, and the parser for the statistics tool's
//! configuration file. All I/O (the unix socket transport, the HTTP surface,
//! signal handling) lives outside the library and hands it plain values.

pub mod lifecycle;
pub mod protocol;
pub mod dispatch;
pub mod sim;
pub mod laws;
pub mod config;
