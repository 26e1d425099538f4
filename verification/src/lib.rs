//! Verified core of a remote deployment manager.
//!
//! The crate models the lifecycle of a compiled binary on a remote host:
//! connecting with bounded retry, backing up and uploading the binary,
//! driving a service unit, and aggregating health status. All decision
//! logic lives here as verified functions; the surrounding process
//! (network, terminal, file system) drives these functions from outside.

pub mod artifact;
pub mod cli;
pub mod config;
pub mod deploy;
pub mod errors;
pub mod host;
pub mod laws;
pub mod logging;
pub mod monitor;
pub mod remote;
pub mod rollback;
pub mod runner;
pub mod session;
pub mod strutil;
pub mod systemd;
pub mod timefmt;
pub mod tui;
pub mod utils;

pub use logging::LogLevel;
