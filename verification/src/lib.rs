//! Supervisor for a bundled sidecar server process.
//!
//! The host shell (the desktop framework around this library) performs all
//! I/O: it resolves resource paths, checks the filesystem, reads the
//! environment, spawns the child process, and attempts TCP connects. This
//! library holds every decision that supervision takes on those observations:
//! which resource candidate wins, whether an environment-supplied runtime
//! override is trusted, what command line and environment the child gets,
//! when the readiness poll gives up, and how the process slot changes when
//! the child is stored or killed.

pub mod config;
pub mod error;
pub mod launcher;
pub mod locator;
pub mod probe;
pub mod supervisor;
pub mod trusted_override;
