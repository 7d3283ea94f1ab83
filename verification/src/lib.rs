//! Startup supervisor for a desktop application shell.
//!
//! The library holds the launcher's decision logic: deriving the launch
//! flags from environment-variable presence, deriving the backend's
//! working directory from the launcher's own location, building the
//! platform-specific spawn command, and planning the window-initialization
//! sequence. The thin binary around it performs the actual environment
//! reads, process spawn, and windowing calls.

pub mod backend;
pub mod config;
pub mod shell;
