//! Hooks on the agents' runtimes.

pub mod file_logging;
