//! Settings of the process: where they come from and what they may hold.

pub mod config;
pub mod tracing;
