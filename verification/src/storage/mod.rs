//! File storage: disk configuration and the local driver's path and URL rules.
pub mod config;
pub mod local;
