//! The standalone `cargo-kit` tool: its commands and its errors.
pub mod commands;
pub mod error;
