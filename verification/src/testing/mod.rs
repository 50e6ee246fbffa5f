//! Helpers for tests.
pub mod assertions;
pub mod database;
