//! The cache: its configuration, the choice of store, and the rules the stores
//! follow for expiry and counters.
pub mod config;
pub mod redis;
pub mod entries;
pub mod facade;
