pub mod text;
pub mod time;
pub mod cache;
pub mod pattern;
pub mod database;
pub mod validation;
pub mod middleware;
pub mod inertia;
pub mod queue;
pub mod schedule;
pub mod storage;
pub mod cli;
pub mod testing;
pub mod kit;
pub mod http;
