//! The database connection: the pool settings it is opened with, and the errors of
//! the database layer.
use vstd::prelude::*;
use core::time::Duration;
use crate::time::seconds_duration;

verus! {

/// What went wrong in the database layer.
pub enum DatabaseError {
    /// The connection could not be opened or was lost; the driver's message.
    ConnectionError(String),
    /// Anything else, with a message.
    Other(String),
}

/// The settings of the connection pool.
pub struct PoolOptions {
    pub max_connections: u32,
    pub min_connections: u32,
    pub connect_timeout: Duration,
    pub acquire_timeout: Duration,
    pub idle_timeout: Duration,
    pub max_lifetime: Duration,
    pub sqlx_logging: bool,
}

/// The database facade: one shared connection for the application.
pub struct DB;

impl DB {
    /// The pool settings every connection is opened with: up to a hundred
    /// connections, at least five, eight seconds for each timeout and for a
    /// connection's lifetime, with statement logging on.
    pub fn pool_options() -> (o: PoolOptions)
        ensures
            o.max_connections == 100,
            o.min_connections == 5,
            o.connect_timeout == seconds_duration(8),
            o.acquire_timeout == seconds_duration(8),
            o.idle_timeout == seconds_duration(8),
            o.max_lifetime == seconds_duration(8),
            o.sqlx_logging,
    {
        PoolOptions {
            max_connections: 100,
            min_connections: 5,
            connect_timeout: Duration::from_secs(8),
            acquire_timeout: Duration::from_secs(8),
            idle_timeout: Duration::from_secs(8),
            max_lifetime: Duration::from_secs(8),
            sqlx_logging: true,
        }
    }
}

} // verus!
