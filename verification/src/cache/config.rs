//! Which store the cache uses.
use vstd::prelude::*;
use vstd::string::*;
use core::time::Duration;
use crate::time::seconds_duration;
use crate::cache::redis::{RedisStore, redis_url_accepted, redis_error_text};

verus! {

/// The kinds of store.
#[derive(Debug, Clone, Copy, PartialEq, Eq)]
pub enum CacheDriver {
    Database,
    Redis,
}

/// How the cache is set up.
pub struct CacheConfig {
    pub driver: CacheDriver,
    pub redis_url: Option<String>,
    pub default_ttl: Option<Duration>,
}

impl Default for CacheConfig {
    /// The database store, no Redis URL, entries kept for an hour.
    fn default() -> (c: Self)
        ensures
            c.driver == CacheDriver::Database,
            c.redis_url is None,
            c.default_ttl == Some(seconds_duration(3600)),
    {
        CacheConfig {
            driver: CacheDriver::Database,
            redis_url: None,
            default_ttl: Some(Duration::from_secs(3600)),
        }
    }
}

/// The store that the cache is set up with.
pub enum CacheBackend {
    /// Entries in the `cache` table of the application's database.
    Database,
    /// Entries in Redis.
    Redis(RedisStore),
}

/// The store that `config` selects: the database, or Redis at the configured URL.
/// Fails when Redis is selected and no URL is set, or when the URL is refused.
pub fn select_store(config: CacheConfig) -> (r: Result<CacheBackend, String>)
    ensures
        config.driver == CacheDriver::Database ==> (r matches Ok(CacheBackend::Database)),
        config.driver == CacheDriver::Redis && config.redis_url is None
            ==> (r matches Err(m) && m@ == "Redis URL not configured"@),
        config.driver == CacheDriver::Redis && config.redis_url is Some ==> (
            (r is Ok <==> redis_url_accepted(config.redis_url->0@))
            && (r is Ok ==> (r matches Ok(CacheBackend::Redis(_))))
        ),
{
    match config.driver {
        CacheDriver::Database => Ok(CacheBackend::Database),
        CacheDriver::Redis => match config.redis_url {
            None => Err(String::from_str("Redis URL not configured")),
            Some(url) => match RedisStore::new(url.as_str()) {
                Ok(store) => Ok(CacheBackend::Redis(store)),
                Err(e) => Err(redis_error_text(&e)),
            },
        },
    }
}

} // verus!
