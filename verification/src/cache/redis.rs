//! The Redis-backed store.
use vstd::prelude::*;

verus! {

#[verifier::external_type_specification]
#[verifier::external_body]
pub struct ExRedisClient(redis::Client);

#[verifier::external_type_specification]
#[verifier::external_body]
pub struct ExRedisError(redis::RedisError);

/// Whether `redis::Client::open` accepts `url`: it parses it as a URL with a Redis
/// scheme and checks the parts that the scheme needs. The answer depends on the
/// text alone.
pub uninterp spec fn redis_url_accepted(url: Seq<char>) -> bool;

/// `redis::Client::open` on a URL: succeeds exactly when `redis_url_accepted`. It
/// opens no connection.
#[verifier::external_body]
fn open_client(url: &str) -> (r: Result<redis::Client, redis::RedisError>)
    ensures
        r is Ok <==> redis_url_accepted(url@),
{
    redis::Client::open(url)
}

/// The message of a Redis error, as its `Display` writes it. Nothing is stated of it.
#[verifier::external_body]
pub(crate) fn redis_error_text(e: &redis::RedisError) -> String {
    e.to_string()
}

/// A cache store kept in Redis.
pub struct RedisStore {
    client: redis::Client,
}

impl RedisStore {
    /// A store for the server at `url`; fails when the URL is not one that the
    /// Redis client accepts.
    pub fn new(url: &str) -> (r: Result<Self, redis::RedisError>)
        ensures
            r is Ok <==> redis_url_accepted(url@),
    {
        match open_client(url) {
            Ok(client) => Ok(RedisStore { client }),
            Err(e) => Err(e),
        }
    }

    /// The client the store was built with.
    pub closed spec fn spec_client(&self) -> redis::Client {
        self.client
    }

    /// The client the store talks through.
    pub fn client(&self) -> (c: &redis::Client)
        ensures
            *c == self.spec_client(),
    {
        &self.client
    }
}

} // verus!
