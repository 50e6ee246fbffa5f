//! Endpoint choice, retries and the request queue.
use vstd::prelude::*;
use vstd::string::*;
use vstd::arithmetic::div_mod::{lemma_add_mod_noop, lemma_small_mod, lemma_mod_add_multiples_vanish};

verus! {

/// The endpoint that the request numbered `counter` goes to among `count`
/// endpoints: they take turns.
pub fn endpoint_index(counter: usize, count: usize) -> (i: usize)
    requires
        count > 0,
    ensures
        i == counter % count,
        i < count,
{
    counter % count
}

/// Any `count` consecutive requests reach every one of the `count` endpoints: the
/// endpoint `k` serves the request numbered `start + offset` for the offset given.
pub proof fn round_robin_reaches_every_endpoint(start: nat, count: nat, k: nat) -> (offset: nat)
    requires
        count > 0,
        k < count,
    ensures
        offset < count,
        (start + offset) % count == k,
{
    let c = (start % count) as nat;
    let offset: nat = if k >= c { (k - c) as nat } else { (k + count - c) as nat };
    lemma_add_mod_noop(start as int, offset as int, count as int);
    lemma_small_mod(offset, count);
    lemma_small_mod(c, count);
    if k >= c {
        lemma_small_mod(k, count);
    } else {
        lemma_mod_add_multiples_vanish(k as int, count as int);
        lemma_small_mod(k, count);
    }
    offset
}

/// What follows a failed attempt: try again after waiting, or give up with the error.
#[derive(Debug, Clone, Copy, PartialEq, Eq)]
pub enum RetryDecision {
    RetryAfterDelay,
    GiveUp,
}

/// The decision after a failure when `retries` retries have been made; without a
/// retry configuration (no `max_retries`) the first failure is final.
pub open spec fn retry_decision(max_retries: Option<usize>, retries: usize) -> RetryDecision {
    match max_retries {
        Some(m) => if retries < m { RetryDecision::RetryAfterDelay } else { RetryDecision::GiveUp },
        None => RetryDecision::GiveUp,
    }
}

/// The decision after a failure.
pub fn after_failure(max_retries: Option<usize>, retries: usize) -> (d: RetryDecision)
    ensures
        d == retry_decision(max_retries, retries),
{
    match max_retries {
        Some(m) => if retries < m { RetryDecision::RetryAfterDelay } else { RetryDecision::GiveUp },
        None => RetryDecision::GiveUp,
    }
}

/// A request is tried at most `max_retries + 1` times: a retry is decided only while
/// fewer than `max_retries` retries have been made, and never without a retry
/// configuration.
pub proof fn retries_are_bounded(max_retries: Option<usize>, retries: usize)
    ensures
        retry_decision(max_retries, retries) == RetryDecision::RetryAfterDelay
            ==> (max_retries matches Some(m) && retries + 1 <= m),
{
}

/// How many requests may wait for a slot at once.
pub const MAX_QUEUED_REQUESTS: usize = 1000;

/// What the request queue does with a request.
#[derive(Debug, Clone, Copy, PartialEq, Eq)]
pub enum Admission {
    /// A slot is free: send it now.
    RunNow,
    /// No slot is free: it waits its turn.
    Wait,
    /// No slot is free and too many requests wait: it fails.
    QueueFull,
}

/// Whether a request runs now (fewer than `max_concurrent` are running), or waits.
pub fn on_arrival(running: usize, max_concurrent: usize) -> (a: Admission)
    ensures
        a == (if running < max_concurrent { Admission::RunNow } else { Admission::Wait }),
{
    if running < max_concurrent { Admission::RunNow } else { Admission::Wait }
}

/// What happens to a waiting request once it is queued behind `waiting` others in
/// all (itself included): it fails when more than the limit are waiting.
pub fn after_enqueue(waiting: usize) -> (a: Admission)
    ensures
        a == (if waiting > MAX_QUEUED_REQUESTS { Admission::QueueFull } else { Admission::Wait }),
{
    if waiting > MAX_QUEUED_REQUESTS { Admission::QueueFull } else { Admission::Wait }
}

/// The URL of a request: the endpoint's URL followed by the path.
pub fn request_url(endpoint_url: &str, path: &str) -> (u: String)
    ensures
        u@ == endpoint_url@ + path@,
{
    String::from_str(endpoint_url).concat(path)
}

/// The `Authorization` header value for an API token.
pub fn bearer(token: &str) -> (v: String)
    ensures
        v@ == "Bearer "@ + token@,
{
    String::from_str("Bearer ").concat(token)
}

} // verus!
