//! The rules that a store of cache entries follows: when an entry expires, and how
//! a counter moves. Times are whole seconds since the Unix epoch.
use vstd::prelude::*;

verus! {

/// One second in nanoseconds.
pub const NANOS_PER_SEC: u32 = 1_000_000_000;

/// The second at which an entry written at `now_secs` and `now_nanos` expires when
/// kept for `ttl` (seconds and nanoseconds): the whole seconds of the sum; none
/// when kept forever.
pub open spec fn expiration(now_secs: u64, now_nanos: u32, ttl: Option<(u64, u32)>) -> Option<int> {
    match ttl {
        None => None,
        Some((secs, nanos)) => Some(
            now_secs + secs + (if now_nanos + nanos >= NANOS_PER_SEC { 1int } else { 0int }),
        ),
    }
}

/// The expiration stored with an entry written now with `ttl`.
pub fn expiration_for(now_secs: u64, now_nanos: u32, ttl: Option<(u64, u32)>) -> (r: Option<i64>)
    requires
        now_nanos < NANOS_PER_SEC,
        ttl matches Some((secs, nanos)) ==> nanos < NANOS_PER_SEC && now_secs + secs + 1 <= i64::MAX,
    ensures
        match r {
            None => expiration(now_secs, now_nanos, ttl) is None,
            Some(e) => expiration(now_secs, now_nanos, ttl) == Some(e as int),
        },
{
    match ttl {
        None => None,
        Some((secs, nanos)) => {
            let carry: u64 = if now_nanos as u64 + nanos as u64 >= NANOS_PER_SEC as u64 { 1 } else { 0 };
            let total: u64 = now_secs + secs + carry;
            Some(total as i64)
        },
    }
}

/// Whether an entry with `expiration` is gone at second `now`: it has an expiration
/// and `now` is past it.
pub open spec fn expired(now: int, expiration: Option<int>) -> bool {
    match expiration {
        None => false,
        Some(e) => now > e,
    }
}

/// Whether an entry with `expiration` is gone at second `now`; a store forgets such
/// an entry and reports it missing.
pub fn is_expired(now: i64, expiration: Option<i64>) -> (r: bool)
    ensures
        r == expired(now as int, match expiration { None => None, Some(e) => Some(e as int) }),
{
    match expiration {
        None => false,
        Some(e) => now > e,
    }
}

/// The value a counter takes when `by` is added to `current`; none when the entry
/// is missing or does not hold an integer.
pub fn next_counter(current: Option<i64>, by: i64) -> (r: Option<i64>)
    requires
        current matches Some(c) ==> i64::MIN <= c + by <= i64::MAX,
    ensures
        match current {
            None => r is None,
            Some(c) => r == Some((c + by) as i64),
        },
{
    match current {
        None => None,
        Some(c) => Some(c + by),
    }
}

/// What an increment reports: the new value when it was computed and stored, else `0`.
pub fn increment_result(new_value: Option<i64>, stored: bool) -> (r: i64)
    ensures
        r == match new_value {
            Some(v) => if stored { v } else { 0 },
            None => 0,
        },
{
    match new_value {
        Some(v) => if stored { v } else { 0 },
        None => 0,
    }
}

/// What a decrement by `by` adds to the counter.
pub fn decrement_step(by: i64) -> (r: i64)
    requires
        by != i64::MIN,
    ensures
        r == -by,
{
    -by
}

/// An entry written with a time to live is present when it is written, and gone
/// one second after its expiration; an entry written without one never expires.
pub proof fn entry_lifetime(now_secs: u64, now_nanos: u32, ttl: Option<(u64, u32)>, later: int)
    requires
        now_nanos < NANOS_PER_SEC,
    ensures
        !expired(now_secs as int, expiration(now_secs, now_nanos, ttl)),
        ttl is None ==> !expired(later, expiration(now_secs, now_nanos, ttl)),
        (ttl is Some && later > expiration(now_secs, now_nanos, ttl)->0)
            ==> expired(later, expiration(now_secs, now_nanos, ttl)),
{
}

} // verus!
