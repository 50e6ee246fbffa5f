//! Durations of whole seconds.
use vstd::prelude::*;
use core::time::Duration;

verus! {

/// The duration of `secs` whole seconds, as `Duration::from_secs` builds it.
pub uninterp spec fn seconds_duration(secs: u64) -> Duration;

/// `Duration::from_secs`: its result depends on the number of seconds alone, and is
/// named `seconds_duration` of it.
pub assume_specification[ core::time::Duration::from_secs ](secs: u64) -> (d: Duration)
    ensures
        d == seconds_duration(secs),
;

} // verus!
