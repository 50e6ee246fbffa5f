//! The decisions of the cache facade, taken on what the store answered: when a
//! computed value is stored, what is answered, and when an entry is removed or
//! written.
use vstd::prelude::*;

verus! {

/// What `remember` and `remember_forever` do after looking the key up.
pub enum RememberStep<T> {
    /// Answer with the cached value.
    Answer(T),
    /// Compute the value and store it.
    ComputeAndStore,
}

/// The step after a lookup that found `cached`: a cached value is answered as it is,
/// and the value is computed only on a miss.
pub fn remember_step<T>(cached: Option<T>) -> (s: RememberStep<T>)
    ensures
        match cached {
            Some(v) => s == RememberStep::Answer(v),
            None => s == RememberStep::<T>::ComputeAndStore,
        },
{
    match cached {
        Some(v) => RememberStep::Answer(v),
        None => RememberStep::ComputeAndStore,
    }
}

/// What `remember` answers after computing `value` on a miss: the value when the
/// store kept it, nothing when it did not.
pub fn remember_answer<T>(value: T, stored: bool) -> (r: Option<T>)
    ensures
        stored ==> r == Some(value),
        !stored ==> r is None,
{
    if stored {
        Some(value)
    } else {
        None
    }
}

/// Whether `pull` removes the key after reading `value`: exactly when it found one.
pub fn pull_forgets<T>(value: &Option<T>) -> (f: bool)
    ensures
        f == value is Some,
{
    value.is_some()
}

/// Whether `add` writes, given whether the key already exists: only when it does not,
/// so an existing entry is never overwritten.
pub fn add_writes(exists: bool) -> (w: bool)
    ensures
        w == !exists,
{
    !exists
}

/// What `flexible` does after looking the key up.
pub enum FlexibleStep<T> {
    /// Answer with the cached value, possibly stale, and refresh it in the background
    /// for the time to live.
    AnswerAndRefresh(T),
    /// Compute the value, store it for the time to live plus the grace period, and
    /// answer with it.
    ComputeAndStoreWithGrace,
}

/// The step of `flexible` after a lookup that found `cached`.
pub fn flexible_step<T>(cached: Option<T>) -> (s: FlexibleStep<T>)
    ensures
        match cached {
            Some(v) => s == FlexibleStep::AnswerAndRefresh(v),
            None => s == FlexibleStep::<T>::ComputeAndStoreWithGrace,
        },
{
    match cached {
        Some(v) => FlexibleStep::AnswerAndRefresh(v),
        None => FlexibleStep::ComputeAndStoreWithGrace,
    }
}

} // verus!
