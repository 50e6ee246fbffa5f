//! Chainable assertions. Each one checks its condition when it runs and stops the
//! program when it does not hold; a verified caller has to show beforehand that it
//! holds, so there the check always passes. Each hands back the receiver.
use vstd::prelude::*;
use vstd::pervasive::runtime_assert;
use core::fmt::Debug;

verus! {

/// Whether `a == b` comes out true, whatever `PartialEq::eq` returns for them.
pub open spec fn surely_equal<T: PartialEq>(a: &T, b: &T) -> bool {
    forall|r: bool| #[trigger] call_ensures(T::eq, (a, b), r) ==> r
}

/// Whether `a == b` comes out false, whatever `PartialEq::eq` returns for them.
pub open spec fn surely_unequal<T: PartialEq>(a: &T, b: &T) -> bool {
    forall|r: bool| #[trigger] call_ensures(T::eq, (a, b), r) ==> !r
}

/// Whether some item of `collection` is surely equal to `item`.
pub open spec fn surely_contains<T: PartialEq>(collection: Seq<T>, item: &T) -> bool {
    exists|i: int| 0 <= i < collection.len() && #[trigger] surely_equal(&collection[i], item)
}

/// Whether every item of `collection` is surely unequal to `item`.
pub open spec fn surely_lacks<T: PartialEq>(collection: Seq<T>, item: &T) -> bool {
    forall|i: int| 0 <= i < collection.len() ==> #[trigger] surely_unequal(&collection[i], item)
}

/// Whether an item of `collection` compares equal to `item`, comparing each item with
/// `item` in order and stopping at the first that does.
fn slice_contains<T: PartialEq>(collection: &[T], item: &T) -> (found: bool)
    ensures
        surely_contains(collection@, item) ==> found,
        surely_lacks(collection@, item) ==> !found,
{
    let mut i: usize = 0;
    while i < collection.len()
        invariant
            i <= collection@.len(),
            forall|j: int| 0 <= j < i ==> !surely_equal(#[trigger] &collection@[j], item),
        decreases collection@.len() - i,
    {
        let same = collection[i] == *item;
        if same {
            proof {
                if surely_lacks(collection@, item) {
                    assert(surely_unequal(&collection@[i as int], item));
                }
            }
            return true;
        }
        assert(!surely_equal(&collection@[i as int], item));
        i = i + 1;
    }
    proof {
        if surely_contains(collection@, item) {
            let k = choose|k: int| 0 <= k < collection@.len() && #[trigger] surely_equal(&collection@[k], item);
            assert(!surely_equal(&collection@[k], item));
        }
    }
    false
}

/// Common assertions, available on every value.
pub trait Assertions {
    /// `actual` equals `expected`.
    fn assert_equals<T: PartialEq + Debug>(&self, actual: T, expected: T) -> (r: &Self)
        requires
            surely_equal(&actual, &expected),
        ensures
            r == self,
    ;

    /// `value` holds.
    fn assert_true(&self, value: bool) -> (r: &Self)
        requires
            value,
        ensures
            r == self,
    ;

    /// `value` does not hold.
    fn assert_false(&self, value: bool) -> (r: &Self)
        requires
            !value,
        ensures
            r == self,
    ;

    /// `option` holds a value.
    fn assert_some<T: Debug>(&self, option: Option<T>) -> (r: &Self)
        requires
            option is Some,
        ensures
            r == self,
    ;

    /// `option` is empty.
    fn assert_none<T>(&self, option: Option<T>) -> (r: &Self)
        requires
            option is None,
        ensures
            r == self,
    ;

    /// `result` is a success.
    fn assert_ok<T: Debug, E>(&self, result: Result<T, E>) -> (r: &Self)
        requires
            result is Ok,
        ensures
            r == self,
    ;

    /// `result` is a failure.
    fn assert_err<T, E: Debug>(&self, result: Result<T, E>) -> (r: &Self)
        requires
            result is Err,
        ensures
            r == self,
    ;

    /// `collection` has exactly `count` items.
    fn assert_count<T>(&self, collection: &[T], count: usize) -> (r: &Self)
        requires
            collection@.len() == count,
        ensures
            r == self,
    ;

    /// `collection` has no items.
    fn assert_empty<T>(&self, collection: &[T]) -> (r: &Self)
        requires
            collection@.len() == 0,
        ensures
            r == self,
    ;

    /// `collection` has at least one item.
    fn assert_not_empty<T>(&self, collection: &[T]) -> (r: &Self)
        requires
            collection@.len() > 0,
        ensures
            r == self,
    ;

    /// `collection` holds `item`.
    fn assert_contains<T: PartialEq + Debug>(&self, collection: &[T], item: &T) -> (r: &Self)
        requires
            surely_contains(collection@, item),
        ensures
            r == self,
    ;

    /// `collection` does not hold `item`.
    fn assert_not_contains<T: PartialEq + Debug>(&self, collection: &[T], item: &T) -> (r: &Self)
        requires
            surely_lacks(collection@, item),
        ensures
            r == self,
    ;
}

impl<S> Assertions for S {
    fn assert_equals<T: PartialEq + Debug>(&self, actual: T, expected: T) -> (r: &Self) {
        let same = actual == expected;
        runtime_assert(same);
        self
    }

    fn assert_true(&self, value: bool) -> (r: &Self) {
        runtime_assert(value);
        self
    }

    fn assert_false(&self, value: bool) -> (r: &Self) {
        runtime_assert(!value);
        self
    }

    fn assert_some<T: Debug>(&self, option: Option<T>) -> (r: &Self) {
        runtime_assert(option.is_some());
        self
    }

    fn assert_none<T>(&self, option: Option<T>) -> (r: &Self) {
        runtime_assert(option.is_none());
        self
    }

    fn assert_ok<T: Debug, E>(&self, result: Result<T, E>) -> (r: &Self) {
        runtime_assert(result.is_ok());
        self
    }

    fn assert_err<T, E: Debug>(&self, result: Result<T, E>) -> (r: &Self) {
        runtime_assert(result.is_err());
        self
    }

    fn assert_count<T>(&self, collection: &[T], count: usize) -> (r: &Self) {
        runtime_assert(collection.len() == count);
        self
    }

    fn assert_empty<T>(&self, collection: &[T]) -> (r: &Self) {
        runtime_assert(collection.len() == 0);
        self
    }

    fn assert_not_empty<T>(&self, collection: &[T]) -> (r: &Self) {
        runtime_assert(collection.len() != 0);
        self
    }

    fn assert_contains<T: PartialEq + Debug>(&self, collection: &[T], item: &T) -> (r: &Self) {
        runtime_assert(slice_contains(collection, item));
        self
    }

    fn assert_not_contains<T: PartialEq + Debug>(&self, collection: &[T], item: &T) -> (r: &Self) {
        runtime_assert(!slice_contains(collection, item));
        self
    }
}

} // verus!
