//! Small predicates and defaults that the stored form of the configuration
//! uses to leave out what holds its default value.

use vstd::prelude::*;
use vstd::std_specs::cmp::PartialEqSpec;

verus! {

/// The value of a switch that is on where nothing is stored for it.
pub fn default_true() -> (r: bool)
    ensures
        r,
{
    true
}

/// Is the switch on?
pub fn is_true(value: &bool) -> (r: bool)
    ensures
        r == *value,
{
    *value
}

/// Is the switch off?
pub fn is_false(value: &bool) -> (r: bool)
    ensures
        r == !*value,
{
    !*value
}

/// Is `value` equal to what `T::default()` hands out?
///
/// The answer is that of `T`'s own `==`, asked of `value` and of a value that
/// `T::default()` returned. Where `T` states what its `==` means, the answer
/// is what that meaning gives.
pub fn is_default<T: Default + PartialEq>(value: &T) -> (r: bool)
    ensures
        exists|d: T| #[trigger]
            call_ensures(T::default, (), d) && call_ensures(T::eq, (value, &d), r),
        T::obeys_eq_spec() ==> exists|d: T| #[trigger]
            call_ensures(T::default, (), d) && r == value.eq_spec(&d),
{
    let d = T::default();
    let r = *value == d;
    assert(call_ensures(T::default, (), d) && call_ensures(T::eq, (value, &d), r));
    assert(T::obeys_eq_spec() ==> call_ensures(T::default, (), d) && r == value.eq_spec(&d));
    r
}

/// Is the list empty?
pub fn vec_is_empty<T>(value: &Vec<T>) -> (r: bool)
    ensures
        r == (value@.len() == 0),
{
    value.is_empty()
}

/// The number that stands for none where nothing is stored.
pub fn default_minus_one() -> (r: i32)
    ensures
        r == -1,
{
    -1
}

/// Is the number the one that stands for none?
pub fn is_minus_one(value: &i32) -> (r: bool)
    ensures
        r == (*value == -1),
{
    *value == -1
}

} // verus!
