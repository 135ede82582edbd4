//! Helpers on fixed-size arrays.

use vstd::prelude::*;
use vstd::std_specs::cmp::PartialEqSpec;

verus! {

/// An array with every element set to `fill`.
pub fn filled_array<T: Copy, const N: usize>(fill: T) -> (r: [T; N])
    ensures
        r@.len() == N,
        forall|i: int| 0 <= i < N ==> #[trigger] r@[i] == fill,
{
    [fill;N]
}

/// An array with every element set to `T::default()`.
pub fn default_array<T: Default + Copy, const N: usize>() -> (r: [T; N])
    ensures
        r@.len() == N,
        forall|i: int, j: int| 0 <= i < N && 0 <= j < N ==> #[trigger] r@[i] == #[trigger] r@[j],
{
    let d = T::default();
    filled_array(d)
}

/// Whether every element of the slice equals `T::default()`: for a type
/// whose `==` follows its specification, the result says exactly whether
/// each element equals the value that `T::default()` gave.
pub fn is_default_array<T: Default + PartialEq>(array: &[T]) -> (r: bool)
    ensures
        array@.len() == 0 ==> r,
        exists|d: T|
            #[trigger] call_ensures(T::default, (), d) && (T::obeys_eq_spec() ==> r == (forall|
                i: int,
            | 0 <= i < array@.len() ==> (#[trigger] array@[i]).eq_spec(&d))),
{
    let default_value = T::default();
    proof {
        assert(call_ensures(T::default, (), default_value));
    }
    let mut i: usize = 0;
    while i < array.len()
        invariant
            0 <= i <= array@.len(),
            call_ensures(T::default, (), default_value),
            T::obeys_eq_spec() ==> forall|j: int| 0 <= j < i ==> (#[trigger] array@[j]).eq_spec(&default_value),
        decreases array@.len() - i,
    {
        if array[i] != default_value {
            proof {
                assert(T::obeys_eq_spec() ==> !array@[i as int].eq_spec(&default_value));
                assert(call_ensures(T::default, (), default_value) && (T::obeys_eq_spec() ==> false
                    == (forall|j: int|
                    0 <= j < array@.len() ==> (#[trigger] array@[j]).eq_spec(&default_value))));
            }
            return false;
        }
        i = i + 1;
    }
    proof {
        assert(call_ensures(T::default, (), default_value) && (T::obeys_eq_spec() ==> true == (
        forall|j: int| 0 <= j < array@.len() ==> (#[trigger] array@[j]).eq_spec(&default_value))));
    }
    true
}

/// Whether every byte of the slice is zero.
pub fn is_zeroed_bytes(array: &[u8]) -> (r: bool)
    ensures
        r == (forall|i: int| 0 <= i < array@.len() ==> array@[i] == 0u8),
{
    let mut i: usize = 0;
    while i < array.len()
        invariant
            0 <= i <= array@.len(),
            forall|j: int| 0 <= j < i ==> array@[j] == 0u8,
        decreases array@.len() - i,
    {
        if array[i] != 0 {
            return false;
        }
        i = i + 1;
    }
    true
}

/// Whether every word of the slice is zero.
pub fn is_zeroed_words(array: &[u64]) -> (r: bool)
    ensures
        r == (forall|i: int| 0 <= i < array@.len() ==> array@[i] == 0u64),
{
    let mut i: usize = 0;
    while i < array.len()
        invariant
            0 <= i <= array@.len(),
            forall|j: int| 0 <= j < i ==> array@[j] == 0u64,
        decreases array@.len() - i,
    {
        if array[i] != 0 {
            return false;
        }
        i = i + 1;
    }
    true
}

} // verus!
