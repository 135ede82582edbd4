//! Uniform borrowing of a value held directly, by reference, or shared.

use std::sync::Arc;
use vstd::prelude::*;

verus! {

/// Borrows the `T` a holder stands for.
pub trait JustRef<T> {
    /// The held value.
    fn just_ref(&self) -> &T;
}

impl<T> JustRef<T> for T {
    fn just_ref(&self) -> (r: &T)
        ensures
            *r == *self,
    {
        self
    }
}

impl<'a, T> JustRef<T> for &'a T {
    fn just_ref(&self) -> &T {
        *self
    }
}

impl<T> JustRef<T> for Arc<T> {
    fn just_ref(&self) -> &T {
        &**self
    }
}

impl<'a, T> JustRef<T> for &'a Arc<T> {
    fn just_ref(&self) -> &T {
        &***self
    }
}

} // verus!
