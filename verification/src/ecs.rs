//! Plain ownership of a value that a registry of resources holds.

use vstd::prelude::*;

verus! {

/// Owns one value on behalf of a registry.
pub struct ResourceWrapper<T>(T);

impl<T> View for ResourceWrapper<T> {
    type V = T;

    closed spec fn view(&self) -> T {
        self.0
    }
}

impl<T> ResourceWrapper<T> {
    /// Wraps `value`.
    pub fn new(value: T) -> (wrapper: Self)
        ensures
            wrapper@ == value,
    {
        ResourceWrapper(value)
    }

    /// Hands the value out again.
    pub fn into_inner(self) -> (value: T)
        ensures
            value == self@,
    {
        self.0
    }

    /// The value.
    pub fn get(&self) -> (value: &T)
        ensures
            *value == self@,
    {
        &self.0
    }
}

} // verus!
