//! A guarded container for a small, copyable value.

use vstd::prelude::*;

use crate::critical::CsToken;

verus! {

/// Exclusively owns a copyable value; every access takes a reference to
/// the exclusivity token, so access outside a critical section is not
/// expressible through the public surface. The view of a cell is the
/// value it holds.
pub struct GuardedCell<T> {
    value: T,
}

impl<T> View for GuardedCell<T> {
    type V = T;

    closed spec fn view(&self) -> T {
        self.value
    }
}

impl<T: Copy> GuardedCell<T> {
    /// A cell holding `value`; constructible at process start, with no
    /// runtime initialization cost.
    pub fn new(value: T) -> (r: Self)
        ensures
            r@ == value,
    {
        GuardedCell { value }
    }

    /// Returns a copy of the held value. No failure mode.
    pub fn get(&self, token: &CsToken) -> (r: T)
        ensures
            r == self@,
    {
        self.value
    }

    /// Overwrites the held value. No failure mode.
    pub fn set(&mut self, token: &CsToken, value: T)
        ensures
            final(self)@ == value,
    {
        self.value = value;
    }

    /// Overwrites the held value and returns the previous one. No
    /// failure mode.
    pub fn replace(&mut self, token: &CsToken, value: T) -> (prev: T)
        ensures
            final(self)@ == value,
            prev == old(self)@,
    {
        let prev = self.value;
        self.value = value;
        prev
    }
}

} // verus!
