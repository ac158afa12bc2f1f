//! A single-owner mutable cell for copyable values.
//!
//! The cell never hands out a reference to its interior: the value leaves
//! only as a by-value copy (`get`) and is replaced only wholesale (`set`,
//! `swap`). Reads and writes therefore can never observe a partly
//! overwritten value, whatever order they come in.

use vstd::prelude::*;

verus! {

/// A mutable cell holding one value.
///
/// The stored value is never exposed by reference; `get` copies it out and
/// `set` overwrites it. Because every cell is reached here through an
/// exclusive reference when it is written, a cell can never alias another
/// live view of its own interior, and `swap` can never be asked to exchange
/// a cell with itself.
#[derive(Debug)]
pub struct MyCell<T> {
    value: T,
}

impl<T> View for MyCell<T> {
    type V = T;

    /// The value the cell currently holds.
    closed spec fn view(&self) -> T {
        self.value
    }
}

impl<T: Copy> MyCell<T> {
    /// Creates a cell holding `value`. Always succeeds.
    pub fn new(value: T) -> (c: Self)
        ensures
            c@ == value,
    {
        MyCell { value }
    }

    /// Returns a copy of the current value. No side effect.
    pub fn get(&self) -> (v: T)
        ensures
            v == self@,
    {
        self.value
    }

    /// Overwrites the stored value.
    pub fn set(&mut self, value: T)
        ensures
            final(self)@ == value,
    {
        self.value = value;
    }

    /// Exchanges the contents of two cells in place.
    pub fn swap(&mut self, other: &mut Self)
        ensures
            final(self)@ == old(other)@,
            final(other)@ == old(self)@,
    {
        let tmp = self.value;
        self.value = other.value;
        other.value = tmp;
    }
}

} // verus!
