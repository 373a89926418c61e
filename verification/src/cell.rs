//! A container that holds one value and hands out copies of it.

use vstd::prelude::*;

verus! {

/// Holds a single value of type `T`.
///
/// The value is fixed when the cell is made. Readers only ever need a shared
/// reference: [`Cell::get`] copies the value out and leaves the cell as it was.
pub struct Cell<T: ?Sized> {
    value: T,
}

impl<T> View for Cell<T> {
    type V = T;

    /// The value that the cell holds.
    closed spec fn view(&self) -> T {
        self.value
    }
}

impl<T> Cell<T> {
    /// Makes a cell that holds `value`.
    pub fn new(value: T) -> (cell: Self)
        ensures
            cell@ == value,
    {
        Cell { value }
    }
}

impl<T: Copy> Cell<T> {
    /// Returns a copy of the value that the cell holds.
    pub fn get(&self) -> (value: T)
        ensures
            value == self@,
    {
        self.value
    }
}

} // verus!
