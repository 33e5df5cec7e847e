//! A cell accessible only from the main thread.
use vstd::prelude::*;

verus! {

/// A token proving that the code holding it runs on the main thread.
#[derive(Clone, Copy, PartialEq, Eq, Structural, Debug)]
pub struct MainThreadMarker {
    _private: u8,
}

impl MainThreadMarker {
    /// The main-thread token: there is only one, so any two tokens are equal.
    pub closed spec fn token() -> MainThreadMarker {
        MainThreadMarker { _private: 0 }
    }

    /// Creates the token; the caller vouches that it runs on the main thread.
    pub fn new() -> (marker: Self)
        ensures
            marker == MainThreadMarker::token(),
    {
        MainThreadMarker { _private: 0 }
    }
}

/// A cell whose contents are reached only with a [`MainThreadMarker`] in hand.
pub struct MainThreadRefCell<T> {
    value: T,
}

impl<T> View for MainThreadRefCell<T> {
    type V = T;

    closed spec fn view(&self) -> T {
        self.value
    }
}

impl<T> MainThreadRefCell<T> {
    /// Creates a new `MainThreadRefCell` containing the given value.
    pub fn new(value: T) -> (cell: Self)
        ensures
            cell@ == value,
    {
        MainThreadRefCell { value }
    }

    /// Immutably borrows the wrapped value.
    pub fn borrow(&self, _marker: MainThreadMarker) -> (r: &T)
        ensures
            *r == self@,
    {
        &self.value
    }

    /// Mutably borrows the wrapped value.
    pub fn borrow_mut(&mut self, _marker: MainThreadMarker) -> (r: &mut T)
        ensures
            *r == old(self)@,
            final(self)@ == *final(r),
    {
        &mut self.value
    }
}

} // verus!
