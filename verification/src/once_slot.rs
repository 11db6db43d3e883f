//! A single-assignment holder for the lazily attached resource: set once, on
//! first activation, and read from then on.

use vstd::prelude::*;

verus! {

/// An explicit optional value with a single-assignment write discipline:
/// `set` requires the slot to be empty, so the resource it carries is written
/// exactly once and only read afterwards.
pub struct OnceSlot<T> {
    value: Option<T>,
}

impl<T> View for OnceSlot<T> {
    type V = Option<T>;

    closed spec fn view(&self) -> Option<T> {
        self.value
    }
}

impl<T> OnceSlot<T> {
    pub fn empty() -> (slot: OnceSlot<T>)
        ensures
            slot@ is None,
    {
        OnceSlot { value: None }
    }

    /// Write the value; the slot must still be empty.
    pub fn set(&mut self, value: T)
        requires
            old(self)@ is None,
        ensures
            final(self)@ == Some(value),
    {
        self.value = Some(value);
    }

    pub fn get(&self) -> (r: Option<&T>)
        ensures
            match r {
                Some(value) => self@ == Some(*value),
                None => self@ is None,
            },
    {
        self.value.as_ref()
    }

    pub fn is_set(&self) -> (r: bool)
        ensures
            r == (self@ is Some),
    {
        match self.value {
            Some(_) => true,
            None => false,
        }
    }
}

} // verus!
