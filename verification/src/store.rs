//! The single-slot container that holds the current configuration value.

use vstd::prelude::*;

verus! {

/// Holds exactly one decoded value.
///
/// The store never validates what it is given: whoever replaces the value
/// answers for it. A program that shares the store between tasks puts it
/// behind a lock and calls [`ConfigStore::read`] and
/// [`ConfigStore::replace`] while holding that lock, so that a reader sees
/// the value from before a replacement or from after it and nothing else.
#[derive(Debug)]
pub struct ConfigStore<T> {
    value: T,
}

impl<T> View for ConfigStore<T> {
    type V = T;

    /// The value that the slot holds.
    closed spec fn view(&self) -> T {
        self.value
    }
}

impl<T> ConfigStore<T> {
    /// A store that holds `value`.
    pub fn new(value: T) -> (store: Self)
        ensures
            store@ == value,
    {
        ConfigStore { value }
    }

    /// The current value.
    pub fn read(&self) -> (value: &T)
        ensures
            *value == self@,
    {
        &self.value
    }

    /// Puts `new_value` in the slot; the value held before is dropped.
    pub fn replace(&mut self, new_value: T)
        ensures
            final(self)@ == new_value,
    {
        self.value = new_value;
    }

    /// Gives up the store for the value it holds.
    pub fn into_inner(self) -> (value: T)
        ensures
            value == self@,
    {
        self.value
    }
}

} // verus!
