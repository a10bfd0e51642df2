//! A value paired with a flag that records whether it has been changed.

use vstd::prelude::*;
use vstd::std_specs::cmp::PartialEqSpec;

verus! {

/// Holds a value and remembers whether a `set` ever replaced it.
pub struct Sentinel<T> {
    data: T,
    touched: bool,
}

impl<T: PartialEq> Sentinel<T> {
    /// The value currently held.
    pub closed spec fn value(&self) -> T {
        self.data
    }

    /// Whether a `set` has replaced the value since the sentinel was made.
    pub closed spec fn is_touched(&self) -> bool {
        self.touched
    }

    /// Wraps `value`; nothing has touched it yet.
    pub fn new(value: T) -> (s: Self)
        ensures
            s.value() == value,
            !s.is_touched(),
    {
        Sentinel { data: value, touched: false }
    }

    /// Stores `value` if it differs from the one held, and marks the sentinel
    /// as touched in that case only.
    pub fn set(&mut self, value: T)
        ensures
            T::obeys_eq_spec() && old(self).value().eq_spec(&value) ==> *final(self) == *old(self),
            T::obeys_eq_spec() && !old(self).value().eq_spec(&value) ==> final(self).value()
                == value && final(self).is_touched(),
            final(self).value() == value || final(self).value() == old(self).value(),
            old(self).is_touched() ==> final(self).is_touched(),
    {
        if self.data != value {
            self.data = value;
            self.touched = true;
        }
    }

    /// The value currently held.
    pub fn get(&self) -> (r: &T)
        ensures
            *r == self.value(),
    {
        &self.data
    }

    /// Whether a `set` has replaced the value.
    pub fn touched(&self) -> (b: bool)
        ensures
            b == self.is_touched(),
    {
        self.touched
    }
}

} // verus!
