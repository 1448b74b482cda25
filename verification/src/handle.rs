//! Handles and the counter that issues them.
use vstd::prelude::*;

verus! {

/// Represent an handle to an allocation.
#[derive(Copy, Clone, Debug, PartialEq, Eq, Structural)]
pub struct AllocationHandle(pub u64);

/// Represent an handle to a mapping.
#[derive(Copy, Clone, Debug, PartialEq, Eq, Structural)]
pub struct MappingHandle(pub u64);

/// An utility to manipulate counters.
///
/// A counter starts at zero and only ever moves up, one step per value handed out. The values it
/// hands out are therefore 1, 2, 3, … in that order: none is zero and none comes twice.
#[derive(Debug)]
pub struct Counter(u64);

impl View for Counter {
    type V = nat;

    /// The last value handed out, zero if none was.
    closed spec fn view(&self) -> nat {
        self.0 as nat
    }
}

impl Counter {
    /// Whether the counter can still hand out a value. The 64-bit space is taken to be
    /// inexhaustible in practice; a counter that has handed out `u64::MAX` values has none left.
    pub open spec fn has_next(&self) -> bool {
        self@ < u64::MAX
    }

    /// Whether the counter can still hand out a value.
    pub fn has_next_value(&self) -> (left: bool)
        ensures
            left == self.has_next(),
    {
        self.0 < u64::MAX
    }

    /// Gets the next value on the counter
    pub fn get_next_value(&mut self) -> (value: u64)
        requires
            old(self).has_next(),
        ensures
            final(self)@ == old(self)@ + 1,
            value == final(self)@,
    {
        self.0 += 1;

        self.0
    }

    /// The counter's view is a 64-bit value.
    pub proof fn lemma_view_fits(&self)
        ensures
            self@ <= u64::MAX,
    {
    }
}

impl Default for Counter {
    fn default() -> (counter: Counter)
        ensures
            counter@ == 0,
    {
        Counter(0)
    }
}

} // verus!
