//! A signed counter that moves one step at a time.

use vstd::prelude::*;

verus! {

/// A counter over `i32`, starting at zero.
pub struct Counter {
    count: i32,
}

impl View for Counter {
    type V = int;

    closed spec fn view(&self) -> int {
        self.count as int
    }
}

impl Default for Counter {
    fn default() -> (counter: Self)
        ensures
            counter@ == 0,
    {
        Counter { count: 0 }
    }
}

impl Counter {
    /// A counter that stands at `count`.
    pub fn new(count: i32) -> (counter: Self)
        ensures
            counter@ == count,
    {
        Counter { count }
    }

    /// The current value.
    pub fn get_count(&self) -> (count: i32)
        ensures
            count == self@,
    {
        self.count
    }

    /// Moves the counter up by one. The counter must not already stand at
    /// `i32::MAX`.
    pub fn increment(&mut self)
        requires
            old(self)@ < i32::MAX,
        ensures
            final(self)@ == old(self)@ + 1,
    {
        self.count = self.count + 1;
    }

    /// Moves the counter down by one. The counter must not already stand at
    /// `i32::MIN`.
    pub fn decrement(&mut self)
        requires
            old(self)@ > i32::MIN,
        ensures
            final(self)@ == old(self)@ - 1,
    {
        self.count = self.count - 1;
    }
}

} // verus!
