//! The response fragment counter: how many fragments of the in-flight task's
//! response have been accepted so far.  It only ever answers "none yet?", and
//! is used to enforce the FIR ordering rules, never to bound a response's
//! fragment count.

use vstd::prelude::*;

verus! {

/// Counts the response fragments accepted for the current task run; reset to
/// zero when a run starts.
#[derive(Copy, Clone, PartialEq, Eq, Structural, Debug)]
pub struct ResponseCount {
    count: usize,
}

impl ResponseCount {
    /// The number of fragments accepted so far.
    pub closed spec fn value_of(self) -> int {
        self.count as int
    }

    pub fn new() -> (r: Self)
        ensures
            r.value_of() == 0,
    {
        ResponseCount { count: 0 }
    }

    /// Zeroes the count at the start of a task run.
    pub fn reset(&mut self)
        ensures
            final(self).value_of() == 0,
    {
        self.count = 0
    }

    /// The count itself.
    pub fn value(&self) -> (r: usize)
        ensures
            r as int == self.value_of(),
    {
        self.count
    }

    /// True when no fragment has been accepted yet.
    pub fn is_none(&self) -> (r: bool)
        ensures
            r == (self.value_of() == 0),
    {
        self.count == 0
    }

    /// Records the acceptance of one fragment.
    pub fn increment(&mut self)
        requires
            old(self).value_of() < usize::MAX,
        ensures
            final(self).value_of() == old(self).value_of() + 1,
    {
        self.count += 1
    }
}

} // verus!
