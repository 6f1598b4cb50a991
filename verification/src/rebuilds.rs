//! Proof that animating rebuilds nothing: a counter of `view()` calls.

use vstd::prelude::*;

verus! {

/// Counts `view()` calls; the examples print it under the demo grid.
#[derive(Debug, Default)]
pub struct RebuildCounter {
    count: u64,
}

impl RebuildCounter {
    /// Rebuilds counted so far.
    pub closed spec fn counted(self) -> nat {
        self.count as nat
    }

    /// Starts at zero.
    pub fn new() -> (counter: Self)
        ensures
            counter.counted() == 0,
    {
        RebuildCounter { count: 0 }
    }

    /// Counts one more rebuild. Call it once per `view()`, from code that
    /// holds the counter mutably (the host keeps it behind a cell, since
    /// `view()` takes `&self`).
    pub fn bump(&mut self)
        requires
            old(self).counted() < u64::MAX,
        ensures
            final(self).counted() == old(self).counted() + 1,
    {
        self.count = self.count + 1;
    }

    /// Rebuilds so far.
    pub fn count(&self) -> (n: u64)
        ensures
            n == self.counted(),
    {
        self.count
    }
}

} // verus!
