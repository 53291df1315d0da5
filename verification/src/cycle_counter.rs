use vstd::prelude::*;

verus! {

/// Counts CPU/PSG cycles for cycle-accurate emulation.
#[derive(Debug, Clone, Copy)]
pub struct CycleCounter {
    cycles: u64,
}

impl CycleCounter {
    /// The number of cycles counted so far.
    pub closed spec fn count(&self) -> nat {
        self.cycles as nat
    }

    /// A counter at zero.
    pub fn new() -> (c: Self)
        ensures
            c.count() == 0,
    {
        CycleCounter { cycles: 0 }
    }

    /// Counts one cycle.
    pub fn clock(&mut self)
        requires
            old(self).count() < u64::MAX,
        ensures
            final(self).count() == old(self).count() + 1,
    {
        self.cycles = self.cycles + 1;
    }

    /// Counts `n` cycles.
    pub fn advance(&mut self, n: u64)
        requires
            old(self).count() + n <= u64::MAX,
        ensures
            final(self).count() == old(self).count() + n,
    {
        self.cycles = self.cycles + n;
    }

    /// The current count.
    pub fn get_cycles(&self) -> (r: u64)
        ensures
            r == self.count(),
    {
        self.cycles
    }

    /// Sets the count back to zero.
    pub fn reset(&mut self)
        ensures
            final(self).count() == 0,
    {
        self.cycles = 0;
    }

    /// Returns the count and sets it back to zero.
    pub fn take_and_reset(&mut self) -> (r: u64)
        ensures
            r == old(self).count(),
            final(self).count() == 0,
    {
        let result = self.cycles;
        self.cycles = 0;
        result
    }
}

impl Default for CycleCounter {
    fn default() -> (c: Self)
        ensures
            c.count() == 0,
    {
        Self::new()
    }
}

} // verus!
