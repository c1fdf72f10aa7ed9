//! Host-loop support types: the timing statistics the host keeps while
//! driving the step loop, and the plain data it shares with a display.

use vstd::prelude::*;

verus! {

/// Marker for the host's run loop; the loop itself lives with the host,
/// since it owns the window and the clock.
pub struct EmuContext;

/// One tile's worth of data handed to a display.
pub struct SharedData {
    pub tile_number: usize,
    pub tile: Vec<u8>,
}

/// Running min/max/average over a stream of measurements.
#[derive(Clone, Copy, Debug, PartialEq, Eq, Structural)]
pub struct Stats {
    pub min: u32,
    pub max: u32,
    pub average: u32,
    pub count: u32,
    pub sum: u32,
}

impl Stats {
    pub fn new() -> (r: Self)
        ensures
            r == (Stats { min: 1_000_000_000, max: 0, average: 0, count: 0, sum: 0 }),
    {
        Self { min: 1_000_000_000, max: 0, average: 0, count: 0, sum: 0 }
    }

    /// Fold one measurement in: the count rises, min and max move toward
    /// the value, the sum grows and the average is the sum over the count.
    pub fn put(&mut self, elapsed: u32)
        requires
            old(self).count < u32::MAX,
            old(self).sum + elapsed <= u32::MAX,
        ensures
            final(self).count == old(self).count + 1,
            final(self).min == (if old(self).min < elapsed {
                old(self).min
            } else {
                elapsed
            }),
            final(self).max == (if old(self).max < elapsed {
                elapsed
            } else {
                old(self).max
            }),
            final(self).sum == old(self).sum + elapsed,
            final(self).average == (old(self).sum + elapsed) as u32 / (old(self).count + 1) as u32,
    {
        self.count = self.count + 1;
        self.min = if self.min < elapsed {
            self.min
        } else {
            elapsed
        };
        self.max = if self.max < elapsed {
            elapsed
        } else {
            self.max
        };
        self.sum = self.sum + elapsed;
        self.average = self.sum / self.count;
    }
}

} // verus!
