//! OAM DMA state. A write to $FF46 arms a transfer: after a two-cycle start
//! delay, one byte per machine cycle is copied from page `value` into OAM,
//! 160 bytes in all; OAM is locked against CPU access while active.

use vstd::prelude::*;

verus! {

#[derive(Clone, Copy, Debug, PartialEq, Eq, Structural)]
pub struct DMA {
    pub active: bool,
    pub byte: u8,
    pub value: u8,
    pub start_delay: u8,
}

impl DMA {
    pub fn new() -> (r: Self)
        ensures
            r == (DMA { active: false, byte: 0, value: 0, start_delay: 0 }),
    {
        Self { active: false, byte: 0, value: 0, start_delay: 0 }
    }

    /// The state a write of `start` to $FF46 arms: active, at byte 0, with a
    /// two-cycle start delay, copying from page `start`.
    pub open spec fn spec_start(self, start: u8) -> DMA {
        DMA { active: true, byte: 0, start_delay: 2, value: start }
    }

    pub fn dma_start(&mut self, start: u8)
        ensures
            *final(self) == old(self).spec_start(start),
    {
        self.active = true;
        self.byte = 0;
        self.start_delay = 2;
        self.value = start;
    }

    pub fn dma_is_transferring(&self) -> (r: bool)
        ensures
            r == self.active,
    {
        self.active
    }
}

} // verus!
