//! Work RAM ($C000..$DFFF, 8 KiB) and high RAM ($FF80..$FFFE, stored as 128
//! bytes of which the bus uses the first 127).

use vstd::prelude::*;

verus! {

use vstd::pervasive::VecAdditionalExecFns;

pub struct RamContext {
    wram: Vec<u8>,
    hram: Vec<u8>,
}

/// The mathematical content of the two RAM banks.
#[verifier::ext_equal]
pub struct RamV {
    pub wram: Seq<u8>,
    pub hram: Seq<u8>,
}

impl RamV {
    pub open spec fn wf(self) -> bool {
        self.wram.len() == 0x2000 && self.hram.len() == 0x80
    }
}

impl View for RamContext {
    type V = RamV;

    closed spec fn view(&self) -> RamV {
        RamV { wram: self.wram@, hram: self.hram@ }
    }
}

/// A vector of `n` zero bytes.
pub fn zero_bytes(n: usize) -> (r: Vec<u8>)
    ensures
        r@.len() == n,
        forall|i: int| 0 <= i < n ==> r@[i] == 0u8,
{
    let mut v: Vec<u8> = Vec::new();
    let mut i: usize = 0;
    while i < n
        invariant
            i <= n,
            v@.len() == i,
            forall|j: int| 0 <= j < i ==> v@[j] == 0u8,
        decreases n - i,
    {
        v.push(0);
        i = i + 1;
    }
    v
}

/// The WRAM index of a bus address, or an error outside $C000..$DFFF.
pub open spec fn spec_translate_wram_address(address: u16) -> Result<u16, ()> {
    if 0xC000 <= address && address < 0xE000 {
        Ok((address - 0xC000) as u16)
    } else {
        Err(())
    }
}

pub fn translate_wram_address(address: u16) -> (r: Result<u16, ()>)
    ensures
        r == spec_translate_wram_address(address),
{
    if 0xC000 <= address && address < 0xE000 {
        Ok(address - 0xC000)
    } else {
        Err(())
    }
}

/// The HRAM index of a bus address, or an error outside $FF80..$FFFF.
pub open spec fn spec_translate_hram_address(address: u16) -> Result<u16, ()> {
    if 0xFF80 <= address {
        Ok((address - 0xFF80) as u16)
    } else {
        Err(())
    }
}

pub fn translate_hram_address(address: u16) -> (r: Result<u16, ()>)
    ensures
        r == spec_translate_hram_address(address),
{
    if 0xFF80 <= address {
        Ok(address - 0xFF80)
    } else {
        Err(())
    }
}

impl RamContext {
    /// Both banks zeroed.
    pub fn new() -> (r: Self)
        ensures
            r@.wf(),
            forall|i: int| 0 <= i < 0x2000 ==> r@.wram[i] == 0u8,
            forall|i: int| 0 <= i < 0x80 ==> r@.hram[i] == 0u8,
    {
        Self { wram: zero_bytes(0x2000), hram: zero_bytes(0x80) }
    }

    pub fn wram_read(&self, address: u16) -> (r: u8)
        requires
            self@.wf(),
            0xC000 <= address < 0xE000,
        ensures
            r == self@.wram[address - 0xC000],
    {
        self.wram[(address - 0xC000) as usize]
    }

    pub fn wram_write(&mut self, address: u16, value: u8)
        requires
            old(self)@.wf(),
            0xC000 <= address < 0xE000,
        ensures
            final(self)@.wf(),
            final(self)@ == (RamV {
                wram: old(self)@.wram.update(address - 0xC000, value),
                ..old(self)@
            }),
    {
        self.wram.set((address - 0xC000) as usize, value);
    }

    pub fn hram_read(&self, address: u16) -> (r: u8)
        requires
            self@.wf(),
            0xFF80 <= address,
        ensures
            r == self@.hram[address - 0xFF80],
    {
        self.hram[(address - 0xFF80) as usize]
    }

    pub fn hram_write(&mut self, address: u16, value: u8)
        requires
            old(self)@.wf(),
            0xFF80 <= address,
        ensures
            final(self)@.wf(),
            final(self)@ == (RamV {
                hram: old(self)@.hram.update(address - 0xFF80, value),
                ..old(self)@
            }),
    {
        self.hram.set((address - 0xFF80) as usize, value);
    }
}

} // verus!
