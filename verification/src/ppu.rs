//! Passive video memory: 8 KiB of VRAM and the 40-entry OAM sprite table,
//! addressed as 160 bytes of four fields per entry. The pixel pipeline lives
//! outside the core; here the CPU and the DMA engine only read and write
//! bytes. Tile decoding helpers for a host display sit at the end.

use vstd::prelude::*;

verus! {

use vstd::pervasive::VecAdditionalExecFns;
use crate::ram::zero_bytes;

/// One OAM entry: Y, X, tile index and attribute flags.
#[derive(Clone, Copy, Debug, PartialEq, Eq, Structural)]
pub struct OamEntry {
    pub y: u8,
    pub x: u8,
    pub tile_index: u8,
    pub flags: u8,
}

impl OamEntry {
    pub fn new() -> (r: Self)
        ensures
            r == (OamEntry { y: 0, x: 0, tile_index: 0, flags: 0 }),
    {
        Self { y: 0, x: 0, tile_index: 0, flags: 0 }
    }

    /// The field selected by the low two bits of a byte offset: Y, X, tile
    /// index, flags.
    pub open spec fn spec_field_from_offset(self, offset: u8) -> u8 {
        if offset & 0b11 == 0 {
            self.y
        } else if offset & 0b11 == 1 {
            self.x
        } else if offset & 0b11 == 2 {
            self.tile_index
        } else {
            self.flags
        }
    }

    pub fn get_field_from_offset(&self, offset: u8) -> (r: u8)
        ensures
            r == self.spec_field_from_offset(offset),
    {
        let sel = offset & 0b11;
        if sel == 0 {
            self.y
        } else if sel == 1 {
            self.x
        } else if sel == 2 {
            self.tile_index
        } else {
            self.flags
        }
    }

    /// The entry with the field selected by the low two bits of the offset
    /// replaced.
    pub open spec fn spec_set_field_from_offset(self, offset: u8, value: u8) -> OamEntry {
        if offset & 0b11 == 0 {
            OamEntry { y: value, ..self }
        } else if offset & 0b11 == 1 {
            OamEntry { x: value, ..self }
        } else if offset & 0b11 == 2 {
            OamEntry { tile_index: value, ..self }
        } else {
            OamEntry { flags: value, ..self }
        }
    }

    pub fn set_field_from_offset(&mut self, offset: u8, value: u8)
        ensures
            *final(self) == old(self).spec_set_field_from_offset(offset, value),
    {
        let sel = offset & 0b11;
        if sel == 0 {
            self.y = value;
        } else if sel == 1 {
            self.x = value;
        } else if sel == 2 {
            self.tile_index = value;
        } else {
            self.flags = value;
        }
    }
}

pub struct PPU {
    oam_ram: Vec<OamEntry>,
    vram: Vec<u8>,
}

/// The mathematical content of the video memories.
#[verifier::ext_equal]
pub struct PpuV {
    pub oam: Seq<OamEntry>,
    pub vram: Seq<u8>,
}

impl PpuV {
    pub open spec fn wf(self) -> bool {
        self.oam.len() == 40 && self.vram.len() == 0x2000
    }

    /// The byte an OAM address reads: the entry is the address divided by
    /// four, the field its remainder.
    pub open spec fn spec_oam_read(self, address: u16) -> u8 {
        let translated = spec_oam_offset(address, false);
        self.oam[(translated >> 2) as int].spec_field_from_offset((translated & 0b11) as u8)
    }
}

impl View for PPU {
    type V = PpuV;

    closed spec fn view(&self) -> PpuV {
        PpuV { oam: self.oam_ram@, vram: self.vram@ }
    }
}

/// The byte offset into OAM that an address means: a CPU address counts from
/// $FE00, a DMA destination is already an offset.
pub open spec fn spec_oam_offset(address: u16, dma: bool) -> u16 {
    if !dma {
        (address - 0xFE00) as u16
    } else {
        address
    }
}

/// Splits an OAM address into the index of its entry and the byte offset
/// within the entry.
pub fn translate_oam_address(address: u16, dma: bool) -> (r: (usize, u8))
    requires
        dma ==> address <= 0x9F,
        !dma ==> 0xFE00 <= address,
    ensures
        r.0 == spec_oam_offset(address, dma) >> 2,
        r.1 == (spec_oam_offset(address, dma) & 0b11) as u8,
{
    let translated_address: u16 = if !dma {
        address - 0xFE00
    } else {
        address
    };
    let oam_entry_index = translated_address >> 2;
    let offset = translated_address & 0b11;
    (oam_entry_index as usize, offset as u8)
}

impl PPU {
    /// Cleared OAM and zeroed VRAM.
    pub fn new() -> (r: Self)
        ensures
            r@.wf(),
            forall|i: int| 0 <= i < 40 ==> r@.oam[i] == (OamEntry {
                y: 0,
                x: 0,
                tile_index: 0,
                flags: 0,
            }),
            forall|i: int| 0 <= i < 0x2000 ==> r@.vram[i] == 0u8,
    {
        let mut oam_ram: Vec<OamEntry> = Vec::new();
        let mut i: usize = 0;
        while i < 40
            invariant
                i <= 40,
                oam_ram@.len() == i,
                forall|j: int| 0 <= j < i ==> oam_ram@[j] == (OamEntry {
                    y: 0,
                    x: 0,
                    tile_index: 0,
                    flags: 0,
                }),
            decreases 40 - i,
        {
            oam_ram.push(OamEntry::new());
            i = i + 1;
        }
        Self { oam_ram, vram: zero_bytes(0x2000) }
    }

    pub fn oam_read(&self, address: u16) -> (r: u8)
        requires
            self@.wf(),
            0xFE00 <= address < 0xFEA0,
        ensures
            r == self@.spec_oam_read(address),
    {
        let (sprite_index, offset) = translate_oam_address(address, false);
        proof {
            let t = spec_oam_offset(address, false);
            assert(t >> 2 < 40) by (bit_vector)
                requires
                    t < 0xA0,
            ;
        }
        self.oam_ram[sprite_index].get_field_from_offset(offset)
    }

    pub fn oam_write(&mut self, address: u16, value: u8, dma: bool)
        requires
            old(self)@.wf(),
            dma ==> address <= 0x9F,
            !dma ==> 0xFE00 <= address < 0xFEA0,
        ensures
            final(self)@.wf(),
            final(self)@ == (PpuV {
                oam: old(self)@.oam.update(
                    (spec_oam_offset(address, dma) >> 2) as int,
                    old(self)@.oam[(spec_oam_offset(address, dma)
                        >> 2) as int].spec_set_field_from_offset(
                        (spec_oam_offset(address, dma) & 0b11) as u8,
                        value,
                    ),
                ),
                ..old(self)@
            }),
    {
        let (sprite_index, offset) = translate_oam_address(address, dma);
        proof {
            let t = spec_oam_offset(address, dma);
            assert(t >> 2 < 40) by (bit_vector)
                requires
                    t < 0xA0,
            ;
        }
        let mut sprite = self.oam_ram[sprite_index];
        sprite.set_field_from_offset(offset, value);
        self.oam_ram.set(sprite_index, sprite);
    }

    pub fn ppu_vram_read(&self, address: u16) -> (r: u8)
        requires
            self@.wf(),
            0x8000 <= address < 0xA000,
        ensures
            r == self@.vram[address - 0x8000],
    {
        self.vram[(address - 0x8000) as usize]
    }

    pub fn ppu_vram_write(&mut self, address: u16, value: u8)
        requires
            old(self)@.wf(),
            0x8000 <= address < 0xA000,
        ensures
            final(self)@.wf(),
            final(self)@ == (PpuV {
                vram: old(self)@.vram.update(address - 0x8000, value),
                ..old(self)@
            }),
    {
        self.vram.set((address - 0x8000) as usize, value);
    }
}

/// The shade index a tile pixel selects, 0..3: bit `bit` of `byte1` is the
/// high bit, bit `bit` of `byte2` the low bit.
pub open spec fn spec_tile_color_index(byte1: u8, byte2: u8, bit: u8) -> u16 {
    let hi = (((byte1 as u16) & (1u16 << (bit as u16))) << 1) as u16;
    let lo = ((byte2 as u16) & (1u16 << (bit as u16))) as u16;
    ((hi | lo) >> (bit as u16)) as u16
}

/// The grey a shade index maps to, white down to black.
pub open spec fn spec_tile_color(index: u16) -> u32 {
    if index == 0 {
        0xFFFFFF
    } else if index == 1 {
        0xAAAAAA
    } else if index == 2 {
        0x555555
    } else {
        0x000000
    }
}

/// Decodes one tile line from its two bytes into eight greys, leftmost pixel
/// (bit 7) first.
pub fn combine_tile_bytes(byte1: u8, byte2: u8) -> (r: Vec<u32>)
    ensures
        r@.len() == 8,
        forall|i: int| 0 <= i < 8 ==> r@[i] == spec_tile_color(
            spec_tile_color_index(byte1, byte2, (7 - i) as u8),
        ),
{
    let mut line: Vec<u32> = Vec::new();
    let mut i: usize = 0;
    while i < 8
        invariant
            i <= 8,
            line@.len() == i,
            forall|j: int| 0 <= j < i ==> line@[j] == spec_tile_color(
                spec_tile_color_index(byte1, byte2, (7 - j) as u8),
            ),
        decreases 8 - i,
    {
        let bit: u16 = (7 - i) as u16;
        let hi = ((byte1 as u16) & (1u16 << bit)) << 1;
        let lo = (byte2 as u16) & (1u16 << bit);
        let color_index = (hi | lo) >> bit;
        let color: u32 = if color_index == 0 {
            0xFFFFFF
        } else if color_index == 1 {
            0xAAAAAA
        } else if color_index == 2 {
            0x555555
        } else {
            0x000000
        };
        line.push(color);
        i = i + 1;
    }
    line
}

} // verus!
