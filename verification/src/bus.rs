//! The bus: one read and one write over the whole 16-bit address space,
//! routed to the cartridge, VRAM, WRAM, OAM (locked while DMA runs), the I/O
//! block, HRAM and the IE register, with the echo and forbidden regions
//! reading zero and dropping writes. The OAM DMA engine and the serial debug
//! capture also live here, because both work through bus accesses.

use vstd::prelude::*;

verus! {

use crate::cartridge::{Cartridge, CartV};
use crate::dma::DMA;
use crate::io_context::IO;
use crate::ppu::{PpuV, PPU};
use crate::ram::{RamContext, RamV};

pub struct Bus {
    pub cartridge: Cartridge,
    pub ram: RamContext,
    pub io: IO,
    pub interrupt_enable_register: u8,
    pub ppu: PPU,
    pub dma: DMA,
    pub dbg_message: Vec<u8>,
}

/// The whole bus as mathematical data.
#[verifier::ext_equal]
pub struct BusV {
    pub cart: CartV,
    pub ram: RamV,
    pub io: IO,
    pub ie_register: u8,
    pub ppu: PpuV,
    pub dma: DMA,
    pub dbg: Seq<u8>,
}

impl View for Bus {
    type V = BusV;

    open spec fn view(&self) -> BusV {
        BusV {
            cart: self.cartridge@,
            ram: self.ram@,
            io: self.io,
            ie_register: self.interrupt_enable_register,
            ppu: self.ppu@,
            dma: self.dma,
            dbg: self.dbg_message@,
        }
    }
}

impl BusV {
    pub open spec fn wf(self) -> bool {
        &&& self.cart.wf()
        &&& self.ram.wf()
        &&& self.ppu.wf()
        &&& (self.dma.active ==> self.dma.byte < 0xA0)
    }

    /// What a read of `address` returns, by the routing table: cartridge
    /// below $8000 and in $A000..$BFFF, VRAM, WRAM, zero in the echo and
    /// forbidden regions, OAM (or $FF while DMA is active), the DMA source
    /// page at $FF46, the I/O block, IE at $FFFF, HRAM above $FF80.
    pub open spec fn spec_read(self, address: u16) -> u8 {
        if address < 0x8000 {
            self.cart.spec_read(address)
        } else if address < 0xA000 {
            self.ppu.vram[address - 0x8000]
        } else if address < 0xC000 {
            self.cart.spec_read(address)
        } else if address < 0xE000 {
            self.ram.wram[address - 0xC000]
        } else if address < 0xFE00 {
            0
        } else if address < 0xFEA0 {
            if self.dma.active {
                0xFF
            } else {
                self.ppu.spec_oam_read(address)
            }
        } else if address < 0xFF00 {
            0
        } else if address == 0xFF46 {
            self.dma.value
        } else if address < 0xFF80 {
            self.io.spec_read(address)
        } else if address == 0xFFFF {
            self.ie_register
        } else {
            self.ram.hram[address - 0xFF80]
        }
    }

    /// The bus after a byte write: ROM and the echo/forbidden regions drop
    /// it, OAM drops it while DMA is active, a write to $FF46 arms DMA with
    /// the byte as source page, and the RAMs, I/O block and IE store it.
    pub open spec fn spec_write8(self, address: u16, value: u8) -> BusV {
        if address < 0x8000 {
            self
        } else if address < 0xA000 {
            BusV { ppu: PpuV { vram: self.ppu.vram.update(address - 0x8000, value), ..self.ppu }, ..self }
        } else if address < 0xC000 {
            self
        } else if address < 0xE000 {
            BusV { ram: RamV { wram: self.ram.wram.update(address - 0xC000, value), ..self.ram }, ..self }
        } else if address < 0xFE00 {
            self
        } else if address < 0xFEA0 {
            if self.dma.active {
                self
            } else {
                BusV {
                    ppu: PpuV {
                        oam: self.ppu.oam.update(
                            (crate::ppu::spec_oam_offset(address, false) >> 2) as int,
                            self.ppu.oam[(crate::ppu::spec_oam_offset(address, false)
                                >> 2) as int].spec_set_field_from_offset(
                                (crate::ppu::spec_oam_offset(address, false) & 0b11) as u8,
                                value,
                            ),
                        ),
                        ..self.ppu
                    },
                    ..self
                }
            }
        } else if address < 0xFF00 {
            self
        } else if address == 0xFF46 {
            BusV { dma: self.dma.spec_start(value), ..self }
        } else if address < 0xFF80 {
            BusV { io: self.io.spec_write(address, value), ..self }
        } else if address == 0xFFFF {
            BusV { ie_register: value, ..self }
        } else {
            BusV { ram: RamV { hram: self.ram.hram.update(address - 0xFF80, value), ..self.ram }, ..self }
        }
    }

    /// A 16-bit write: low byte at the address, high byte at the next
    /// address, wrapping at the top of the space.
    pub open spec fn spec_write16(self, address: u16, value: u16) -> BusV {
        self.spec_write8(address, value as u8).spec_write8(
            vstd::wrapping::u16_specs::wrapping_add(address, 1),
            (value >> 8) as u8,
        )
    }

    /// The source address of the DMA byte about to be copied.
    pub open spec fn spec_dma_source(self) -> u16 {
        ((self.dma.value as int) * 0x100 + self.dma.byte) as u16
    }

    /// The bus after one DMA machine cycle: idle stays idle, the start delay
    /// counts down, and then one byte per cycle is read through the bus from
    /// the source page into OAM until byte 160 clears the active flag.
    pub open spec fn spec_dma_tick(self) -> BusV {
        if !self.dma.active {
            self
        } else if self.dma.start_delay > 0 {
            BusV {
                dma: DMA { start_delay: (self.dma.start_delay - 1) as u8, ..self.dma },
                ..self
            }
        } else {
            let dest = self.dma.byte as u16;
            let value = self.spec_read(self.spec_dma_source());
            let new_byte = (self.dma.byte + 1) as u8;
            BusV {
                ppu: PpuV {
                    oam: self.ppu.oam.update(
                        (crate::ppu::spec_oam_offset(dest, true) >> 2) as int,
                        self.ppu.oam[(crate::ppu::spec_oam_offset(dest, true)
                            >> 2) as int].spec_set_field_from_offset(
                            (crate::ppu::spec_oam_offset(dest, true) & 0b11) as u8,
                            value,
                        ),
                    ),
                    ..self.ppu
                },
                dma: DMA { byte: new_byte, active: new_byte < 0xA0, ..self.dma },
                ..self
            }
        }
    }

    /// Whether this DMA machine cycle copies the last byte and ends the
    /// transfer.
    pub open spec fn spec_dma_tick_done(self) -> bool {
        self.dma.active && self.dma.start_delay == 0 && self.dma.byte + 1 >= 0xA0
    }

    /// The bus after the serial capture check: when SC holds $81, the SB
    /// byte is appended to the debug buffer and SC is cleared.
    pub open spec fn spec_dbg_update(self) -> BusV {
        if self.spec_read(0xFF02) == 0x81 {
            (BusV { dbg: self.dbg.push(self.spec_read(0xFF01)), ..self }).spec_write8(0xFF02, 0)
        } else {
            self
        }
    }
}

impl Bus {
    /// A bus over a loaded cartridge, with cleared RAM, video memory, I/O
    /// block, DMA engine and debug buffer.
    pub fn new(cartridge: Cartridge) -> (r: Self)
        requires
            cartridge@.wf(),
        ensures
            r@.wf(),
            r@.cart == cartridge@,
            r@.io == (IO {
                serial: crate::serial::Serial { serial_transfer_data: 0, serial_transfer_control: 0 },
                timer: crate::timer::Timer { div: 0xAC00, tima: 0, tma: 0, tac: 0 },
                interrupt_flag_register: 0,
            }),
            r@.ie_register == 0,
            r@.dma == (DMA { active: false, byte: 0, value: 0, start_delay: 0 }),
            r@.dbg == Seq::<u8>::empty(),
            forall|i: int| 0 <= i < 0x2000 ==> r@.ram.wram[i] == 0u8,
            forall|i: int| 0 <= i < 0x80 ==> r@.ram.hram[i] == 0u8,
            forall|i: int| 0 <= i < 0x2000 ==> r@.ppu.vram[i] == 0u8,
            forall|i: int| 0 <= i < 40 ==> r@.ppu.oam[i] == (crate::ppu::OamEntry {
                y: 0,
                x: 0,
                tile_index: 0,
                flags: 0,
            }),
    {
        let ram = RamContext::new();
        let io = IO::new();
        let ppu = PPU::new();
        let dma = DMA::new();
        Self {
            cartridge,
            ram,
            io,
            interrupt_enable_register: 0,
            ppu,
            dma,
            dbg_message: Vec::new(),
        }
    }

    pub fn get_ie_register(&self) -> (r: u8)
        ensures
            r == self@.ie_register,
    {
        self.interrupt_enable_register
    }

    fn set_ie_register(&mut self, value: u8)
        ensures
            final(self)@ == (BusV { ie_register: value, ..old(self)@ }),
    {
        self.interrupt_enable_register = value;
    }

    /// The serial debug buffer captured so far.
    pub fn dbg_message(&self) -> (r: &Vec<u8>)
        ensures
            r@ == self@.dbg,
    {
        &self.dbg_message
    }

    pub fn bus_read(&self, address: u16) -> (r: u8)
        requires
            self@.wf(),
        ensures
            r == self@.spec_read(address),
    {
        if address < 0x8000 {
            self.cartridge.cart_read(address)
        } else if address < 0xA000 {
            self.ppu.ppu_vram_read(address)
        } else if address < 0xC000 {
            self.cartridge.cart_read(address)
        } else if address < 0xE000 {
            self.ram.wram_read(address)
        } else if address < 0xFE00 {
            0
        } else if address < 0xFEA0 {
            if self.dma.dma_is_transferring() {
                0xFF
            } else {
                self.ppu.oam_read(address)
            }
        } else if address < 0xFF00 {
            0
        } else if address == 0xFF46 {
            self.dma.value
        } else if address < 0xFF80 {
            self.io.io_read(address)
        } else if address == 0xFFFF {
            self.get_ie_register()
        } else {
            self.ram.hram_read(address)
        }
    }

    /// A 16-bit read: low byte at the address, high byte at the next,
    /// wrapping at the top of the space.
    pub fn bus_read16(&self, address: u16) -> (r: u16)
        requires
            self@.wf(),
        ensures
            r == crate::util::spec_combine(
                self@.spec_read(vstd::wrapping::u16_specs::wrapping_add(address, 1)),
                self@.spec_read(address),
            ),
    {
        let lo = self.bus_read(address) as u16;
        let hi = self.bus_read(address.wrapping_add(1)) as u16;
        (hi << 8) | lo
    }

    pub fn bus_write8(&mut self, address: u16, value: u8)
        requires
            old(self)@.wf(),
        ensures
            final(self)@ == old(self)@.spec_write8(address, value),
            final(self)@.wf(),
    {
        if address < 0x8000 {
            self.cartridge.cart_write(address, value);
        } else if address < 0xA000 {
            self.ppu.ppu_vram_write(address, value);
        } else if address < 0xC000 {
            self.cartridge.cart_write(address, value);
        } else if address < 0xE000 {
            self.ram.wram_write(address, value);
        } else if address < 0xFE00 {
        } else if address < 0xFEA0 {
            if self.dma.dma_is_transferring() {
                return ;
            }
            self.ppu.oam_write(address, value, false);
        } else if address < 0xFF00 {
        } else if address == 0xFF46 {
            self.dma.dma_start(value);
        } else if address < 0xFF80 {
            self.io.io_write(address, value);
        } else if address == 0xFFFF {
            self.set_ie_register(value);
        } else {
            self.ram.hram_write(address, value);
        }
    }

    pub fn bus_write16(&mut self, address: u16, value: u16)
        requires
            old(self)@.wf(),
        ensures
            final(self)@ == old(self)@.spec_write16(address, value),
            final(self)@.wf(),
    {
        self.bus_write8(address, value as u8);
        self.bus_write8(address.wrapping_add(1), (value >> 8) as u8);
    }

    /// One DMA machine cycle; reports whether it copied the final byte.
    pub fn dma_tick(&mut self) -> (r: bool)
        requires
            old(self)@.wf(),
        ensures
            final(self)@ == old(self)@.spec_dma_tick(),
            final(self)@.wf(),
            r == old(self)@.spec_dma_tick_done(),
    {
        if !self.dma.active {
            return false;
        }
        if self.dma.start_delay > 0 {
            self.dma.start_delay = self.dma.start_delay - 1;
            return false;
        }
        let destination_address = self.dma.byte as u16;
        let source_address = (self.dma.value as u16) * 0x100 + (self.dma.byte as u16);
        let value = self.bus_read(source_address);
        self.ppu.oam_write(destination_address, value, true);
        self.dma.byte = self.dma.byte + 1;
        self.dma.active = self.dma.byte < 0xA0;
        !self.dma.active
    }

    /// The serial capture: when SC ($FF02) holds $81, append the SB byte
    /// ($FF01) to the debug buffer and clear SC.
    pub fn dbg_update(&mut self)
        requires
            old(self)@.wf(),
        ensures
            final(self)@ == old(self)@.spec_dbg_update(),
            final(self)@.wf(),
    {
        if self.bus_read(0xFF02) == 0x81 {
            let data = self.bus_read(0xFF01);
            self.dbg_message.push(data);
            self.bus_write8(0xFF02, 0);
        }
    }

    /// The 16 bytes of a tile in VRAM, as the host display reads them.
    pub fn fetch_tile(&self, tile_number: usize) -> (r: Vec<u8>)
        requires
            self@.wf(),
            tile_number <= 384,
        ensures
            r@.len() == 16,
            forall|i: int| 0 <= i < 16 ==> r@[i] == self@.spec_read(
                (0x8000 + tile_number * 16 + i) as u16,
            ),
    {
        let tile_address: u16 = 0x8000 + (tile_number * 16) as u16;
        let mut tile_array: Vec<u8> = Vec::new();
        let mut i: usize = 0;
        while i < 16
            invariant
                self@.wf(),
                i <= 16,
                tile_number <= 384,
                tile_address == 0x8000 + tile_number * 16,
                tile_array@.len() == i,
                forall|j: int| 0 <= j < i ==> tile_array@[j] == self@.spec_read(
                    (0x8000 + tile_number * 16 + j) as u16,
                ),
            decreases 16 - i,
        {
            tile_array.push(self.bus_read(tile_address + (i as u16)));
            i = i + 1;
        }
        tile_array
    }
}

/// While a DMA transfer is active, every CPU read of the OAM window
/// $FE00..$FE9F returns $FF.
pub proof fn lemma_oam_locked_during_dma(bus: BusV, address: u16)
    requires
        bus.dma.active,
        0xFE00 <= address < 0xFEA0,
    ensures
        bus.spec_read(address) == 0xFF,
{
}

/// While a DMA transfer is active, every CPU write to the OAM window
/// $FE00..$FE9F is dropped: the bus is left exactly as it was.
pub proof fn lemma_oam_write_dropped_during_dma(bus: BusV, address: u16, value: u8)
    requires
        bus.dma.active,
        0xFE00 <= address < 0xFEA0,
    ensures
        bus.spec_write8(address, value) == bus,
{
}

} // verus!
