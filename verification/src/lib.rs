//! Instruction-accurate interpreter core for the Sharp LR35902 CPU of the
//! original Game Boy (DMG): registers and flags, the 256-entry base and
//! CB-prefixed instruction decode, the memory bus with its fixed address map,
//! the DIV/TIMA falling-edge timer, the OAM DMA engine, the interrupt
//! controller and the serial debug sink.
//!
//! The host is expected to load a ROM image, build a [`cartridge::Cartridge`],
//! wrap it in a [`context::CpuContext`] and drive [`context::CpuContext::cpu_step`]
//! in a loop, reading the serial debug buffer between steps.

pub mod bus;
pub mod cartridge;
pub mod context;
pub mod dma;
pub mod emu;
pub mod instruction;
pub mod io_context;
pub mod ppu;
pub mod ram;
pub mod instruction_set;
pub mod serial;
pub mod timer;
pub mod registers;
pub mod util;
