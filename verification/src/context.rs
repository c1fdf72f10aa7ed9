//! The CPU execution context: the register file and bus glued together by the
//! fetch/decode/execute step loop, cycle accounting that drives the timer and
//! DMA, the interrupt controller and the HALT/EI bookkeeping.

use vstd::prelude::*;

verus! {

/// One interrupt source. Priority runs from VBLANK (strongest) down to
/// JOYPAD; the IF/IE bit of a source is `spec_mask`.
#[derive(Clone, Copy, Debug, PartialEq, Eq, Structural)]
pub enum InterruptType {
    VBLANK,
    LCDStat,
    TIMER,
    SERIAL,
    JOYPAD,
}

impl InterruptType {
    /// The bit this source occupies in IF and IE.
    pub open spec fn spec_mask(self) -> u8 {
        match self {
            InterruptType::VBLANK => 0x01,
            InterruptType::LCDStat => 0x02,
            InterruptType::TIMER => 0x04,
            InterruptType::SERIAL => 0x08,
            InterruptType::JOYPAD => 0x10,
        }
    }

    pub fn mask(self) -> (r: u8)
        ensures
            r == self.spec_mask(),
    {
        match self {
            InterruptType::VBLANK => 0x01,
            InterruptType::LCDStat => 0x02,
            InterruptType::TIMER => 0x04,
            InterruptType::SERIAL => 0x08,
            InterruptType::JOYPAD => 0x10,
        }
    }

    /// The handler address of this source.
    pub open spec fn spec_vector(self) -> u16 {
        match self {
            InterruptType::VBLANK => 0x40,
            InterruptType::LCDStat => 0x48,
            InterruptType::TIMER => 0x50,
            InterruptType::SERIAL => 0x58,
            InterruptType::JOYPAD => 0x60,
        }
    }

    /// The source of the lowest set bit of a nonzero pending mask: VBLANK has
    /// the highest priority.
    pub open spec fn spec_from_pending(value: u8) -> InterruptType {
        if value & 0x1 != 0 {
            InterruptType::VBLANK
        } else if (value >> 1) & 0x1 != 0 {
            InterruptType::LCDStat
        } else if (value >> 2) & 0x1 != 0 {
            InterruptType::TIMER
        } else if (value >> 3) & 0x1 != 0 {
            InterruptType::SERIAL
        } else {
            InterruptType::JOYPAD
        }
    }

    pub fn from_pending(value: u8) -> (r: Self)
        requires
            value & 0x1F != 0,
        ensures
            r == Self::spec_from_pending(value),
    {
        if value & 0x1 != 0 {
            Self::VBLANK
        } else if (value >> 1) & 0x1 != 0 {
            Self::LCDStat
        } else if (value >> 2) & 0x1 != 0 {
            Self::TIMER
        } else if (value >> 3) & 0x1 != 0 {
            Self::SERIAL
        } else {
            Self::JOYPAD
        }
    }
}

} // verus!

verus! {

use crate::bus::{Bus, BusV};
use crate::cartridge::Cartridge;
use crate::instruction::{ConditionType, Instruction, InstructionType, Operand, RegisterType};
use crate::instruction_set::{instruction_for_opcode, spec_instruction};
use crate::io_context::IO;
use crate::registers::{CpuRegisters, Flags};
use crate::util::{DestinationEnum, FetchedData, ValueEnum, spec_combine};

/// The CPU and everything it drives.
pub struct CpuContext {
    pub bus: Bus,
    pub cpu_registers: CpuRegisters,
    pub current_instruction: Instruction,
    fetched_data: FetchedData,
    pub current_opcode: u8,
    halted: bool,
    pub ticks: u64,
    interrupt_master_enabled: bool,
    enabling_ime: bool,
}

/// The whole machine as mathematical data.
#[verifier::ext_equal]
pub struct CpuV {
    pub bus: BusV,
    pub regs: CpuRegisters,
    pub instr: Instruction,
    pub fetched: FetchedData,
    pub opcode: u8,
    pub halted: bool,
    pub ticks: u64,
    pub ime: bool,
    pub enabling_ime: bool,
}

impl View for CpuContext {
    type V = CpuV;

    closed spec fn view(&self) -> CpuV {
        CpuV {
            bus: self.bus@,
            regs: self.cpu_registers,
            instr: self.current_instruction,
            fetched: self.fetched_data,
            opcode: self.current_opcode,
            halted: self.halted,
            ticks: self.ticks,
            ime: self.interrupt_master_enabled,
            enabling_ime: self.enabling_ime,
        }
    }
}

impl CpuV {
    pub open spec fn wf(self) -> bool {
        self.bus.wf()
    }

    /// The machine after the interrupt source's IF bit is raised.
    pub open spec fn spec_request_interrupt(self, interrupt_type: InterruptType) -> CpuV {
        let flags = self.bus.spec_read(0xFF0F);
        CpuV {
            bus: self.bus.spec_write8(0xFF0F, flags | interrupt_type.spec_mask()),
            ..self
        }
    }

    /// The machine after one T-cycle: the tick counter and the timer
    /// advance, and a TIMA overflow raises IF.TIMER.
    pub open spec fn spec_tcycle(self) -> CpuV {
        let s1 = CpuV {
            ticks: vstd::wrapping::u64_specs::wrapping_add(self.ticks, 1),
            ..self
        };
        let timer = s1.bus.io.timer;
        let s2 = CpuV {
            bus: BusV { io: IO { timer: timer.spec_tick(), ..s1.bus.io }, ..s1.bus },
            ..s1
        };
        if timer.spec_tick_fires() {
            s2.spec_request_interrupt(InterruptType::TIMER)
        } else {
            s2
        }
    }

    /// The machine after one machine cycle: four T-cycles, then one DMA
    /// step.
    pub open spec fn spec_cycle(self) -> CpuV {
        let s = self.spec_tcycle().spec_tcycle().spec_tcycle().spec_tcycle();
        CpuV { bus: s.bus.spec_dma_tick(), ..s }
    }

    /// The machine after `n` machine cycles.
    pub open spec fn spec_cycles(self, n: nat) -> CpuV
        decreases n,
    {
        if n == 0 {
            self
        } else {
            self.spec_cycle().spec_cycles((n - 1) as nat)
        }
    }

    /// The HL pair.
    pub open spec fn spec_hl(self) -> u16 {
        spec_combine(self.regs.h, self.regs.l)
    }

    /// The machine after a byte write through the CPU: the bus takes the
    /// byte, then one machine cycle passes.
    pub open spec fn spec_write8_cycle(self, address: u16, value: u8) -> CpuV {
        let s = CpuV { bus: self.bus.spec_write8(address, value), ..self };
        s.spec_cycles(1)
    }

    /// The machine after a word write through the CPU: the bus takes both
    /// bytes, then two machine cycles pass.
    pub open spec fn spec_write16_cycle(self, address: u16, value: u16) -> CpuV {
        let s = CpuV { bus: self.bus.spec_write16(address, value), ..self };
        s.spec_cycles(2)
    }

    /// The machine after a stack push of one byte: SP falls by one
    /// (wrapping), the byte lands at the new SP.
    pub open spec fn spec_stack_push(self, data: u8) -> CpuV {
        let sp2 = vstd::wrapping::u16_specs::wrapping_sub(self.regs.sp, 1);
        let s = CpuV { regs: CpuRegisters { sp: sp2, ..self.regs }, ..self };
        s.spec_write8_cycle(sp2, data)
    }

    /// The machine after a stack push of a word: high byte first, then low.
    pub open spec fn spec_stack_push16(self, data: u16) -> CpuV {
        self.spec_stack_push((data >> 8) as u8).spec_stack_push(data as u8)
    }

    /// The machine after a stack pop of one byte: one machine cycle passes,
    /// the byte at SP is taken, SP rises by one (wrapping).
    pub open spec fn spec_stack_pop(self) -> CpuV {
        let s = self.spec_cycles(1);
        CpuV {
            regs: CpuRegisters {
                sp: vstd::wrapping::u16_specs::wrapping_add(s.regs.sp, 1),
                ..s.regs
            },
            ..s
        }
    }

    /// The byte a stack pop returns.
    pub open spec fn spec_stack_pop_value(self) -> u8 {
        self.spec_cycles(1).bus.spec_read(self.regs.sp)
    }

    /// The machine after a stack pop of a word: low byte first, then high.
    pub open spec fn spec_stack_pop16(self) -> CpuV {
        self.spec_stack_pop().spec_stack_pop()
    }

    /// The word a 16-bit stack pop returns.
    pub open spec fn spec_stack_pop16_value(self) -> u16 {
        spec_combine(self.spec_stack_pop().spec_stack_pop_value(), self.spec_stack_pop_value())
    }

    /// The machine after instruction fetch: one machine cycle passes, the
    /// byte at PC becomes the current opcode and selects the decode-table
    /// entry, and PC advances (wrapping).
    pub open spec fn spec_fetch_instruction(self) -> CpuV {
        let s = self.spec_cycles(1);
        let op = s.bus.spec_read(self.regs.pc);
        CpuV {
            opcode: op,
            instr: spec_instruction(op),
            regs: CpuRegisters {
                pc: vstd::wrapping::u16_specs::wrapping_add(s.regs.pc, 1),
                ..s.regs
            },
            ..s
        }
    }

    /// The machine after one operand byte is consumed at PC.
    pub open spec fn spec_next_pc(self) -> CpuV {
        let s = self.spec_cycles(1);
        CpuV {
            regs: CpuRegisters {
                pc: vstd::wrapping::u16_specs::wrapping_add(s.regs.pc, 1),
                ..s.regs
            },
            ..s
        }
    }

    /// The operand byte consumed at PC.
    pub open spec fn spec_next_pc_value(self) -> u8 {
        self.spec_cycles(1).bus.spec_read(self.regs.pc)
    }
}

/// A machine cycle leaves the registers, the decoded instruction, the
/// fetched operands and the execution flags alone: it only moves the tick
/// counter, the timer, IF, and the DMA engine with its OAM writes.
pub proof fn lemma_cycles_frame(s: CpuV, n: nat)
    ensures
        s.spec_cycles(n).regs == s.regs,
        s.spec_cycles(n).instr == s.instr,
        s.spec_cycles(n).opcode == s.opcode,
        s.spec_cycles(n).fetched == s.fetched,
        s.spec_cycles(n).halted == s.halted,
        s.spec_cycles(n).ime == s.ime,
        s.spec_cycles(n).enabling_ime == s.enabling_ime,
    decreases n,
{
    if n > 0 {
        lemma_cycles_frame(s.spec_cycle(), (n - 1) as nat);
    }
}

/// Machine cycles compose: one more cycle after `n` is the same as `n + 1`
/// cycles.
pub proof fn lemma_cycles_snoc(s: CpuV, n: nat)
    ensures
        s.spec_cycles(n).spec_cycle() == s.spec_cycles(n + 1),
    decreases n,
{
    if n == 0 {
        assert(s.spec_cycles(1) == s.spec_cycle().spec_cycles(0));
        assert(s.spec_cycles(0) == s);
    } else {
        lemma_cycles_snoc(s.spec_cycle(), (n - 1) as nat);
        assert(s.spec_cycles(n) == s.spec_cycle().spec_cycles((n - 1) as nat));
        assert(s.spec_cycles(n + 1) == s.spec_cycle().spec_cycles(n));
    }
}

/// Machine cycles add up.
pub proof fn lemma_cycles_add(s: CpuV, m: nat, n: nat)
    ensures
        s.spec_cycles(m).spec_cycles(n) == s.spec_cycles(m + n),
    decreases m,
{
    if m > 0 {
        lemma_cycles_add(s.spec_cycle(), (m - 1) as nat, n);
    }
}

impl CpuContext {
    /// A machine at the post-boot reset state, over a loaded cartridge.
    pub fn new(cartridge: Cartridge) -> (r: Self)
        requires
            cartridge@.wf(),
        ensures
            r@.wf(),
            r@.bus.cart == cartridge@,
            r@.regs == (CpuRegisters {
                a: 0x01,
                f: crate::registers::FlagsRegister { z: true, n: false, h: true, c: true },
                b: 0,
                c: 0x13,
                d: 0,
                e: 0xD8,
                h: 0x01,
                l: 0x4D,
                pc: 0x100,
                sp: 0xFFFE,
            }),
            r@.instr == spec_instruction(0),
            r@.opcode == 0,
            !r@.halted,
            r@.ticks == 0,
            !r@.ime,
            !r@.enabling_ime,
            r@.bus.io == (IO {
                serial: crate::serial::Serial { serial_transfer_data: 0, serial_transfer_control: 0 },
                timer: crate::timer::Timer { div: 0xAC00, tima: 0, tma: 0, tac: 0 },
                interrupt_flag_register: 0,
            }),
            r@.bus.ie_register == 0,
            r@.bus.dma == (crate::dma::DMA { active: false, byte: 0, value: 0, start_delay: 0 }),
            r@.bus.dbg == Seq::<u8>::empty(),
    {
        let bus = Bus::new(cartridge);
        Self {
            bus,
            cpu_registers: CpuRegisters::new(),
            current_instruction: instruction_for_opcode(0x00),
            fetched_data: FetchedData {
                source: ValueEnum::NoData,
                destination: DestinationEnum::NoDestination,
            },
            current_opcode: 0,
            halted: false,
            ticks: 0,
            interrupt_master_enabled: false,
            enabling_ime: false,
        }
    }

    pub fn get_interrupt_enable_register(&self) -> (r: u8)
        requires
            self@.wf(),
        ensures
            r == self@.bus.spec_read(0xFFFF),
    {
        self.bus.bus_read(0xFFFF)
    }

    pub fn get_interrupt_flags_register(&self) -> (r: u8)
        requires
            self@.wf(),
        ensures
            r == self@.bus.spec_read(0xFF0F),
    {
        self.bus.bus_read(0xFF0F)
    }

    pub fn set_interrupt_flags_register(&mut self, value: u8)
        requires
            old(self)@.wf(),
        ensures
            final(self)@ == (CpuV { bus: old(self)@.bus.spec_write8(0xFF0F, value), ..old(self)@ }),
            final(self)@.wf(),
    {
        self.bus.bus_write8(0xFF0F, value);
    }

    pub fn request_interrupt(&mut self, interrupt_type: InterruptType)
        requires
            old(self)@.wf(),
        ensures
            final(self)@ == old(self)@.spec_request_interrupt(interrupt_type),
            final(self)@.wf(),
    {
        let interrupt_flags = self.get_interrupt_flags_register();
        self.set_interrupt_flags_register(interrupt_flags | interrupt_type.mask());
    }

    /// Let `machine_cycles` machine cycles pass: for each, four T-cycles
    /// drive the timer (raising IF.TIMER on TIMA overflow) and the DMA
    /// engine moves one byte.
    pub fn emu_cycles(&mut self, machine_cycles: usize)
        requires
            old(self)@.wf(),
        ensures
            final(self)@ == old(self)@.spec_cycles(machine_cycles as nat),
            final(self)@.wf(),
    {
        let mut cycle: usize = 0;
        while cycle < machine_cycles
            invariant
                self@.wf(),
                cycle <= machine_cycles,
                self@ == old(self)@.spec_cycles(cycle as nat),
            decreases machine_cycles - cycle,
        {
            let ghost before = self@;
            let mut t: usize = 0;
            while t < 4
                invariant
                    self@.wf(),
                    t <= 4,
                    t == 0 ==> self@ == before,
                    t == 1 ==> self@ == before.spec_tcycle(),
                    t == 2 ==> self@ == before.spec_tcycle().spec_tcycle(),
                    t == 3 ==> self@ == before.spec_tcycle().spec_tcycle().spec_tcycle(),
                    t == 4 ==> self@ == before.spec_tcycle().spec_tcycle().spec_tcycle().spec_tcycle(),
                decreases 4 - t,
            {
                self.ticks = self.ticks.wrapping_add(1);
                let fired = self.bus.io.timer.timer_tick();
                if let Option::Some(interrupt) = fired {
                    self.request_interrupt(interrupt);
                }
                t = t + 1;
            }
            let _ = self.bus.dma_tick();
            proof {
                assert(self@ =~= before.spec_cycle());
                lemma_cycles_snoc(old(self)@, cycle as nat);
            }
            cycle = cycle + 1;
        }
    }

    pub fn bus_read(&mut self, address: u16) -> (r: u8)
        requires
            old(self)@.wf(),
        ensures
            final(self)@ == old(self)@.spec_cycles(1),
            final(self)@.wf(),
            r == old(self)@.spec_cycles(1).bus.spec_read(address),
    {
        self.emu_cycles(1);
        self.bus.bus_read(address)
    }

    pub fn bus_read16(&mut self, address: u16) -> (r: u16)
        requires
            old(self)@.wf(),
        ensures
            final(self)@ == old(self)@.spec_cycles(2),
            final(self)@.wf(),
            r == spec_combine(
                old(self)@.spec_cycles(2).bus.spec_read(
                    vstd::wrapping::u16_specs::wrapping_add(address, 1),
                ),
                old(self)@.spec_cycles(2).bus.spec_read(address),
            ),
    {
        self.emu_cycles(2);
        self.bus.bus_read16(address)
    }

    /// Write a fetched value through the bus: one cycle for a byte, two for
    /// a word.
    pub fn bus_write(&mut self, address: u16, value: ValueEnum)
        requires
            old(self)@.wf(),
            value is Data8 || value is Data16,
        ensures
            final(self)@ == (match value {
                ValueEnum::Data8(data) => old(self)@.spec_write8_cycle(address, data),
                ValueEnum::Data16(data) => old(self)@.spec_write16_cycle(address, data),
                _ => old(self)@,
            }),
            final(self)@.wf(),
    {
        match value {
            ValueEnum::Data8(data) => {
                self.bus.bus_write8(address, data);
                self.emu_cycles(1);
            },
            ValueEnum::Data16(data) => {
                self.bus.bus_write16(address, data);
                self.emu_cycles(2);
            },
            _ => proof { assert(false) },
        }
    }

    pub fn stack_push(&mut self, data: u8)
        requires
            old(self)@.wf(),
        ensures
            final(self)@ == old(self)@.spec_stack_push(data),
            final(self)@.wf(),
    {
        self.cpu_registers.sp = self.cpu_registers.sp.wrapping_sub(1);
        self.bus_write(self.cpu_registers.sp, ValueEnum::Data8(data));
    }

    pub fn stack_push16(&mut self, data: u16)
        requires
            old(self)@.wf(),
        ensures
            final(self)@ == old(self)@.spec_stack_push16(data),
            final(self)@.wf(),
    {
        self.stack_push((data >> 8) as u8);
        self.stack_push(data as u8);
    }

    pub fn stack_pop(&mut self) -> (r: u8)
        requires
            old(self)@.wf(),
        ensures
            final(self)@ == old(self)@.spec_stack_pop(),
            final(self)@.wf(),
            r == old(self)@.spec_stack_pop_value(),
    {
        let data = self.bus_read(self.cpu_registers.sp);
        self.cpu_registers.sp = self.cpu_registers.sp.wrapping_add(1);
        data
    }

    pub fn stack_pop16(&mut self) -> (r: u16)
        requires
            old(self)@.wf(),
        ensures
            final(self)@ == old(self)@.spec_stack_pop16(),
            final(self)@.wf(),
            r == old(self)@.spec_stack_pop16_value(),
    {
        let lo = self.stack_pop();
        let hi = self.stack_pop();
        crate::util::combine(hi, lo)
    }

    /// Fetch and decode the opcode at PC.
    pub fn fetch_instruction(&mut self)
        requires
            old(self)@.wf(),
        ensures
            final(self)@ == old(self)@.spec_fetch_instruction(),
            final(self)@.wf(),
    {
        let pc = self.cpu_registers.pc;
        self.current_opcode = self.bus_read(pc);
        self.current_instruction = instruction_for_opcode(self.current_opcode);
        proof {
            lemma_cycles_frame(old(self)@, 1);
        }
        self.cpu_registers.pc = self.cpu_registers.pc.wrapping_add(1);
    }

    /// Consume one operand byte at PC.
    pub fn get_next_pc_value(&mut self) -> (r: u8)
        requires
            old(self)@.wf(),
        ensures
            final(self)@ == old(self)@.spec_next_pc(),
            final(self)@.wf(),
            r == old(self)@.spec_next_pc_value(),
    {
        let value = self.bus_read(self.cpu_registers.pc);
        self.cpu_registers.pc = self.cpu_registers.pc.wrapping_add(1);
        value
    }

    pub fn get_register(&self, register_type: RegisterType) -> (r: ValueEnum)
        ensures
            r == self@.regs.spec_get_register(register_type),
    {
        self.cpu_registers.get_register(register_type)
    }

    pub fn set_register(&mut self, register_type: RegisterType, value: ValueEnum)
        requires
            CpuRegisters::spec_set_register_ok(register_type, value),
        ensures
            final(self)@ == (CpuV {
                regs: old(self)@.regs.spec_set_register(register_type, value),
                ..old(self)@
            }),
    {
        self.cpu_registers.set_register(register_type, value);
    }

    /// Advance HL by one (wrapping) and hand back its old value.
    pub fn increment_and_return_hl(&mut self) -> (r: u16)
        ensures
            r == old(self)@.spec_hl(),
            final(self)@ == (CpuV {
                regs: old(self)@.regs.spec_set_register(
                    RegisterType::HL,
                    ValueEnum::Data16(
                        vstd::wrapping::u16_specs::wrapping_add(old(self)@.spec_hl(), 1),
                    ),
                ),
                ..old(self)@
            }),
    {
        let old_hl_value = match self.get_register(RegisterType::HL) {
            ValueEnum::Data16(v) => v,
            _ => 0,
        };
        self.set_register(
            RegisterType::HL,
            ValueEnum::Data16(old_hl_value.wrapping_add(1)),
        );
        old_hl_value
    }

    /// Lower HL by one (wrapping) and hand back its old value.
    pub fn decrement_and_return_hl(&mut self) -> (r: u16)
        ensures
            r == old(self)@.spec_hl(),
            final(self)@ == (CpuV {
                regs: old(self)@.regs.spec_set_register(
                    RegisterType::HL,
                    ValueEnum::Data16(
                        vstd::wrapping::u16_specs::wrapping_sub(old(self)@.spec_hl(), 1),
                    ),
                ),
                ..old(self)@
            }),
    {
        let old_hl_value = match self.get_register(RegisterType::HL) {
            ValueEnum::Data16(v) => v,
            _ => 0,
        };
        self.set_register(
            RegisterType::HL,
            ValueEnum::Data16(old_hl_value.wrapping_sub(1)),
        );
        old_hl_value
    }
}

} // verus!

verus! {

/// Whether an operand may stand as a source under the given instruction
/// type and opcode; combinations outside the decode table are excluded.
pub open spec fn spec_source_ok(operand: Operand, itype: InstructionType, opcode: u8) -> bool {
    match operand {
        Operand::NoOperand => false,
        Operand::Register(_) => true,
        Operand::Indirect(_) => true,
        Operand::IndirectIncrementHL | Operand::IndirectDecrementHL => itype
            == InstructionType::LD,
        Operand::A8Indirect => itype == InstructionType::LDH,
        Operand::A16Indirect => itype == InstructionType::LD,
        Operand::A16 => itype == InstructionType::JP || itype == InstructionType::CALL,
        Operand::D8 | Operand::D16 | Operand::R8 => true,
        Operand::SpPlusR8 => opcode == 0xF8,
    }
}

/// Whether an operand may stand as a destination under the given
/// instruction type.
pub open spec fn spec_dest_ok(operand: Operand, itype: InstructionType) -> bool {
    match operand {
        Operand::Register(_) | Operand::Indirect(_) => true,
        Operand::IndirectIncrementHL | Operand::IndirectDecrementHL => itype
            == InstructionType::LD,
        Operand::A8Indirect => itype == InstructionType::LDH,
        Operand::A16Indirect => itype == InstructionType::LD,
        _ => false,
    }
}

impl CpuV {
    /// A register's contents widened to a word.
    pub open spec fn spec_reg_word(self, rt: RegisterType) -> u16 {
        match self.regs.spec_get_register(rt) {
            ValueEnum::Data8(v) => v as u16,
            ValueEnum::Data16(v) => v,
            _ => 0,
        }
    }

    /// The address an `Indirect` operand names: the register pair, or
    /// `$FF00 | C` for the I/O-page form.
    pub open spec fn spec_indirect_address(self, rt: RegisterType) -> u16 {
        if rt == RegisterType::C {
            self.spec_reg_word(rt) | 0xFF00
        } else {
            self.spec_reg_word(rt)
        }
    }

    /// Operand fetch for a source: the machine afterwards and the value
    /// read, by operand kind. Immediates come from PC; indirections read
    /// through the bus and cost their cycle; `(HL+)`/`(HL-)` post-modify HL;
    /// `SP+r8` sets the flags by the 8-bit relative-carry rules.
    pub open spec fn spec_fetch_source(self, operand: Operand) -> (CpuV, ValueEnum) {
        match operand {
            Operand::NoOperand => (self, ValueEnum::NoData),
            Operand::Register(rt) => (self, self.regs.spec_get_register(rt)),
            Operand::Indirect(rt) => {
                let addr = self.spec_indirect_address(rt);
                let s = self.spec_cycles(1);
                (s, ValueEnum::Data8(s.bus.spec_read(addr)))
            },
            Operand::IndirectIncrementHL => {
                let hl = self.spec_hl();
                let s1 = CpuV {
                    regs: self.regs.spec_set_register(
                        RegisterType::HL,
                        ValueEnum::Data16(vstd::wrapping::u16_specs::wrapping_add(hl, 1)),
                    ),
                    ..self
                };
                let s2 = s1.spec_cycles(1);
                (s2, ValueEnum::Data8(s2.bus.spec_read(hl)))
            },
            Operand::IndirectDecrementHL => {
                let hl = self.spec_hl();
                let s1 = CpuV {
                    regs: self.regs.spec_set_register(
                        RegisterType::HL,
                        ValueEnum::Data16(vstd::wrapping::u16_specs::wrapping_sub(hl, 1)),
                    ),
                    ..self
                };
                let s2 = s1.spec_cycles(1);
                (s2, ValueEnum::Data8(s2.bus.spec_read(hl)))
            },
            Operand::A8Indirect => {
                let b = self.spec_next_pc_value();
                let s1 = self.spec_next_pc();
                let addr = (b as u16) | 0xFF00;
                let s2 = s1.spec_cycles(1);
                (s2, ValueEnum::Data8(s2.bus.spec_read(addr)))
            },
            Operand::A16Indirect => {
                let lo = self.spec_next_pc_value();
                let s1 = self.spec_next_pc();
                let hi = s1.spec_next_pc_value();
                let s2 = s1.spec_next_pc();
                let addr = spec_combine(hi, lo);
                let s3 = s2.spec_cycles(1);
                (s3, ValueEnum::Data8(s3.bus.spec_read(addr)))
            },
            Operand::A16 => {
                let lo = self.spec_next_pc_value();
                let s1 = self.spec_next_pc();
                let hi = s1.spec_next_pc_value();
                let s2 = s1.spec_next_pc();
                (s2, ValueEnum::Data16(spec_combine(hi, lo)))
            },
            Operand::D8 => (self.spec_next_pc(), ValueEnum::Data8(self.spec_next_pc_value())),
            Operand::D16 => {
                let lo = self.spec_next_pc_value();
                let s1 = self.spec_next_pc();
                let hi = s1.spec_next_pc_value();
                let s2 = s1.spec_next_pc();
                (s2, ValueEnum::Data16(spec_combine(hi, lo)))
            },
            Operand::R8 => (
                self.spec_next_pc(),
                ValueEnum::SignedData8(self.spec_next_pc_value() as i8),
            ),
            Operand::SpPlusR8 => {
                let d = self.spec_next_pc_value() as i8;
                let s1 = self.spec_next_pc();
                let sp = s1.regs.sp;
                let value = crate::util::spec_add_relative(sp, d);
                let h = crate::util::spec_half_carry_relative(sp, d);
                let c = crate::util::spec_carry_relative(sp, d);
                let s2 = CpuV {
                    regs: s1.regs.spec_set_flags(
                        Option::Some(false),
                        Option::Some(false),
                        Option::Some(h),
                        Option::Some(c),
                    ),
                    ..s1
                };
                (s2, ValueEnum::Data16(value))
            },
        }
    }

    /// Operand fetch for a destination: the machine afterwards and the sink,
    /// by operand kind. Register and indirect sinks cost nothing here;
    /// immediate-address sinks consume their bytes at PC.
    pub open spec fn spec_fetch_destination(self, operand: Operand) -> (CpuV, DestinationEnum) {
        match operand {
            Operand::Register(rt) => (self, DestinationEnum::Register(rt)),
            Operand::Indirect(rt) => (
                self,
                DestinationEnum::Address(self.spec_indirect_address(rt)),
            ),
            Operand::IndirectIncrementHL => {
                let hl = self.spec_hl();
                let s1 = CpuV {
                    regs: self.regs.spec_set_register(
                        RegisterType::HL,
                        ValueEnum::Data16(vstd::wrapping::u16_specs::wrapping_add(hl, 1)),
                    ),
                    ..self
                };
                (s1, DestinationEnum::Address(hl))
            },
            Operand::IndirectDecrementHL => {
                let hl = self.spec_hl();
                let s1 = CpuV {
                    regs: self.regs.spec_set_register(
                        RegisterType::HL,
                        ValueEnum::Data16(vstd::wrapping::u16_specs::wrapping_sub(hl, 1)),
                    ),
                    ..self
                };
                (s1, DestinationEnum::Address(hl))
            },
            Operand::A8Indirect => {
                let b = self.spec_next_pc_value();
                let s1 = self.spec_next_pc();
                (s1, DestinationEnum::Address((b as u16) | 0xFF00))
            },
            Operand::A16Indirect => {
                let lo = self.spec_next_pc_value();
                let s1 = self.spec_next_pc();
                let hi = s1.spec_next_pc_value();
                let s2 = s1.spec_next_pc();
                (s2, DestinationEnum::Address(spec_combine(hi, lo)))
            },
            _ => (self, DestinationEnum::NoDestination),
        }
    }

    /// The machine after the one-source fetch that JP, JR, CALL, PUSH, the
    /// 8-bit logic/compare group and the CB prefix use.
    pub open spec fn spec_fetch_1_operand(self) -> CpuV {
        let (s, src) = self.spec_fetch_source(self.instr.operand_1);
        CpuV {
            fetched: FetchedData { source: src, destination: DestinationEnum::NoDestination },
            ..s
        }
    }

    /// The machine after the source-then-destination fetch that LD, LDH and
    /// the 8/16-bit arithmetic group use.
    pub open spec fn spec_fetch_2_operands(self) -> CpuV {
        let (s1, src) = self.spec_fetch_source(self.instr.operand_2);
        let (s2, dst) = s1.spec_fetch_destination(self.instr.operand_1);
        CpuV { fetched: FetchedData { source: src, destination: dst }, ..s2 }
    }

    /// The machine after the destination-only fetch that INC, DEC and POP
    /// use.
    pub open spec fn spec_fetch_1_operand_mut(self) -> CpuV {
        let (s, dst) = self.spec_fetch_destination(self.instr.operand_1);
        CpuV { fetched: FetchedData { source: ValueEnum::NoData, destination: dst }, ..s }
    }

    /// The branch condition of the current instruction, read against F.
    pub open spec fn spec_check_condition(self) -> bool {
        match self.instr.condition {
            ConditionType::C => self.regs.f.c,
            ConditionType::Z => self.regs.f.z,
            ConditionType::NC => !self.regs.f.c,
            ConditionType::NZ => !self.regs.f.z,
            ConditionType::Unconditional => true,
        }
    }
}

/// Fetching a source leaves the decoded instruction, the opcode, the
/// fetched-data slot and the execution flags alone.
pub proof fn lemma_fetch_source_frame(s: CpuV, operand: Operand)
    ensures
        s.spec_fetch_source(operand).0.instr == s.instr,
        s.spec_fetch_source(operand).0.opcode == s.opcode,
        s.spec_fetch_source(operand).0.fetched == s.fetched,
        s.spec_fetch_source(operand).0.halted == s.halted,
        s.spec_fetch_source(operand).0.ime == s.ime,
        s.spec_fetch_source(operand).0.enabling_ime == s.enabling_ime,
{
    match operand {
        Operand::NoOperand => {},
        Operand::Register(_) => {},
        Operand::Indirect(_) => {
            lemma_cycles_frame(s, 1);
        },
        Operand::IndirectIncrementHL | Operand::IndirectDecrementHL => {
            let s1 = s.spec_fetch_source(operand).0;
            lemma_cycles_frame(
                CpuV {
                    regs: s.regs.spec_set_register(
                        RegisterType::HL,
                        ValueEnum::Data16(
                            if operand == Operand::IndirectIncrementHL {
                                vstd::wrapping::u16_specs::wrapping_add(s.spec_hl(), 1)
                            } else {
                                vstd::wrapping::u16_specs::wrapping_sub(s.spec_hl(), 1)
                            },
                        ),
                    ),
                    ..s
                },
                1,
            );
        },
        Operand::A8Indirect => {
            lemma_cycles_frame(s, 1);
            lemma_cycles_frame(s.spec_next_pc(), 1);
        },
        Operand::A16Indirect => {
            lemma_cycles_frame(s, 1);
            lemma_cycles_frame(s.spec_next_pc(), 1);
            lemma_cycles_frame(s.spec_next_pc().spec_next_pc(), 1);
        },
        Operand::A16 | Operand::D16 => {
            lemma_cycles_frame(s, 1);
            lemma_cycles_frame(s.spec_next_pc(), 1);
        },
        Operand::D8 | Operand::R8 => {
            lemma_cycles_frame(s, 1);
        },
        Operand::SpPlusR8 => {
            lemma_cycles_frame(s, 1);
        },
    }
}

/// Fetching a destination leaves the decoded instruction, the opcode, the
/// fetched-data slot and the execution flags alone.
pub proof fn lemma_fetch_destination_frame(s: CpuV, operand: Operand)
    ensures
        s.spec_fetch_destination(operand).0.instr == s.instr,
        s.spec_fetch_destination(operand).0.opcode == s.opcode,
        s.spec_fetch_destination(operand).0.fetched == s.fetched,
        s.spec_fetch_destination(operand).0.halted == s.halted,
        s.spec_fetch_destination(operand).0.ime == s.ime,
        s.spec_fetch_destination(operand).0.enabling_ime == s.enabling_ime,
{
    match operand {
        Operand::A8Indirect => {
            lemma_cycles_frame(s, 1);
        },
        Operand::A16Indirect => {
            lemma_cycles_frame(s, 1);
            lemma_cycles_frame(s.spec_next_pc(), 1);
        },
        _ => {},
    }
}

impl CpuContext {
    /// Fetch a source operand.
    pub fn fetch_source_data(&mut self, operand: Operand) -> (r: ValueEnum)
        requires
            old(self)@.wf(),
            spec_source_ok(operand, old(self)@.instr.instruction_type, old(self)@.opcode),
        ensures
            final(self)@ == old(self)@.spec_fetch_source(operand).0,
            final(self)@.wf(),
            r == old(self)@.spec_fetch_source(operand).1,
    {
        match operand {
            Operand::NoOperand => ValueEnum::NoData,
            Operand::Register(register_type) => self.cpu_registers.get_register(register_type),
            Operand::Indirect(register_type) => {
                let register_value = match self.cpu_registers.get_register(register_type) {
                    ValueEnum::Data8(v) => v as u16,
                    ValueEnum::Data16(v) => v,
                    _ => 0,
                };
                let value = if matches!(register_type, RegisterType::C) {
                    self.bus_read(register_value | 0xFF00)
                } else {
                    self.bus_read(register_value)
                };
                ValueEnum::Data8(value)
            },
            Operand::IndirectIncrementHL => {
                let hl = self.increment_and_return_hl();
                let value = self.bus_read(hl);
                ValueEnum::Data8(value)
            },
            Operand::IndirectDecrementHL => {
                let hl = self.decrement_and_return_hl();
                let value = self.bus_read(hl);
                ValueEnum::Data8(value)
            },
            Operand::A8Indirect => {
                let address = (self.get_next_pc_value() as u16) | 0xFF00;
                let value = self.bus_read(address);
                ValueEnum::Data8(value)
            },
            Operand::A16Indirect => {
                let lo = self.get_next_pc_value();
                let hi = self.get_next_pc_value();
                let address = crate::util::combine(hi, lo);
                let value = self.bus_read(address);
                ValueEnum::Data8(value)
            },
            Operand::A16 => {
                let lo = self.get_next_pc_value();
                let hi = self.get_next_pc_value();
                ValueEnum::Data16(crate::util::combine(hi, lo))
            },
            Operand::D8 => ValueEnum::Data8(self.get_next_pc_value()),
            Operand::D16 => {
                let lo = self.get_next_pc_value();
                let hi = self.get_next_pc_value();
                ValueEnum::Data16(crate::util::combine(hi, lo))
            },
            Operand::R8 => ValueEnum::SignedData8(self.get_next_pc_value() as i8),
            Operand::SpPlusR8 => {
                let signed_data = self.get_next_pc_value() as i8;
                let sp_value = self.cpu_registers.sp;
                let value = crate::util::add_relative(sp_value, signed_data);
                let h = crate::util::check_half_carry_relative(sp_value, signed_data);
                let c = crate::util::check_carry_relative(sp_value, signed_data);
                self.cpu_registers.set_flags(
                    Option::Some(false),
                    Option::Some(false),
                    Option::Some(h),
                    Option::Some(c),
                );
                ValueEnum::Data16(value)
            },
        }
    }

    /// Fetch a destination operand.
    pub fn fetch_destination_data(&mut self, operand: Operand) -> (r: DestinationEnum)
        requires
            old(self)@.wf(),
            spec_dest_ok(operand, old(self)@.instr.instruction_type),
        ensures
            final(self)@ == old(self)@.spec_fetch_destination(operand).0,
            final(self)@.wf(),
            r == old(self)@.spec_fetch_destination(operand).1,
    {
        match operand {
            Operand::Register(register_type) => DestinationEnum::Register(register_type),
            Operand::Indirect(register_type) => {
                let register_value = match self.cpu_registers.get_register(register_type) {
                    ValueEnum::Data8(v) => v as u16,
                    ValueEnum::Data16(v) => v,
                    _ => 0,
                };
                if matches!(register_type, RegisterType::C) {
                    DestinationEnum::Address(register_value | 0xFF00)
                } else {
                    DestinationEnum::Address(register_value)
                }
            },
            Operand::IndirectIncrementHL => DestinationEnum::Address(
                self.increment_and_return_hl(),
            ),
            Operand::IndirectDecrementHL => DestinationEnum::Address(
                self.decrement_and_return_hl(),
            ),
            Operand::A8Indirect => DestinationEnum::Address(
                (self.get_next_pc_value() as u16) | 0xFF00,
            ),
            Operand::A16Indirect => {
                let lo = self.get_next_pc_value();
                let hi = self.get_next_pc_value();
                DestinationEnum::Address(crate::util::combine(hi, lo))
            },
            _ => DestinationEnum::NoDestination,
        }
    }

    pub fn fetch_data_1_operand(&mut self)
        requires
            old(self)@.wf(),
            spec_source_ok(
                old(self)@.instr.operand_1,
                old(self)@.instr.instruction_type,
                old(self)@.opcode,
            ),
        ensures
            final(self)@ == old(self)@.spec_fetch_1_operand(),
            final(self)@.wf(),
    {
        let operand = self.current_instruction.operand_1;
        let source = self.fetch_source_data(operand);
        self.fetched_data = FetchedData::with_source(source);
    }

    pub fn fetch_data_2_operands(&mut self)
        requires
            old(self)@.wf(),
            spec_source_ok(
                old(self)@.instr.operand_2,
                old(self)@.instr.instruction_type,
                old(self)@.opcode,
            ),
            spec_dest_ok(old(self)@.instr.operand_1, old(self)@.instr.instruction_type),
        ensures
            final(self)@ == old(self)@.spec_fetch_2_operands(),
            final(self)@.wf(),
    {
        let operand_2 = self.current_instruction.operand_2;
        let operand_1 = self.current_instruction.operand_1;
        let source = self.fetch_source_data(operand_2);
        proof {
            lemma_fetch_source_frame(old(self)@, operand_2);
        }
        let destination = self.fetch_destination_data(operand_1);
        self.fetched_data = FetchedData::new(source, destination);
    }

    fn fetch_data_1_operand_mut(&mut self)
        requires
            old(self)@.wf(),
            spec_dest_ok(old(self)@.instr.operand_1, old(self)@.instr.instruction_type),
        ensures
            final(self)@ == old(self)@.spec_fetch_1_operand_mut(),
            final(self)@.wf(),
    {
        let operand = self.current_instruction.operand_1;
        let destination = self.fetch_destination_data(operand);
        self.fetched_data = FetchedData::with_destination(destination);
    }

    fn check_condition(&self) -> (r: bool)
        ensures
            r == self@.spec_check_condition(),
    {
        let z = self.cpu_registers.f.get_flag(Flags::Z);
        let c = self.cpu_registers.f.get_flag(Flags::C);
        match self.current_instruction.condition {
            ConditionType::C => c,
            ConditionType::Z => z,
            ConditionType::NC => !c,
            ConditionType::NZ => !z,
            ConditionType::Unconditional => true,
        }
    }
}

} // verus!

verus! {

/// RLC: rotate left, bit 7 into bit 0.
pub open spec fn spec_rlc(v: u8) -> u8 {
    (v << 1) | (v >> 7)
}

/// RRC: rotate right, bit 0 into bit 7.
pub open spec fn spec_rrc(v: u8) -> u8 {
    (v >> 1) | (v << 7)
}

/// SWAP: exchange the nibbles.
pub open spec fn spec_swap(v: u8) -> u8 {
    (v >> 4) | (v << 4)
}

/// SRA: arithmetic shift right, keeping the sign bit.
pub open spec fn spec_sra(v: u8) -> u8 {
    ((v as i8) >> 1) as u8
}

/// The CB operand target selected by the low three bits of the sub-opcode:
/// B, C, D, E, H, L, (HL), A.
pub open spec fn spec_cb_register(cb: u8) -> RegisterType {
    if cb & 0x07 == 0 {
        RegisterType::B
    } else if cb & 0x07 == 1 {
        RegisterType::C
    } else if cb & 0x07 == 2 {
        RegisterType::D
    } else if cb & 0x07 == 3 {
        RegisterType::E
    } else if cb & 0x07 == 4 {
        RegisterType::H
    } else if cb & 0x07 == 5 {
        RegisterType::L
    } else if cb & 0x07 == 6 {
        RegisterType::HL
    } else {
        RegisterType::A
    }
}

fn cb_register_lookup(cb: u8) -> (r: RegisterType)
    ensures
        r == spec_cb_register(cb),
{
    let sel = cb & 0x07;
    if sel == 0 {
        RegisterType::B
    } else if sel == 1 {
        RegisterType::C
    } else if sel == 2 {
        RegisterType::D
    } else if sel == 3 {
        RegisterType::E
    } else if sel == 4 {
        RegisterType::H
    } else if sel == 5 {
        RegisterType::L
    } else if sel == 6 {
        RegisterType::HL
    } else {
        RegisterType::A
    }
}


/// The result of the CB rotate/shift/swap family, keyed on the sub-operation
/// index: RLC, RRC, RL, RR, SLA, SRA, SWAP, SRL.
pub open spec fn spec_cb_rot_value(operation: u8, v: u8, carry_flag: u8) -> u8 {
    if operation == 0 {
        spec_rlc(v)
    } else if operation == 1 {
        spec_rrc(v)
    } else if operation == 2 {
        (v << 1) | carry_flag
    } else if operation == 3 {
        (v >> 1) | (carry_flag << 7)
    } else if operation == 4 {
        v << 1
    } else if operation == 5 {
        spec_sra(v)
    } else if operation == 6 {
        spec_swap(v)
    } else {
        v >> 1
    }
}

/// The carry the CB rotate/shift/swap family leaves: the bit rotated or
/// shifted out, and zero for SWAP.
pub open spec fn spec_cb_rot_carry(operation: u8, v: u8, carry_flag: u8) -> bool {
    if operation == 0 {
        spec_cb_rot_value(operation, v, carry_flag) & 0x1 == 0x1
    } else if operation == 1 {
        spec_cb_rot_value(operation, v, carry_flag) & 0x80 == 0x80
    } else if operation == 2 {
        v & 0x80 == 0x80
    } else if operation == 3 {
        v & 0x1 == 0x1
    } else if operation == 4 {
        v & 0x80 == 0x80
    } else if operation == 5 {
        v & 0x1 == 0x1
    } else if operation == 6 {
        false
    } else {
        v & 0x1 == 0x1
    }
}

fn cb_rot(operation: u8, v: u8, carry_flag: u8) -> (r: (u8, bool))
    ensures
        r.0 == spec_cb_rot_value(operation, v, carry_flag),
        r.1 == spec_cb_rot_carry(operation, v, carry_flag),
{
    if operation == 0 {
        let value = (v << 1) | (v >> 7);
        (value, value & 0x1 == 0x1)
    } else if operation == 1 {
        let value = (v >> 1) | (v << 7);
        (value, value & 0x80 == 0x80)
    } else if operation == 2 {
        ((v << 1) | carry_flag, v & 0x80 == 0x80)
    } else if operation == 3 {
        ((v >> 1) | (carry_flag << 7), v & 0x1 == 0x1)
    } else if operation == 4 {
        (v << 1, v & 0x80 == 0x80)
    } else if operation == 5 {
        (((v as i8) >> 1) as u8, v & 0x1 == 0x1)
    } else if operation == 6 {
        ((v >> 4) | (v << 4), false)
    } else {
        (v >> 1, v & 0x1 == 0x1)
    }
}

impl CpuV {
    /// A fetched value written through the bus: a byte costs one cycle, a
    /// word two.
    pub open spec fn spec_bus_write_value(self, address: u16, value: ValueEnum) -> CpuV {
        match value {
            ValueEnum::Data8(data) => self.spec_write8_cycle(address, data),
            ValueEnum::Data16(data) => self.spec_write16_cycle(address, data),
            _ => self,
        }
    }

    /// LD: move the fetched source into the fetched destination.
    pub open spec fn spec_process_ld(self) -> CpuV {
        match self.fetched.destination {
            DestinationEnum::Register(rt) => CpuV {
                regs: self.regs.spec_set_register(rt, self.fetched.source),
                ..self
            },
            DestinationEnum::Address(address) => self.spec_bus_write_value(
                address,
                self.fetched.source,
            ),
            DestinationEnum::NoDestination => self,
        }
    }

    /// LDH: move a byte between A and the I/O page.
    pub open spec fn spec_process_ldh(self) -> CpuV {
        match self.fetched.destination {
            DestinationEnum::Register(rt) => CpuV {
                regs: self.regs.spec_set_register(rt, self.fetched.source),
                ..self
            },
            DestinationEnum::Address(address) => self.spec_bus_write_value(
                address,
                self.fetched.source,
            ),
            DestinationEnum::NoDestination => self,
        }
    }

    /// ADD: 8-bit into a byte register with Z/N/H/C, 16-bit into a pair with
    /// N/H/C over the high nibbles and an extra cycle, or the signed byte
    /// into SP with the 8-bit relative-carry rules and an extra cycle.
    pub open spec fn spec_process_add(self) -> CpuV {
        match self.fetched.destination {
            DestinationEnum::Register(rt) => match self.fetched.source {
                ValueEnum::SignedData8(r8) => {
                    let h = crate::util::spec_half_carry_relative(self.regs.sp, r8);
                    let c = crate::util::spec_carry_relative(self.regs.sp, r8);
                    let s1 = CpuV {
                        regs: CpuRegisters {
                            sp: crate::util::spec_add_relative(self.regs.sp, r8),
                            ..self.regs
                        },
                        ..self
                    };
                    let s2 = s1.spec_cycles(1);
                    CpuV {
                        regs: s2.regs.spec_set_flags(
                            Option::Some(false),
                            Option::Some(false),
                            Option::Some(h),
                            Option::Some(c),
                        ),
                        ..s2
                    }
                },
                ValueEnum::Data8(d8) => {
                    let a = match self.regs.spec_get_register(rt) {
                        ValueEnum::Data8(v) => v,
                        _ => 0,
                    };
                    let c = a + d8 > 0xFF;
                    let sum = ((a + d8) % 256) as u8;
                    let z = sum == 0;
                    let h = (a & 0x0F) + (d8 & 0x0F) > 0x0F;
                    let s1 = CpuV {
                        regs: self.regs.spec_set_register(rt, ValueEnum::Data8(sum)),
                        ..self
                    };
                    CpuV {
                        regs: s1.regs.spec_set_flags(
                            Option::Some(z),
                            Option::Some(false),
                            Option::Some(h),
                            Option::Some(c),
                        ),
                        ..s1
                    }
                },
                ValueEnum::Data16(d16) => {
                    let rv = match self.regs.spec_get_register(rt) {
                        ValueEnum::Data16(v) => v,
                        _ => 0,
                    };
                    let h = (rv & 0x0FFF) + (d16 & 0x0FFF) > 0x0FFF;
                    let c = rv + d16 > 0xFFFF;
                    let sum = ((rv + d16) % 0x10000) as u16;
                    let s1 = CpuV {
                        regs: self.regs.spec_set_register(rt, ValueEnum::Data16(sum)),
                        ..self
                    };
                    let s2 = s1.spec_cycles(1);
                    CpuV {
                        regs: s2.regs.spec_set_flags(
                            Option::None,
                            Option::Some(false),
                            Option::Some(h),
                            Option::Some(c),
                        ),
                        ..s2
                    }
                },
                ValueEnum::NoData => self,
            },
            _ => self,
        }
    }

    /// ADC: A plus the byte plus carry-in, with Z/N/H/C including the
    /// carry-in in the half-carry and carry rules.
    pub open spec fn spec_process_adc(self) -> CpuV {
        match self.fetched.source {
            ValueEnum::Data8(value) => {
                let carry: u8 = if self.regs.f.c { 1 } else { 0 };
                let a = self.regs.a;
                let result = ((a + value + carry) % 256) as u8;
                let c = a + value + carry > 0xFF;
                let h = (a & 0x0F) + (value & 0x0F) + carry > 0x0F;
                let regs1 = self.regs.spec_set_flags(
                    Option::Some(result == 0),
                    Option::Some(false),
                    Option::Some(h),
                    Option::Some(c),
                );
                CpuV { regs: CpuRegisters { a: result, ..regs1 }, ..self }
            },
            _ => self,
        }
    }

    /// SUB: A minus the byte, wrapping, with Z/N/H/C from the pre-wrap
    /// comparison.
    pub open spec fn spec_process_sub(self) -> CpuV {
        match self.fetched.source {
            ValueEnum::Data8(value) => {
                let a = self.regs.a;
                let diff = vstd::wrapping::u8_specs::wrapping_sub(a, value);
                let regs1 = self.regs.spec_set_flags(
                    Option::Some(diff == 0),
                    Option::Some(true),
                    Option::Some((a & 0x0F) < (value & 0x0F)),
                    Option::Some(a < value),
                );
                CpuV { regs: CpuRegisters { a: diff, ..regs1 }, ..self }
            },
            _ => self,
        }
    }

    /// SBC: A minus the byte minus carry-in, wrapping, with the carry-in in
    /// the half-carry and carry rules.
    pub open spec fn spec_process_sbc(self) -> CpuV {
        match self.fetched.source {
            ValueEnum::Data8(value) => {
                let carry: u8 = if self.regs.f.c { 1 } else { 0 };
                let a = self.regs.a;
                let result = vstd::wrapping::u8_specs::wrapping_sub(
                    vstd::wrapping::u8_specs::wrapping_sub(a, value),
                    carry,
                );
                let h = (a & 0x0F) < (value & 0x0F) + carry;
                let c = a < value + carry;
                let regs1 = self.regs.spec_set_flags(
                    Option::Some(result == 0),
                    Option::Some(true),
                    Option::Some(h),
                    Option::Some(c),
                );
                CpuV { regs: CpuRegisters { a: result, ..regs1 }, ..self }
            },
            _ => self,
        }
    }

    /// AND: A anded with the byte; Z from the result, N=0, H=1, C=0.
    pub open spec fn spec_process_and(self) -> CpuV {
        match self.fetched.source {
            ValueEnum::Data8(value) => {
                let a2 = self.regs.a & value;
                let regs1 = CpuRegisters { a: a2, ..self.regs };
                CpuV {
                    regs: regs1.spec_set_flags(
                        Option::Some(a2 == 0),
                        Option::Some(false),
                        Option::Some(true),
                        Option::Some(false),
                    ),
                    ..self
                }
            },
            _ => self,
        }
    }

    /// OR: A ored with the byte; Z from the result, N=H=C=0.
    pub open spec fn spec_process_or(self) -> CpuV {
        match self.fetched.source {
            ValueEnum::Data8(value) => {
                let a2 = self.regs.a | value;
                let regs1 = CpuRegisters { a: a2, ..self.regs };
                CpuV {
                    regs: regs1.spec_set_flags(
                        Option::Some(a2 == 0),
                        Option::Some(false),
                        Option::Some(false),
                        Option::Some(false),
                    ),
                    ..self
                }
            },
            _ => self,
        }
    }

    /// XOR: A xored with the byte; Z from the result, N=H=C=0.
    pub open spec fn spec_process_xor(self) -> CpuV {
        match self.fetched.source {
            ValueEnum::Data8(value) => {
                let a2 = self.regs.a ^ value;
                let regs1 = CpuRegisters { a: a2, ..self.regs };
                CpuV {
                    regs: regs1.spec_set_flags(
                        Option::Some(a2 == 0),
                        Option::Some(false),
                        Option::Some(false),
                        Option::Some(false),
                    ),
                    ..self
                }
            },
            _ => self,
        }
    }

    /// CP: compare A with the byte; flags as SUB, A unchanged.
    pub open spec fn spec_process_cp(self) -> CpuV {
        match self.fetched.source {
            ValueEnum::Data8(value) => {
                let a = self.regs.a;
                CpuV {
                    regs: self.regs.spec_set_flags(
                        Option::Some(a == value),
                        Option::Some(true),
                        Option::Some((a & 0x0F) < (value & 0x0F)),
                        Option::Some(a < value),
                    ),
                    ..self
                }
            },
            _ => self,
        }
    }

    /// INC: add one to the destination; an 8-bit target updates Z, N and H
    /// (C untouched), a 16-bit target or pair costs an extra cycle and
    /// leaves the flags alone.
    pub open spec fn spec_process_inc(self) -> CpuV {
        let gate = self.opcode & 0x3F == self.opcode && self.opcode & 0x4 == 0x4;
        match self.fetched.destination {
            DestinationEnum::Register(rt) => match self.regs.spec_get_register(rt) {
                ValueEnum::Data8(v) => {
                    let nv = vstd::wrapping::u8_specs::wrapping_add(v, 1);
                    let s1 = CpuV {
                        regs: self.regs.spec_set_register(rt, ValueEnum::Data8(nv)),
                        ..self
                    };
                    if gate {
                        CpuV {
                            regs: s1.regs.spec_set_flags(
                                Option::Some(nv == 0),
                                Option::Some(false),
                                Option::Some((v & 0x0F) + 1 > 0x0F),
                                Option::None,
                            ),
                            ..s1
                        }
                    } else {
                        s1
                    }
                },
                ValueEnum::Data16(v) => {
                    let s0 = self.spec_cycles(1);
                    CpuV {
                        regs: s0.regs.spec_set_register(
                            rt,
                            ValueEnum::Data16(vstd::wrapping::u16_specs::wrapping_add(v, 1)),
                        ),
                        ..s0
                    }
                },
                _ => self,
            },
            DestinationEnum::Address(address) => {
                let s1 = self.spec_cycles(1);
                let v = s1.bus.spec_read(address);
                let nv = vstd::wrapping::u8_specs::wrapping_add(v, 1);
                let s2 = s1.spec_write8_cycle(address, nv);
                if gate {
                    CpuV {
                        regs: s2.regs.spec_set_flags(
                            Option::Some(nv == 0),
                            Option::Some(false),
                            Option::Some((v & 0x0F) + 1 > 0x0F),
                            Option::None,
                        ),
                        ..s2
                    }
                } else {
                    s2
                }
            },
            DestinationEnum::NoDestination => self,
        }
    }

    /// DEC: take one from the destination; an 8-bit target updates Z, N and
    /// H (C untouched), a 16-bit target or pair costs an extra cycle and
    /// leaves the flags alone.
    pub open spec fn spec_process_dec(self) -> CpuV {
        let gate = self.opcode & 0x3F == self.opcode && self.opcode & 0x6 == 0x4;
        match self.fetched.destination {
            DestinationEnum::Register(rt) => match self.regs.spec_get_register(rt) {
                ValueEnum::Data8(v) => {
                    let nv = vstd::wrapping::u8_specs::wrapping_sub(v, 1);
                    let s1 = CpuV {
                        regs: self.regs.spec_set_register(rt, ValueEnum::Data8(nv)),
                        ..self
                    };
                    if gate {
                        CpuV {
                            regs: s1.regs.spec_set_flags(
                                Option::Some(nv == 0),
                                Option::Some(true),
                                Option::Some((v & 0x0F) < 1),
                                Option::None,
                            ),
                            ..s1
                        }
                    } else {
                        s1
                    }
                },
                ValueEnum::Data16(v) => {
                    let s0 = self.spec_cycles(1);
                    CpuV {
                        regs: s0.regs.spec_set_register(
                            rt,
                            ValueEnum::Data16(vstd::wrapping::u16_specs::wrapping_sub(v, 1)),
                        ),
                        ..s0
                    }
                },
                _ => self,
            },
            DestinationEnum::Address(address) => {
                let s1 = self.spec_cycles(1);
                let v = s1.bus.spec_read(address);
                let nv = vstd::wrapping::u8_specs::wrapping_sub(v, 1);
                let s2 = s1.spec_write8_cycle(address, nv);
                if gate {
                    CpuV {
                        regs: s2.regs.spec_set_flags(
                            Option::Some(nv == 0),
                            Option::Some(true),
                            Option::Some((v & 0x0F) < 1),
                            Option::None,
                        ),
                        ..s2
                    }
                } else {
                    s2
                }
            },
            DestinationEnum::NoDestination => self,
        }
    }

    /// A branch to `address` when the condition holds: PC is pushed first
    /// for CALL/RST, and the taken branch costs one extra cycle.
    pub open spec fn spec_goto_address(self, address: u16, push_pc: bool) -> CpuV {
        if self.spec_check_condition() {
            let s1 = if push_pc {
                self.spec_stack_push16(self.regs.pc)
            } else {
                self
            };
            let s2 = CpuV { regs: CpuRegisters { pc: address, ..s1.regs }, ..s1 };
            s2.spec_cycles(1)
        } else {
            self
        }
    }

    /// JP: branch to the fetched word (or to HL for `JP HL`).
    pub open spec fn spec_process_jp(self) -> CpuV {
        match self.fetched.source {
            ValueEnum::Data16(address) => self.spec_goto_address(address, false),
            _ => self,
        }
    }

    /// JR: branch to PC plus the signed displacement.
    pub open spec fn spec_process_jr(self) -> CpuV {
        match self.fetched.source {
            ValueEnum::SignedData8(relative) => self.spec_goto_address(
                crate::util::spec_add_relative(self.regs.pc, relative),
                false,
            ),
            _ => self,
        }
    }

    /// CALL: push PC, then branch to the fetched word.
    pub open spec fn spec_process_call(self) -> CpuV {
        match self.fetched.source {
            ValueEnum::Data16(address) => self.spec_goto_address(address, true),
            _ => self,
        }
    }

    /// RST: push PC, then branch to the entry's fixed parameter.
    pub open spec fn spec_process_rst(self) -> CpuV {
        match self.instr.parameter {
            Option::Some(parameter) => self.spec_goto_address(parameter as u16, true),
            Option::None => self,
        }
    }

    /// RET: an unconditional return pops PC; a conditional one spends a
    /// cycle on the test first and pops only when it holds.
    pub open spec fn spec_process_ret(self) -> CpuV {
        if self.instr.condition == ConditionType::Unconditional {
            let address = self.spec_stack_pop16_value();
            let s = self.spec_stack_pop16();
            s.spec_goto_address(address, false)
        } else {
            let should_ret = self.spec_check_condition();
            let s1 = self.spec_cycles(1);
            if should_ret {
                let address = s1.spec_stack_pop16_value();
                let s2 = s1.spec_stack_pop16();
                s2.spec_goto_address(address, false)
            } else {
                s1
            }
        }
    }

    /// RETI: return and set IME at once.
    pub open spec fn spec_process_reti(self) -> CpuV {
        (CpuV { ime: true, ..self }).spec_process_ret()
    }

    /// PUSH: push the fetched pair, plus the internal cycle.
    pub open spec fn spec_process_push(self) -> CpuV {
        match self.fetched.source {
            ValueEnum::Data16(data) => self.spec_stack_push16(data).spec_cycles(1),
            _ => self,
        }
    }

    /// POP: pop a word into the fetched pair; a pop into AF masks the low
    /// nibble of F to zero.
    pub open spec fn spec_process_pop(self) -> CpuV {
        match self.fetched.destination {
            DestinationEnum::Register(register) => {
                let value = self.spec_stack_pop16_value();
                let s = self.spec_stack_pop16();
                CpuV {
                    regs: s.regs.spec_set_register(register, ValueEnum::Data16(value)),
                    ..s
                }
            },
            _ => self,
        }
    }

    /// The write-back of a CB operation: through HL for the `(HL)` target,
    /// into the register otherwise.
    pub open spec fn spec_cb_writeback(self, register: RegisterType, value: u8) -> CpuV {
        if register == RegisterType::HL {
            self.spec_write8_cycle(self.spec_hl(), value)
        } else {
            CpuV {
                regs: self.regs.spec_set_register(register, ValueEnum::Data8(value)),
                ..self
            }
        }
    }

    /// A CB-prefixed operation on the target named by the sub-opcode's low
    /// three bits: the rotate/shift/swap family with Z/N/H/C, BIT with
    /// Z=¬bit and H=1, or RES/SET with no flag change. The `(HL)` target
    /// reads and writes through the bus at its cycle cost, and CB decode
    /// itself costs one cycle.
    pub open spec fn spec_process_cb(self) -> CpuV {
        match self.fetched.source {
            ValueEnum::Data8(cb) => {
                let register = spec_cb_register(cb);
                let bit_operation = (cb >> 6) & 0b11;
                let is_hl = register == RegisterType::HL;
                let addr = self.spec_hl();
                let s1 = if is_hl {
                    self.spec_cycles(1).spec_cycles(1)
                } else {
                    self
                };
                let register_value = if is_hl {
                    s1.bus.spec_read(addr)
                } else {
                    match self.regs.spec_get_register(register) {
                        ValueEnum::Data8(v) => v,
                        _ => 0,
                    }
                };
                let carry_flag: u8 = if s1.regs.f.c {
                    1
                } else {
                    0
                };
                let s2 = s1.spec_cycles(1);
                s2.spec_cb_apply(cb, register, register_value, carry_flag)
            },
            _ => self,
        }
    }

    /// The operation phase of a CB instruction, on the value already read
    /// from the target: rotate/shift/swap with Z/N/H/C, BIT with Z=¬bit and
    /// H=1, RES and SET with no flag change.
    pub open spec fn spec_cb_apply(
        self,
        cb: u8,
        register: RegisterType,
        register_value: u8,
        carry_flag: u8,
    ) -> CpuV {
        let bit_operation = (cb >> 6) & 0b11;
        let bit_test_mask = 1u8 << ((cb >> 3) & 0b111);
        if bit_operation == 0 {
            let operation = (cb & 0x3F) >> 3;
            let value = spec_cb_rot_value(operation, register_value, carry_flag);
            let carry = spec_cb_rot_carry(operation, register_value, carry_flag);
            let s3 = self.spec_cb_writeback(register, value);
            CpuV {
                regs: s3.regs.spec_set_flags(
                    Option::Some(value == 0),
                    Option::Some(false),
                    Option::Some(false),
                    Option::Some(carry),
                ),
                ..s3
            }
        } else if bit_operation == 1 {
            CpuV {
                regs: self.regs.spec_set_flags(
                    Option::Some(register_value & bit_test_mask != bit_test_mask),
                    Option::Some(false),
                    Option::Some(true),
                    Option::None,
                ),
                ..self
            }
        } else if bit_operation == 2 {
            let value = register_value & !bit_test_mask;
            let s3 = self.spec_cb_writeback(register, value);
            CpuV {
                regs: s3.regs.spec_set_flags(
                    Option::None,
                    Option::None,
                    Option::None,
                    Option::None,
                ),
                ..s3
            }
        } else {
            let value = register_value | bit_test_mask;
            let s3 = self.spec_cb_writeback(register, value);
            CpuV {
                regs: s3.regs.spec_set_flags(
                    Option::None,
                    Option::None,
                    Option::None,
                    Option::None,
                ),
                ..s3
            }
        }
    }

    /// RRA: rotate A right through carry; Z=N=H=0, C from A's old bit 0.
    pub open spec fn spec_process_rra(self) -> CpuV {
        let carry_flag: u8 = if self.regs.f.c {
            1
        } else {
            0
        };
        let a = self.regs.a;
        let result = (a >> 1) | (carry_flag << 7);
        let regs1 = self.regs.spec_set_flags(
            Option::Some(false),
            Option::Some(false),
            Option::Some(false),
            Option::Some(a & 1 == 1),
        );
        CpuV { regs: CpuRegisters { a: result, ..regs1 }, ..self }
    }

    /// RLA: rotate A left through carry; Z=N=H=0, C from A's old bit 7.
    pub open spec fn spec_process_rla(self) -> CpuV {
        let carry_flag: u8 = if self.regs.f.c {
            1
        } else {
            0
        };
        let a = self.regs.a;
        let result = (a << 1) | carry_flag;
        let regs1 = self.regs.spec_set_flags(
            Option::Some(false),
            Option::Some(false),
            Option::Some(false),
            Option::Some(a & 0x80 == 0x80),
        );
        CpuV { regs: CpuRegisters { a: result, ..regs1 }, ..self }
    }

    /// RLCA: rotate A left; Z=N=H=0, C from A's old bit 7.
    pub open spec fn spec_process_rlca(self) -> CpuV {
        let a = self.regs.a;
        let carry = (a >> 7) & 1;
        let result = (a << 1) | carry;
        let regs1 = self.regs.spec_set_flags(
            Option::Some(false),
            Option::Some(false),
            Option::Some(false),
            Option::Some(carry == 1),
        );
        CpuV { regs: CpuRegisters { a: result, ..regs1 }, ..self }
    }

    /// RRCA: rotate A right; Z=N=H=0, C from A's old bit 0.
    pub open spec fn spec_process_rrca(self) -> CpuV {
        let a = self.regs.a;
        let carry = a & 1;
        let result = (a >> 1) | (carry << 7);
        let regs1 = self.regs.spec_set_flags(
            Option::Some(false),
            Option::Some(false),
            Option::Some(false),
            Option::Some(carry == 1),
        );
        CpuV { regs: CpuRegisters { a: result, ..regs1 }, ..self }
    }

    /// CPL: complement A; N=H=1.
    pub open spec fn spec_process_cpl(self) -> CpuV {
        let regs1 = CpuRegisters { a: self.regs.a ^ 0xFF, ..self.regs };
        CpuV {
            regs: regs1.spec_set_flags(
                Option::None,
                Option::Some(true),
                Option::Some(true),
                Option::None,
            ),
            ..self
        }
    }

    /// SCF: set carry; N=H=0.
    pub open spec fn spec_process_scf(self) -> CpuV {
        CpuV {
            regs: self.regs.spec_set_flags(
                Option::None,
                Option::Some(false),
                Option::Some(false),
                Option::Some(true),
            ),
            ..self
        }
    }

    /// CCF: complement carry; N=H=0.
    pub open spec fn spec_process_ccf(self) -> CpuV {
        CpuV {
            regs: self.regs.spec_set_flags(
                Option::None,
                Option::Some(false),
                Option::Some(false),
                Option::Some(!self.regs.f.c),
            ),
            ..self
        }
    }

    /// DAA: decimal-adjust A after an addition or subtraction, per the BCD
    /// rules; Z from the result, H cleared, C set when the high adjustment
    /// applied, N preserved.
    pub open spec fn spec_process_daa(self) -> CpuV {
        let a = self.regs.a;
        let n_flag = self.regs.f.n;
        let low_adjust: u8 = if self.regs.f.h || (!n_flag && (a & 0x0F) > 9) {
            6
        } else {
            0
        };
        let high = self.regs.f.c || (!n_flag && a > 0x99);
        let adjust: u8 = if high {
            low_adjust | 0x60
        } else {
            low_adjust
        };
        let a2 = if n_flag {
            vstd::wrapping::u8_specs::wrapping_sub(a, adjust)
        } else {
            vstd::wrapping::u8_specs::wrapping_add(a, adjust)
        };
        let regs1 = CpuRegisters { a: a2, ..self.regs };
        CpuV {
            regs: regs1.spec_set_flags(
                Option::Some(a2 == 0),
                Option::None,
                Option::Some(false),
                Option::Some(high),
            ),
            ..self
        }
    }
}

} // verus!

verus! {

impl CpuV {
    /// What execution demands of the fetched operands, per instruction
    /// class; decode never produces anything outside this.
    pub open spec fn spec_execute_ok(self) -> bool {
        let f = self.fetched;
        match self.instr.instruction_type {
            InstructionType::NOP | InstructionType::DI | InstructionType::EI
                | InstructionType::HALT | InstructionType::RET | InstructionType::RETI
                | InstructionType::SCF | InstructionType::CCF | InstructionType::CPL
                | InstructionType::DAA | InstructionType::RRA | InstructionType::RLA
                | InstructionType::RLCA | InstructionType::RRCA => true,
            InstructionType::LD | InstructionType::LDH => match f.destination {
                DestinationEnum::Register(rt) => CpuRegisters::spec_set_register_ok(rt, f.source),
                DestinationEnum::Address(_) => f.source is Data8 || f.source is Data16,
                DestinationEnum::NoDestination => false,
            },
            InstructionType::ADD => match f.destination {
                DestinationEnum::Register(rt) => match f.source {
                    ValueEnum::SignedData8(_) => rt == RegisterType::SP,
                    ValueEnum::Data8(_) => !rt.spec_is_16bit(),
                    ValueEnum::Data16(_) => rt.spec_is_16bit(),
                    ValueEnum::NoData => false,
                },
                _ => false,
            },
            InstructionType::ADC | InstructionType::SBC => f.destination
                == DestinationEnum::Register(RegisterType::A) && f.source is Data8,
            InstructionType::SUB | InstructionType::AND | InstructionType::OR
                | InstructionType::XOR | InstructionType::CP => f.source is Data8,
            InstructionType::INC => match f.destination {
                DestinationEnum::Register(rt) => (self.opcode & 0x3F == self.opcode
                    && self.opcode & 0x4 == 0x4) ==> !rt.spec_is_16bit(),
                DestinationEnum::Address(_) => true,
                DestinationEnum::NoDestination => false,
            },
            InstructionType::DEC => match f.destination {
                DestinationEnum::Register(rt) => (self.opcode & 0x3F == self.opcode
                    && self.opcode & 0x6 == 0x4) ==> !rt.spec_is_16bit(),
                DestinationEnum::Address(_) => true,
                DestinationEnum::NoDestination => false,
            },
            InstructionType::PUSH => f.source is Data16,
            InstructionType::POP => match f.destination {
                DestinationEnum::Register(rt) => rt.spec_is_16bit(),
                _ => false,
            },
            InstructionType::JP => f.source is Data16,
            InstructionType::JR => f.source is SignedData8,
            InstructionType::CALL => f.source is Data16,
            InstructionType::RST => self.instr.parameter is Some,
            InstructionType::CB => f.source is Data8,
            _ => false,
        }
    }
}

impl CpuContext {
    pub fn process_nop(&mut self)
        ensures
            *final(self) == *old(self),
    {
    }

    #[verifier::spinoff_prover]
    #[verifier::rlimit(100)]
    pub fn process_ld(&mut self)
        requires
            old(self)@.wf(),
            old(self)@.spec_execute_ok(),
            old(self)@.instr.instruction_type == InstructionType::LD,
        ensures
            final(self)@ == old(self)@.spec_process_ld(),
            final(self)@.wf(),
    {
        match self.fetched_data.destination {
            DestinationEnum::Register(register_type) => {
                self.set_register(register_type, self.fetched_data.source);
            },
            DestinationEnum::Address(address) => {
                self.bus_write(address, self.fetched_data.source);
            },
            DestinationEnum::NoDestination => proof { assert(false) },
        }
    }

    #[verifier::spinoff_prover]
    #[verifier::rlimit(100)]
    pub fn process_ldh(&mut self)
        requires
            old(self)@.wf(),
            old(self)@.spec_execute_ok(),
            old(self)@.instr.instruction_type == InstructionType::LDH,
        ensures
            final(self)@ == old(self)@.spec_process_ldh(),
            final(self)@.wf(),
    {
        match self.fetched_data.destination {
            DestinationEnum::Register(register_type) => {
                self.set_register(register_type, self.fetched_data.source);
            },
            DestinationEnum::Address(address) => {
                self.bus_write(address, self.fetched_data.source);
            },
            DestinationEnum::NoDestination => proof { assert(false) },
        }
    }

    #[verifier::spinoff_prover]
    #[verifier::rlimit(100)]
    pub fn process_add(&mut self)
        requires
            old(self)@.wf(),
            old(self)@.spec_execute_ok(),
            old(self)@.instr.instruction_type == InstructionType::ADD,
        ensures
            final(self)@ == old(self)@.spec_process_add(),
            final(self)@.wf(),
    {
        let destination = self.fetched_data.destination;
        let source = self.fetched_data.source;
        match destination {
            DestinationEnum::Register(register_type) => match source {
                ValueEnum::SignedData8(r8) => {
                    let sp_value = self.cpu_registers.sp;
                    let h = crate::util::check_half_carry_relative(sp_value, r8);
                    let c = crate::util::check_carry_relative(sp_value, r8);
                    self.cpu_registers.sp = crate::util::add_relative(sp_value, r8);
                    self.emu_cycles(1);
                    self.cpu_registers.set_flags(
                        Option::Some(false),
                        Option::Some(false),
                        Option::Some(h),
                        Option::Some(c),
                    );
                },
                ValueEnum::Data8(d8) => {
                    let register_value = match self.get_register(register_type) {
                        ValueEnum::Data8(v) => v,
                        _ => 0,
                    };
                    let sum16: u16 = register_value as u16 + d8 as u16;
                    let c = sum16 > 0xFF;
                    let sum: u8 = (sum16 % 256) as u8;
                    let z = sum == 0;
                    let h = (register_value & 0x0F) as u16 + (d8 & 0x0F) as u16 > 0x0F;
                    self.set_register(register_type, ValueEnum::Data8(sum));
                    self.cpu_registers.set_flags(
                        Option::Some(z),
                        Option::Some(false),
                        Option::Some(h),
                        Option::Some(c),
                    );
                },
                ValueEnum::Data16(d16) => {
                    let register_value = match self.get_register(register_type) {
                        ValueEnum::Data16(v) => v,
                        _ => 0,
                    };
                    let sum32: u32 = register_value as u32 + d16 as u32;
                    let h = (register_value & 0x0FFF) as u32 + (d16 & 0x0FFF) as u32 > 0x0FFF;
                    let c = sum32 > 0xFFFF;
                    let sum: u16 = (sum32 % 0x10000) as u16;
                    self.set_register(register_type, ValueEnum::Data16(sum));
                    self.emu_cycles(1);
                    self.cpu_registers.set_flags(
                        Option::None,
                        Option::Some(false),
                        Option::Some(h),
                        Option::Some(c),
                    );
                },
                ValueEnum::NoData => proof { assert(false) },
            },
            _ => proof { assert(false) },
        }
    }

    pub fn process_adc(&mut self)
        requires
            old(self)@.wf(),
            old(self)@.spec_execute_ok(),
            old(self)@.instr.instruction_type == InstructionType::ADC,
        ensures
            final(self)@ == old(self)@.spec_process_adc(),
            final(self)@.wf(),
    {
        match self.fetched_data.source {
            ValueEnum::Data8(value) => {
                let carry_flag: u8 = if self.cpu_registers.f.get_flag(Flags::C) {
                    1
                } else {
                    0
                };
                let a = self.cpu_registers.a;
                let sum16: u16 = a as u16 + value as u16 + carry_flag as u16;
                let result: u8 = (sum16 % 256) as u8;
                let c = sum16 > 0xFF;
                let h = (a & 0x0F) as u16 + (value & 0x0F) as u16 + carry_flag as u16 > 0x0F;
                self.cpu_registers.set_flags(
                    Option::Some(result == 0),
                    Option::Some(false),
                    Option::Some(h),
                    Option::Some(c),
                );
                self.cpu_registers.a = result;
            },
            _ => proof { assert(false) },
        }
    }

    pub fn process_sub(&mut self)
        requires
            old(self)@.wf(),
            old(self)@.spec_execute_ok(),
            old(self)@.instr.instruction_type == InstructionType::SUB,
        ensures
            final(self)@ == old(self)@.spec_process_sub(),
            final(self)@.wf(),
    {
        match self.fetched_data.source {
            ValueEnum::Data8(value) => {
                let a = self.cpu_registers.a;
                let diff = a.wrapping_sub(value);
                self.cpu_registers.set_flags(
                    Option::Some(diff == 0),
                    Option::Some(true),
                    Option::Some(a & 0x0F < value & 0x0F),
                    Option::Some(a < value),
                );
                self.cpu_registers.a = diff;
            },
            _ => proof { assert(false) },
        }
    }

    pub fn process_sbc(&mut self)
        requires
            old(self)@.wf(),
            old(self)@.spec_execute_ok(),
            old(self)@.instr.instruction_type == InstructionType::SBC,
        ensures
            final(self)@ == old(self)@.spec_process_sbc(),
            final(self)@.wf(),
    {
        match self.fetched_data.source {
            ValueEnum::Data8(value) => {
                let carry: u8 = if self.cpu_registers.f.get_flag(Flags::C) {
                    1
                } else {
                    0
                };
                let a = self.cpu_registers.a;
                let result = a.wrapping_sub(value).wrapping_sub(carry);
                let h = ((a & 0x0F) as u16) < (value & 0x0F) as u16 + carry as u16;
                let c = (a as u16) < value as u16 + carry as u16;
                self.cpu_registers.set_flags(
                    Option::Some(result == 0),
                    Option::Some(true),
                    Option::Some(h),
                    Option::Some(c),
                );
                self.cpu_registers.a = result;
            },
            _ => proof { assert(false) },
        }
    }

    pub fn process_and(&mut self)
        requires
            old(self)@.wf(),
            old(self)@.spec_execute_ok(),
            old(self)@.instr.instruction_type == InstructionType::AND,
        ensures
            final(self)@ == old(self)@.spec_process_and(),
            final(self)@.wf(),
    {
        match self.fetched_data.source {
            ValueEnum::Data8(value) => {
                self.cpu_registers.a = self.cpu_registers.a & value;
                self.cpu_registers.set_flags(
                    Option::Some(self.cpu_registers.a == 0),
                    Option::Some(false),
                    Option::Some(true),
                    Option::Some(false),
                );
            },
            _ => proof { assert(false) },
        }
    }

    pub fn process_or(&mut self)
        requires
            old(self)@.wf(),
            old(self)@.spec_execute_ok(),
            old(self)@.instr.instruction_type == InstructionType::OR,
        ensures
            final(self)@ == old(self)@.spec_process_or(),
            final(self)@.wf(),
    {
        match self.fetched_data.source {
            ValueEnum::Data8(value) => {
                self.cpu_registers.a = self.cpu_registers.a | value;
                self.cpu_registers.set_flags(
                    Option::Some(self.cpu_registers.a == 0),
                    Option::Some(false),
                    Option::Some(false),
                    Option::Some(false),
                );
            },
            _ => proof { assert(false) },
        }
    }

    pub fn process_xor(&mut self)
        requires
            old(self)@.wf(),
            old(self)@.spec_execute_ok(),
            old(self)@.instr.instruction_type == InstructionType::XOR,
        ensures
            final(self)@ == old(self)@.spec_process_xor(),
            final(self)@.wf(),
    {
        match self.fetched_data.source {
            ValueEnum::Data8(value) => {
                self.cpu_registers.a = self.cpu_registers.a ^ value;
                self.cpu_registers.set_flags(
                    Option::Some(self.cpu_registers.a == 0),
                    Option::Some(false),
                    Option::Some(false),
                    Option::Some(false),
                );
            },
            _ => proof { assert(false) },
        }
    }

    pub fn process_cp(&mut self)
        requires
            old(self)@.wf(),
            old(self)@.spec_execute_ok(),
            old(self)@.instr.instruction_type == InstructionType::CP,
        ensures
            final(self)@ == old(self)@.spec_process_cp(),
            final(self)@.wf(),
    {
        match self.fetched_data.source {
            ValueEnum::Data8(value) => {
                let a = self.cpu_registers.a;
                self.cpu_registers.set_flags(
                    Option::Some(a == value),
                    Option::Some(true),
                    Option::Some((a & 0x0F) < (value & 0x0F)),
                    Option::Some(a < value),
                );
            },
            _ => proof { assert(false) },
        }
    }

    #[verifier::spinoff_prover]
    #[verifier::rlimit(100)]
    pub fn process_inc(&mut self)
        requires
            old(self)@.wf(),
            old(self)@.spec_execute_ok(),
            old(self)@.instr.instruction_type == InstructionType::INC,
        ensures
            final(self)@ == old(self)@.spec_process_inc(),
            final(self)@.wf(),
    {
        let gate = self.current_opcode & 0x3F == self.current_opcode && self.current_opcode & 0x4
            == 0x4;
        match self.fetched_data.destination {
            DestinationEnum::Register(register) => {
                match self.get_register(register) {
                    ValueEnum::Data8(value) => {
                        let new_value = value.wrapping_add(1);
                        self.set_register(register, ValueEnum::Data8(new_value));
                        if gate {
                            let h = (value & 0x0F) as u16 + 1 > 0x0F;
                            self.cpu_registers.set_flags(
                                Option::Some(new_value == 0),
                                Option::Some(false),
                                Option::Some(h),
                                Option::None,
                            );
                        }
                    },
                    ValueEnum::Data16(value) => {
                        self.emu_cycles(1);
                        self.set_register(
                            register,
                            ValueEnum::Data16(value.wrapping_add(1)),
                        );
                    },
                    _ => proof { assert(false) },
                }
            },
            DestinationEnum::Address(address) => {
                let value = self.bus_read(address);
                let new_value = value.wrapping_add(1);
                self.bus_write(address, ValueEnum::Data8(new_value));
                if gate {
                    let h = (value & 0x0F) as u16 + 1 > 0x0F;
                    self.cpu_registers.set_flags(
                        Option::Some(new_value == 0),
                        Option::Some(false),
                        Option::Some(h),
                        Option::None,
                    );
                }
            },
            DestinationEnum::NoDestination => proof { assert(false) },
        }
    }

    #[verifier::spinoff_prover]
    #[verifier::rlimit(100)]
    pub fn process_dec(&mut self)
        requires
            old(self)@.wf(),
            old(self)@.spec_execute_ok(),
            old(self)@.instr.instruction_type == InstructionType::DEC,
        ensures
            final(self)@ == old(self)@.spec_process_dec(),
            final(self)@.wf(),
    {
        let gate = self.current_opcode & 0x3F == self.current_opcode && self.current_opcode & 0x6
            == 0x4;
        match self.fetched_data.destination {
            DestinationEnum::Register(register) => {
                match self.get_register(register) {
                    ValueEnum::Data8(value) => {
                        let new_value = value.wrapping_sub(1);
                        self.set_register(register, ValueEnum::Data8(new_value));
                        if gate {
                            let h = (value & 0x0F) < 1;
                            self.cpu_registers.set_flags(
                                Option::Some(new_value == 0),
                                Option::Some(true),
                                Option::Some(h),
                                Option::None,
                            );
                        }
                    },
                    ValueEnum::Data16(value) => {
                        self.emu_cycles(1);
                        self.set_register(
                            register,
                            ValueEnum::Data16(value.wrapping_sub(1)),
                        );
                    },
                    _ => proof { assert(false) },
                }
            },
            DestinationEnum::Address(address) => {
                let value = self.bus_read(address);
                let new_value = value.wrapping_sub(1);
                self.bus_write(address, ValueEnum::Data8(new_value));
                if gate {
                    let h = (value & 0x0F) < 1;
                    self.cpu_registers.set_flags(
                        Option::Some(new_value == 0),
                        Option::Some(true),
                        Option::Some(h),
                        Option::None,
                    );
                }
            },
            DestinationEnum::NoDestination => proof { assert(false) },
        }
    }

    fn goto_address(&mut self, address: u16, push_pc: bool)
        requires
            old(self)@.wf(),
        ensures
            final(self)@ == old(self)@.spec_goto_address(address, push_pc),
            final(self)@.wf(),
    {
        if self.check_condition() {
            if push_pc {
                self.stack_push16(self.cpu_registers.pc);
            }
            self.cpu_registers.pc = address;
            self.emu_cycles(1);
        }
    }

    pub fn process_jp(&mut self)
        requires
            old(self)@.wf(),
            old(self)@.spec_execute_ok(),
            old(self)@.instr.instruction_type == InstructionType::JP,
        ensures
            final(self)@ == old(self)@.spec_process_jp(),
            final(self)@.wf(),
    {
        match self.fetched_data.source {
            ValueEnum::Data16(address) => self.goto_address(address, false),
            _ => proof { assert(false) },
        }
    }

    pub fn process_jr(&mut self)
        requires
            old(self)@.wf(),
            old(self)@.spec_execute_ok(),
            old(self)@.instr.instruction_type == InstructionType::JR,
        ensures
            final(self)@ == old(self)@.spec_process_jr(),
            final(self)@.wf(),
    {
        match self.fetched_data.source {
            ValueEnum::SignedData8(relative) => {
                let address = crate::util::add_relative(self.cpu_registers.pc, relative);
                self.goto_address(address, false);
            },
            _ => proof { assert(false) },
        }
    }

    pub fn process_call(&mut self)
        requires
            old(self)@.wf(),
            old(self)@.spec_execute_ok(),
            old(self)@.instr.instruction_type == InstructionType::CALL,
        ensures
            final(self)@ == old(self)@.spec_process_call(),
            final(self)@.wf(),
    {
        match self.fetched_data.source {
            ValueEnum::Data16(address) => self.goto_address(address, true),
            _ => proof { assert(false) },
        }
    }

    pub fn process_rst(&mut self)
        requires
            old(self)@.wf(),
            old(self)@.spec_execute_ok(),
            old(self)@.instr.instruction_type == InstructionType::RST,
        ensures
            final(self)@ == old(self)@.spec_process_rst(),
            final(self)@.wf(),
    {
        match self.current_instruction.parameter {
            Option::Some(parameter) => self.goto_address(parameter as u16, true),
            Option::None => proof { assert(false) },
        }
    }

    #[verifier::spinoff_prover]
    #[verifier::rlimit(100)]
    pub fn process_ret(&mut self)
        requires
            old(self)@.wf(),
        ensures
            final(self)@ == old(self)@.spec_process_ret(),
            final(self)@.wf(),
    {
        let mut should_ret = true;
        if !matches!(self.current_instruction.condition, ConditionType::Unconditional) {
            should_ret = self.check_condition();
            self.emu_cycles(1);
        }
        if should_ret {
            let address = self.stack_pop16();
            self.goto_address(address, false);
        }
    }

    pub fn process_reti(&mut self)
        requires
            old(self)@.wf(),
        ensures
            final(self)@ == old(self)@.spec_process_reti(),
            final(self)@.wf(),
    {
        self.interrupt_master_enabled = true;
        self.process_ret();
    }

    pub fn process_push(&mut self)
        requires
            old(self)@.wf(),
            old(self)@.spec_execute_ok(),
            old(self)@.instr.instruction_type == InstructionType::PUSH,
        ensures
            final(self)@ == old(self)@.spec_process_push(),
            final(self)@.wf(),
    {
        match self.fetched_data.source {
            ValueEnum::Data16(data) => {
                self.stack_push16(data);
                self.emu_cycles(1);
            },
            _ => proof { assert(false) },
        }
    }

    pub fn process_pop(&mut self)
        requires
            old(self)@.wf(),
            old(self)@.spec_execute_ok(),
            old(self)@.instr.instruction_type == InstructionType::POP,
        ensures
            final(self)@ == old(self)@.spec_process_pop(),
            final(self)@.wf(),
    {
        match self.fetched_data.destination {
            DestinationEnum::Register(register) => {
                let value = self.stack_pop16();
                self.set_register(register, ValueEnum::Data16(value));
            },
            _ => proof { assert(false) },
        }
    }

    #[verifier::spinoff_prover]
    #[verifier::rlimit(100)]
    pub fn process_cb(&mut self)
        requires
            old(self)@.wf(),
            old(self)@.spec_execute_ok(),
            old(self)@.instr.instruction_type == InstructionType::CB,
        ensures
            final(self)@ == old(self)@.spec_process_cb(),
            final(self)@.wf(),
    {
        match self.fetched_data.source {
            ValueEnum::Data8(cb) => {
                let register = cb_register_lookup(cb);
                let is_hl = matches!(register, RegisterType::HL);
                let register_value: u8;
                if is_hl {
                    let address = match self.get_register(register) {
                        ValueEnum::Data16(a) => a,
                        _ => 0,
                    };
                    self.emu_cycles(1);
                    register_value = self.bus_read(address);
                } else {
                    register_value = match self.get_register(register) {
                        ValueEnum::Data8(v) => v,
                        _ => 0,
                    };
                }
                let carry_flag: u8 = if self.cpu_registers.f.get_flag(Flags::C) {
                    1
                } else {
                    0
                };
                self.emu_cycles(1);
                self.cb_apply(cb, register, register_value, carry_flag);
            },
            _ => proof { assert(false) },
        }
    }

    #[verifier::spinoff_prover]
    #[verifier::rlimit(100)]
    fn cb_apply(&mut self, cb: u8, register: RegisterType, register_value: u8, carry_flag: u8)
        requires
            old(self)@.wf(),
            register == RegisterType::HL || !register.spec_is_16bit(),
        ensures
            final(self)@ == old(self)@.spec_cb_apply(cb, register, register_value, carry_flag),
            final(self)@.wf(),
    {
        let bit_operation = (cb >> 6) & 0b11;
        proof {
            assert((cb >> 3) & 0b111 < 8) by (bit_vector);
        }
        let bit_test_mask: u8 = 1u8 << ((cb >> 3) & 0b111);
        if bit_operation == 0 {
            let operation = (cb & 0x3F) >> 3;
            let (value, carry) = cb_rot(operation, register_value, carry_flag);
            self.cb_writeback(register, value);
            self.cpu_registers.set_flags(
                Option::Some(value == 0),
                Option::Some(false),
                Option::Some(false),
                Option::Some(carry),
            );
        } else if bit_operation == 1 {
            self.cpu_registers.set_flags(
                Option::Some(register_value & bit_test_mask != bit_test_mask),
                Option::Some(false),
                Option::Some(true),
                Option::None,
            );
        } else if bit_operation == 2 {
            let value = register_value & !bit_test_mask;
            self.cb_writeback(register, value);
            self.cpu_registers.set_flags(
                Option::None,
                Option::None,
                Option::None,
                Option::None,
            );
        } else {
            let value = register_value | bit_test_mask;
            self.cb_writeback(register, value);
            self.cpu_registers.set_flags(
                Option::None,
                Option::None,
                Option::None,
                Option::None,
            );
        }
    }

    fn cb_writeback(&mut self, register: RegisterType, value: u8)
        requires
            old(self)@.wf(),
            register == RegisterType::HL || !register.spec_is_16bit(),
        ensures
            final(self)@ == old(self)@.spec_cb_writeback(register, value),
            final(self)@.wf(),
    {
        if matches!(register, RegisterType::HL) {
            let address = match self.get_register(register) {
                ValueEnum::Data16(a) => a,
                _ => 0,
            };
            self.bus_write(address, ValueEnum::Data8(value));
        } else {
            self.set_register(register, ValueEnum::Data8(value));
        }
    }

    pub fn process_rra(&mut self)
        ensures
            final(self)@ == old(self)@.spec_process_rra(),
    {
        let carry_flag: u8 = if self.cpu_registers.f.get_flag(Flags::C) {
            1
        } else {
            0
        };
        let a = self.cpu_registers.a;
        let result = (a >> 1) | (carry_flag << 7);
        self.cpu_registers.set_flags(
            Option::Some(false),
            Option::Some(false),
            Option::Some(false),
            Option::Some(a & 1 == 1),
        );
        self.cpu_registers.a = result;
    }

    pub fn process_rla(&mut self)
        ensures
            final(self)@ == old(self)@.spec_process_rla(),
    {
        let carry_flag: u8 = if self.cpu_registers.f.get_flag(Flags::C) {
            1
        } else {
            0
        };
        let a = self.cpu_registers.a;
        let result = (a << 1) | carry_flag;
        self.cpu_registers.set_flags(
            Option::Some(false),
            Option::Some(false),
            Option::Some(false),
            Option::Some(a & 0x80 == 0x80),
        );
        self.cpu_registers.a = result;
    }

    pub fn process_rlca(&mut self)
        ensures
            final(self)@ == old(self)@.spec_process_rlca(),
    {
        let a = self.cpu_registers.a;
        let carry = (a >> 7) & 1;
        self.cpu_registers.a = (a << 1) | carry;
        self.cpu_registers.set_flags(
            Option::Some(false),
            Option::Some(false),
            Option::Some(false),
            Option::Some(carry == 1),
        );
    }

    pub fn process_rrca(&mut self)
        ensures
            final(self)@ == old(self)@.spec_process_rrca(),
    {
        let a = self.cpu_registers.a;
        let carry = a & 1;
        self.cpu_registers.a = (a >> 1) | (carry << 7);
        self.cpu_registers.set_flags(
            Option::Some(false),
            Option::Some(false),
            Option::Some(false),
            Option::Some(carry == 1),
        );
    }

    pub fn process_cpl(&mut self)
        ensures
            final(self)@ == old(self)@.spec_process_cpl(),
    {
        self.cpu_registers.a = self.cpu_registers.a ^ 0xFF;
        self.cpu_registers.set_flags(
            Option::None,
            Option::Some(true),
            Option::Some(true),
            Option::None,
        );
    }

    pub fn process_scf(&mut self)
        ensures
            final(self)@ == old(self)@.spec_process_scf(),
    {
        self.cpu_registers.set_flags(
            Option::None,
            Option::Some(false),
            Option::Some(false),
            Option::Some(true),
        );
    }

    pub fn process_ccf(&mut self)
        ensures
            final(self)@ == old(self)@.spec_process_ccf(),
    {
        let c = self.cpu_registers.f.get_flag(Flags::C);
        self.cpu_registers.set_flags(
            Option::None,
            Option::Some(false),
            Option::Some(false),
            Option::Some(!c),
        );
    }

    pub fn process_daa(&mut self)
        ensures
            final(self)@ == old(self)@.spec_process_daa(),
    {
        let half_carry_flag = self.cpu_registers.f.get_flag(Flags::H);
        let carry_flag = self.cpu_registers.f.get_flag(Flags::C);
        let n_flag = self.cpu_registers.f.get_flag(Flags::N);
        let a = self.cpu_registers.a;

        let mut result: u8 = 0;
        let mut new_carry = false;
        if half_carry_flag || (!n_flag && (a & 0x0F) > 9) {
            result = 6;
        }
        if carry_flag || (!n_flag && a > 0x99) {
            result = result | 0x60;
            new_carry = true;
        }

        self.cpu_registers.a = if n_flag {
            a.wrapping_sub(result)
        } else {
            a.wrapping_add(result)
        };
        self.cpu_registers.set_flags(
            Option::Some(self.cpu_registers.a == 0),
            Option::None,
            Option::Some(false),
            Option::Some(new_carry),
        );
    }
}

} // verus!

verus! {

/// Whether a source operand always fetches as a byte value.
pub open spec fn spec_src_shape8(o: Operand) -> bool {
    match o {
        Operand::Register(rt) => !rt.spec_is_16bit(),
        Operand::Indirect(_) | Operand::IndirectIncrementHL | Operand::IndirectDecrementHL
            | Operand::A8Indirect | Operand::A16Indirect | Operand::D8 => true,
        _ => false,
    }
}

/// Whether a source operand always fetches as a word value.
pub open spec fn spec_src_shape16(o: Operand) -> bool {
    match o {
        Operand::Register(rt) => rt.spec_is_16bit(),
        Operand::A16 | Operand::D16 | Operand::SpPlusR8 => true,
        _ => false,
    }
}

/// An opcode the executor runs: everything the decode table maps to a real
/// operation. The table's NONE holes are fatal unknown opcodes, and STOP is
/// outside this core's scope.
pub open spec fn spec_opcode_supported(op: u8) -> bool {
    let t = spec_instruction(op).instruction_type;
    t != InstructionType::NONE && t != InstructionType::STOP
}

/// Everything a supported decode-table entry guarantees about its operands:
/// the operand kinds fit the instruction class, so that operand fetch and
/// execution never meet a shape they cannot handle.
pub open spec fn spec_entry_ok(op: u8) -> bool {
    let ins = spec_instruction(op);
    let t = ins.instruction_type;
    match t {
        InstructionType::NOP | InstructionType::HALT | InstructionType::DI | InstructionType::EI
            | InstructionType::RET | InstructionType::RETI | InstructionType::SCF
            | InstructionType::CCF | InstructionType::CPL | InstructionType::DAA
            | InstructionType::RRA | InstructionType::RLA | InstructionType::RLCA
            | InstructionType::RRCA => true,
        InstructionType::RST => ins.parameter is Some,
        InstructionType::JP | InstructionType::CALL => spec_source_ok(ins.operand_1, t, op)
            && spec_src_shape16(ins.operand_1),
        InstructionType::JR => ins.operand_1 == Operand::R8,
        InstructionType::PUSH => spec_source_ok(ins.operand_1, t, op) && spec_src_shape16(
            ins.operand_1,
        ),
        InstructionType::SUB | InstructionType::AND | InstructionType::OR | InstructionType::XOR
            | InstructionType::CP | InstructionType::CB => spec_source_ok(ins.operand_1, t, op)
            && spec_src_shape8(ins.operand_1),
        InstructionType::INC => spec_dest_ok(ins.operand_1, t) && (match ins.operand_1 {
            Operand::Register(rt) => (op & 0x3F == op && op & 0x4 == 0x4)
                ==> !rt.spec_is_16bit(),
            _ => true,
        }),
        InstructionType::DEC => spec_dest_ok(ins.operand_1, t) && (match ins.operand_1 {
            Operand::Register(rt) => (op & 0x3F == op && op & 0x6 == 0x4)
                ==> !rt.spec_is_16bit(),
            _ => true,
        }),
        InstructionType::POP => match ins.operand_1 {
            Operand::Register(rt) => rt.spec_is_16bit(),
            _ => false,
        },
        InstructionType::LD => spec_source_ok(ins.operand_2, t, op) && spec_dest_ok(
            ins.operand_1,
            t,
        ) && (match ins.operand_1 {
            Operand::Register(rt) => (!rt.spec_is_16bit() && spec_src_shape8(ins.operand_2)) || (
            rt.spec_is_16bit() && spec_src_shape16(ins.operand_2)),
            _ => spec_src_shape8(ins.operand_2) || spec_src_shape16(ins.operand_2),
        }),
        InstructionType::LDH => spec_source_ok(ins.operand_2, t, op) && spec_dest_ok(
            ins.operand_1,
            t,
        ) && spec_src_shape8(ins.operand_2) && (match ins.operand_1 {
            Operand::Register(rt) => rt == RegisterType::A,
            _ => true,
        }),
        InstructionType::ADD => spec_source_ok(ins.operand_2, t, op) && (match ins.operand_1 {
            Operand::Register(rt) => if ins.operand_2 == Operand::R8 {
                rt == RegisterType::SP
            } else if spec_src_shape8(ins.operand_2) {
                !rt.spec_is_16bit()
            } else {
                spec_src_shape16(ins.operand_2) && rt.spec_is_16bit()
            },
            _ => false,
        }),
        InstructionType::ADC | InstructionType::SBC => spec_source_ok(ins.operand_2, t, op)
            && ins.operand_1 == Operand::Register(RegisterType::A) && spec_src_shape8(
            ins.operand_2,
        ),
        _ => false,
    }
}

/// Every supported entry of the decode table is well shaped.
pub proof fn lemma_table_entry_ok(op: u8)
    ensures
        spec_opcode_supported(op) ==> spec_entry_ok(op),
{
    assert((op & 0x3F == op) == (op < 0x40) && (op & 0x4 == 0x4) == ((op / 4) % 2 == 1) && (op
        & 0x6 == 0x4) == ((op / 2) % 4 == 2)) by (bit_vector);
    if op < 0x10 {
        assert(spec_opcode_supported(op) ==> spec_entry_ok(op));
    } else if op < 0x20 {
        assert(spec_opcode_supported(op) ==> spec_entry_ok(op));
    } else if op < 0x30 {
        assert(spec_opcode_supported(op) ==> spec_entry_ok(op));
    } else if op < 0x40 {
        assert(spec_opcode_supported(op) ==> spec_entry_ok(op));
    } else if op < 0x50 {
        assert(spec_opcode_supported(op) ==> spec_entry_ok(op));
    } else if op < 0x60 {
        assert(spec_opcode_supported(op) ==> spec_entry_ok(op));
    } else if op < 0x70 {
        assert(spec_opcode_supported(op) ==> spec_entry_ok(op));
    } else if op < 0x80 {
        assert(spec_opcode_supported(op) ==> spec_entry_ok(op));
    } else if op < 0x90 {
        assert(spec_opcode_supported(op) ==> spec_entry_ok(op));
    } else if op < 0xA0 {
        assert(spec_opcode_supported(op) ==> spec_entry_ok(op));
    } else if op < 0xB0 {
        assert(spec_opcode_supported(op) ==> spec_entry_ok(op));
    } else if op < 0xC0 {
        assert(spec_opcode_supported(op) ==> spec_entry_ok(op));
    } else if op < 0xD0 {
        assert(spec_opcode_supported(op) ==> spec_entry_ok(op));
    } else if op < 0xE0 {
        assert(spec_opcode_supported(op) ==> spec_entry_ok(op));
    } else if op < 0xF0 {
        assert(spec_opcode_supported(op) ==> spec_entry_ok(op));
    } else {
        assert(spec_opcode_supported(op) ==> spec_entry_ok(op));
    }
}

/// An 8-bit register reads as a byte, a pair as a word.
pub proof fn lemma_get_register_shape(regs: CpuRegisters, rt: RegisterType)
    ensures
        !rt.spec_is_16bit() ==> regs.spec_get_register(rt) is Data8,
        rt.spec_is_16bit() ==> regs.spec_get_register(rt) is Data16,
{
}

/// A byte-shaped source operand fetches a byte.
pub proof fn lemma_source_shape8(s: CpuV, o: Operand)
    requires
        spec_src_shape8(o),
    ensures
        s.spec_fetch_source(o).1 is Data8,
{
    if let Operand::Register(rt) = o {
        lemma_get_register_shape(s.regs, rt);
    }
}

/// A word-shaped source operand fetches a word.
pub proof fn lemma_source_shape16(s: CpuV, o: Operand)
    requires
        spec_src_shape16(o),
    ensures
        s.spec_fetch_source(o).1 is Data16,
{
    if let Operand::Register(rt) = o {
        lemma_get_register_shape(s.regs, rt);
    }
}

/// A destination operand yields the named register, or an address for every
/// indirect kind.
pub proof fn lemma_dest_shape(s: CpuV, o: Operand)
    ensures
        (o matches Operand::Register(rt)) ==> s.spec_fetch_destination(o).1
            == DestinationEnum::Register(o->Register_0),
        (o is Indirect || o is IndirectIncrementHL || o is IndirectDecrementHL
            || o is A8Indirect || o is A16Indirect) ==> s.spec_fetch_destination(o).1 is Address,
{
}

impl CpuV {
    /// What operand fetch demands, per instruction class.
    pub open spec fn spec_fetch_ok(self) -> bool {
        let t = self.instr.instruction_type;
        match t {
            InstructionType::NOP | InstructionType::HALT | InstructionType::DI
                | InstructionType::EI | InstructionType::RET | InstructionType::RETI
                | InstructionType::RST | InstructionType::RRA | InstructionType::CPL
                | InstructionType::SCF | InstructionType::CCF | InstructionType::RLCA
                | InstructionType::DAA | InstructionType::RLA | InstructionType::RRCA => true,
            InstructionType::JP | InstructionType::JR | InstructionType::CALL
                | InstructionType::PUSH | InstructionType::OR | InstructionType::XOR
                | InstructionType::AND | InstructionType::CP | InstructionType::SUB
                | InstructionType::CB => spec_source_ok(self.instr.operand_1, t, self.opcode),
            InstructionType::INC | InstructionType::DEC | InstructionType::POP => spec_dest_ok(
                self.instr.operand_1,
                t,
            ),
            InstructionType::LD | InstructionType::LDH | InstructionType::ADD
                | InstructionType::ADC | InstructionType::SBC => spec_source_ok(
                self.instr.operand_2,
                t,
                self.opcode,
            ) && spec_dest_ok(self.instr.operand_1, t),
            _ => false,
        }
    }

    /// The machine after operand fetch, dispatched by instruction class.
    #[verifier::opaque]
    pub open spec fn spec_fetch_data(self) -> CpuV {
        let t = self.instr.instruction_type;
        match t {
            InstructionType::NOP | InstructionType::HALT | InstructionType::DI
                | InstructionType::EI | InstructionType::RET | InstructionType::RETI
                | InstructionType::RST | InstructionType::RRA | InstructionType::CPL
                | InstructionType::SCF | InstructionType::CCF | InstructionType::RLCA
                | InstructionType::DAA | InstructionType::RLA | InstructionType::RRCA => self,
            InstructionType::JP | InstructionType::JR | InstructionType::CALL
                | InstructionType::PUSH | InstructionType::OR | InstructionType::XOR
                | InstructionType::AND | InstructionType::CP | InstructionType::SUB
                | InstructionType::CB => self.spec_fetch_1_operand(),
            InstructionType::INC | InstructionType::DEC | InstructionType::POP => self
                .spec_fetch_1_operand_mut(),
            InstructionType::LD | InstructionType::LDH | InstructionType::ADD
                | InstructionType::ADC | InstructionType::SBC => self.spec_fetch_2_operands(),
            _ => self,
        }
    }

    /// The machine after execution, dispatched on the instruction class. DI
    /// clears IME at once; EI arms it for after the next instruction; HALT
    /// suspends fetch.
    #[verifier::opaque]
    pub open spec fn spec_execute(self) -> CpuV {
        match self.instr.instruction_type {
            InstructionType::NOP => self,
            InstructionType::LD => self.spec_process_ld(),
            InstructionType::LDH => self.spec_process_ldh(),
            InstructionType::ADD => self.spec_process_add(),
            InstructionType::ADC => self.spec_process_adc(),
            InstructionType::SUB => self.spec_process_sub(),
            InstructionType::SBC => self.spec_process_sbc(),
            InstructionType::RST => self.spec_process_rst(),
            InstructionType::JP => self.spec_process_jp(),
            InstructionType::JR => self.spec_process_jr(),
            InstructionType::CALL => self.spec_process_call(),
            InstructionType::RET => self.spec_process_ret(),
            InstructionType::RETI => self.spec_process_reti(),
            InstructionType::INC => self.spec_process_inc(),
            InstructionType::DEC => self.spec_process_dec(),
            InstructionType::PUSH => self.spec_process_push(),
            InstructionType::POP => self.spec_process_pop(),
            InstructionType::OR => self.spec_process_or(),
            InstructionType::XOR => self.spec_process_xor(),
            InstructionType::AND => self.spec_process_and(),
            InstructionType::CP => self.spec_process_cp(),
            InstructionType::CB => self.spec_process_cb(),
            InstructionType::RRA => self.spec_process_rra(),
            InstructionType::RLA => self.spec_process_rla(),
            InstructionType::CPL => self.spec_process_cpl(),
            InstructionType::SCF => self.spec_process_scf(),
            InstructionType::CCF => self.spec_process_ccf(),
            InstructionType::RLCA => self.spec_process_rlca(),
            InstructionType::RRCA => self.spec_process_rrca(),
            InstructionType::DAA => self.spec_process_daa(),
            InstructionType::DI => CpuV { ime: false, ..self },
            InstructionType::EI => CpuV { enabling_ime: true, ..self },
            InstructionType::HALT => CpuV { halted: true, ..self },
            _ => self,
        }
    }

    /// The interrupt dispatch push: SP falls twice (wrapping), PC's bytes
    /// land on the stack high byte first, and PC takes the vector. These
    /// pushes go straight to the bus.
    pub open spec fn spec_interrupt_handle(self, address: u16) -> CpuV {
        let sp1 = vstd::wrapping::u16_specs::wrapping_sub(self.regs.sp, 1);
        let b1 = self.bus.spec_write8(sp1, (self.regs.pc >> 8) as u8);
        let sp2 = vstd::wrapping::u16_specs::wrapping_sub(sp1, 1);
        let b2 = b1.spec_write8(sp2, self.regs.pc as u8);
        CpuV { bus: b2, regs: CpuRegisters { sp: sp2, pc: address, ..self.regs }, ..self }
    }

    /// Interrupt service: with `pending = IF & IE & $1F` nonzero, the
    /// lowest set bit wins, its IF bit clears, IME drops, HALT ends, PC is
    /// pushed and takes the vector, and dispatch costs five machine cycles.
    pub open spec fn spec_handle_interrupts(self) -> CpuV {
        let interrupt_flags = self.bus.spec_read(0xFF0F);
        let pending = interrupt_flags & self.bus.spec_read(0xFFFF) & 0x1F;
        if pending == 0 {
            self
        } else {
            let it = InterruptType::spec_from_pending(pending);
            let s1 = self.spec_interrupt_handle(it.spec_vector());
            let s2 = CpuV {
                bus: s1.bus.spec_write8(0xFF0F, interrupt_flags & !it.spec_mask()),
                ..s1
            };
            let s3 = CpuV { halted: false, ime: false, ..s2 };
            s3.spec_cycles(5)
        }
    }

    /// Whether a step may run: a halted machine always may; otherwise the
    /// opcode the fetch will read must be one the executor supports.
    pub open spec fn spec_step_ok(self) -> bool {
        self.halted || spec_opcode_supported(self.spec_cycles(1).bus.spec_read(self.regs.pc))
    }

    /// The instruction phase of a step: fetch, operand fetch, the serial
    /// capture check and execution; or, halted, one machine cycle with the
    /// IF∧IE wake test.
    pub open spec fn spec_step_instruction(self) -> CpuV {
        if !self.halted {
            let s1 = self.spec_fetch_instruction();
            let s2 = s1.spec_fetch_data();
            let s3 = CpuV { bus: s2.bus.spec_dbg_update(), ..s2 };
            s3.spec_execute()
        } else {
            let s1 = self.spec_cycles(1);
            if s1.bus.spec_read(0xFF0F) & s1.bus.spec_read(0xFFFF) & 0x1F != 0 {
                CpuV { halted: false, ..s1 }
            } else {
                s1
            }
        }
    }

    /// One full step: the instruction phase, then interrupt service when
    /// IME is set, then the delayed EI taking effect.
    pub open spec fn spec_cpu_step(self) -> CpuV {
        let s_mid = self.spec_step_instruction();
        let s4 = if s_mid.ime {
            CpuV { enabling_ime: false, ..s_mid.spec_handle_interrupts() }
        } else {
            s_mid
        };
        if s4.enabling_ime {
            CpuV { ime: true, ..s4 }
        } else {
            s4
        }
    }
}

/// Decode guarantees: a supported entry satisfies what operand fetch
/// demands, and the operands it fetches satisfy what execution demands.
#[verifier::spinoff_prover]
#[verifier::rlimit(100)]
pub proof fn lemma_decode_execute_ok(s: CpuV)
    requires
        s.instr == spec_instruction(s.opcode),
        spec_opcode_supported(s.opcode),
    ensures
        s.spec_fetch_ok(),
        s.spec_fetch_data().spec_execute_ok(),
        s.spec_fetch_data().instr == s.instr,
        s.spec_fetch_data().opcode == s.opcode,
{
    reveal(CpuV::spec_fetch_data);
    lemma_table_entry_ok(s.opcode);
    let ins = s.instr;
    let t = ins.instruction_type;
    lemma_fetch_source_frame(s, ins.operand_1);
    lemma_fetch_source_frame(s, ins.operand_2);
    lemma_fetch_destination_frame(s, ins.operand_1);
    let s_src = s.spec_fetch_source(ins.operand_2).0;
    lemma_fetch_destination_frame(s_src, ins.operand_1);
    match t {
        InstructionType::JP | InstructionType::CALL | InstructionType::PUSH => {
            lemma_source_shape16(s, ins.operand_1);
        },
        InstructionType::SUB | InstructionType::AND | InstructionType::OR
            | InstructionType::XOR | InstructionType::CP | InstructionType::CB => {
            lemma_source_shape8(s, ins.operand_1);
        },
        InstructionType::JR => {},
        InstructionType::INC | InstructionType::DEC | InstructionType::POP => {
            lemma_dest_shape(s, ins.operand_1);
        },
        InstructionType::LD | InstructionType::LDH => {
            if spec_src_shape8(ins.operand_2) {
                lemma_source_shape8(s, ins.operand_2);
            } else if spec_src_shape16(ins.operand_2) {
                lemma_source_shape16(s, ins.operand_2);
            }
            lemma_dest_shape(s_src, ins.operand_1);
        },
        InstructionType::ADD => {
            if ins.operand_2 == Operand::R8 {
            } else if spec_src_shape8(ins.operand_2) {
                lemma_source_shape8(s, ins.operand_2);
            } else {
                lemma_source_shape16(s, ins.operand_2);
            }
            lemma_dest_shape(s_src, ins.operand_1);
        },
        InstructionType::ADC | InstructionType::SBC => {
            lemma_source_shape8(s, ins.operand_2);
            lemma_dest_shape(s_src, ins.operand_1);
        },
        _ => {},
    }
}

impl CpuContext {
    /// Operand fetch, dispatched by the class of the decoded instruction.
    pub fn fetch_data(&mut self)
        requires
            old(self)@.wf(),
            old(self)@.spec_fetch_ok(),
        ensures
            final(self)@ == old(self)@.spec_fetch_data(),
            final(self)@.wf(),
    {
        proof {
            reveal(CpuV::spec_fetch_data);
        }
        match self.current_instruction.instruction_type {
            InstructionType::NOP | InstructionType::HALT | InstructionType::DI
                | InstructionType::EI | InstructionType::RET | InstructionType::RETI
                | InstructionType::RST | InstructionType::RRA | InstructionType::CPL
                | InstructionType::SCF | InstructionType::CCF | InstructionType::RLCA
                | InstructionType::DAA | InstructionType::RLA | InstructionType::RRCA => {},
            InstructionType::JP | InstructionType::JR | InstructionType::CALL
                | InstructionType::PUSH | InstructionType::OR | InstructionType::XOR
                | InstructionType::AND | InstructionType::CP | InstructionType::SUB
                | InstructionType::CB => {
                self.fetch_data_1_operand();
            },
            InstructionType::INC | InstructionType::DEC | InstructionType::POP => {
                self.fetch_data_1_operand_mut();
            },
            InstructionType::LD | InstructionType::LDH | InstructionType::ADD
                | InstructionType::ADC | InstructionType::SBC => {
                self.fetch_data_2_operands();
            },
            _ => proof { assert(false) },
        }
    }

    /// Run the decoded instruction.
    pub fn execute(&mut self)
        requires
            old(self)@.wf(),
            old(self)@.spec_execute_ok(),
        ensures
            final(self)@ == old(self)@.spec_execute(),
            final(self)@.wf(),
    {
        proof {
            reveal(CpuV::spec_execute);
        }
        match self.current_instruction.instruction_type {
            InstructionType::NOP => self.process_nop(),
            InstructionType::LD => self.process_ld(),
            InstructionType::LDH => self.process_ldh(),
            InstructionType::ADD => self.process_add(),
            InstructionType::ADC => self.process_adc(),
            InstructionType::SUB => self.process_sub(),
            InstructionType::SBC => self.process_sbc(),
            InstructionType::RST => self.process_rst(),
            InstructionType::JP => self.process_jp(),
            InstructionType::JR => self.process_jr(),
            InstructionType::CALL => self.process_call(),
            InstructionType::RET => self.process_ret(),
            InstructionType::RETI => self.process_reti(),
            InstructionType::INC => self.process_inc(),
            InstructionType::DEC => self.process_dec(),
            InstructionType::PUSH => self.process_push(),
            InstructionType::POP => self.process_pop(),
            InstructionType::OR => self.process_or(),
            InstructionType::XOR => self.process_xor(),
            InstructionType::AND => self.process_and(),
            InstructionType::CP => self.process_cp(),
            InstructionType::CB => self.process_cb(),
            InstructionType::RRA => self.process_rra(),
            InstructionType::RLA => self.process_rla(),
            InstructionType::CPL => self.process_cpl(),
            InstructionType::SCF => self.process_scf(),
            InstructionType::CCF => self.process_ccf(),
            InstructionType::RLCA => self.process_rlca(),
            InstructionType::RRCA => self.process_rrca(),
            InstructionType::DAA => self.process_daa(),
            InstructionType::DI => {
                self.interrupt_master_enabled = false;
            },
            InstructionType::EI => {
                self.enabling_ime = true;
            },
            InstructionType::HALT => {
                self.halted = true;
            },
            _ => proof { assert(false) },
        }
    }

    fn interrupt_handle(&mut self, address: u16)
        requires
            old(self)@.wf(),
        ensures
            final(self)@ == old(self)@.spec_interrupt_handle(address),
            final(self)@.wf(),
    {
        self.cpu_registers.sp = self.cpu_registers.sp.wrapping_sub(1);
        self.bus.bus_write8(self.cpu_registers.sp, (self.cpu_registers.pc >> 8) as u8);
        self.cpu_registers.sp = self.cpu_registers.sp.wrapping_sub(1);
        self.bus.bus_write8(self.cpu_registers.sp, self.cpu_registers.pc as u8);
        self.cpu_registers.pc = address;
    }

    /// Service the highest-priority pending interrupt, if IME would let it
    /// through; the caller checks IME.
    pub fn cpu_handle_interrupts(&mut self)
        requires
            old(self)@.wf(),
        ensures
            final(self)@ == old(self)@.spec_handle_interrupts(),
            final(self)@.wf(),
    {
        let interrupt_flags = self.get_interrupt_flags_register();
        let interrupt_enable = self.get_interrupt_enable_register();
        let pending = interrupt_flags & interrupt_enable & 0x1F;
        if pending == 0 {
            return ;
        }
        proof {
            assert(pending & 0x1F != 0) by (bit_vector)
                requires
                    pending == interrupt_flags & interrupt_enable & 0x1F,
                    pending != 0,
            ;
        }
        let interrupt_type = InterruptType::from_pending(pending);
        let address: u16 = match interrupt_type {
            InterruptType::VBLANK => 0x40,
            InterruptType::LCDStat => 0x48,
            InterruptType::TIMER => 0x50,
            InterruptType::SERIAL => 0x58,
            InterruptType::JOYPAD => 0x60,
        };
        self.interrupt_handle(address);
        self.set_interrupt_flags_register(interrupt_flags & !interrupt_type.mask());
        self.halted = false;
        self.interrupt_master_enabled = false;
        self.emu_cycles(5);
    }

    /// Whether the byte at PC decodes to a supported opcode, read without
    /// advancing anything. Together with `lemma_peek_stable` this lets a
    /// host check `spec_step_ok` before stepping.
    pub fn peek_opcode_supported(&self) -> (r: bool)
        requires
            self@.wf(),
        ensures
            r == spec_opcode_supported(self@.bus.spec_read(self@.regs.pc)),
    {
        let opcode = self.bus.bus_read(self.cpu_registers.pc);
        let ins = instruction_for_opcode(opcode);
        !matches!(ins.instruction_type, InstructionType::NONE | InstructionType::STOP)
    }

    pub fn is_halted(&self) -> (r: bool)
        ensures
            r == self@.halted,
    {
        self.halted
    }

    #[verifier::spinoff_prover]
    #[verifier::rlimit(100)]
    fn step_instruction(&mut self)
        requires
            old(self)@.wf(),
            old(self)@.spec_step_ok(),
        ensures
            final(self)@ == old(self)@.spec_step_instruction(),
            final(self)@.wf(),
    {
        if !self.halted {
            self.fetch_instruction();
            proof {
                lemma_cycles_frame(old(self)@, 1);
                lemma_decode_execute_ok(self@);
            }
            self.fetch_data();
            self.bus.dbg_update();
            self.execute();
        } else {
            self.emu_cycles(1);
            let interrupt_flags = self.get_interrupt_flags_register();
            let interrupt_enable = self.get_interrupt_enable_register();
            if interrupt_flags & interrupt_enable & 0x1F != 0 {
                self.halted = false;
            }
        }
    }

    /// One full instruction step (or one HALT cycle), then interrupt
    /// service and the delayed-EI update, exactly as `spec_cpu_step` says.
    #[verifier::spinoff_prover]
    pub fn cpu_step(&mut self) -> (r: bool)
        requires
            old(self)@.wf(),
            old(self)@.spec_step_ok(),
        ensures
            final(self)@ == old(self)@.spec_cpu_step(),
            final(self)@.wf(),
            r,
    {
        self.step_instruction();
        if self.interrupt_master_enabled {
            self.cpu_handle_interrupts();
            self.enabling_ime = false;
        }
        if self.enabling_ime {
            self.interrupt_master_enabled = true;
        }
        true
    }
}

/// A machine cycle does not disturb memory outside the I/O block and OAM:
/// for an address below the echo region or inside HRAM, what the bus reads
/// there is the same before and after a cycle. A host may therefore test
/// `peek_opcode_supported` and know the fetch will see the same byte,
/// whenever PC points at ROM, VRAM, WRAM or HRAM.
pub proof fn lemma_peek_stable(s: CpuV, address: u16)
    requires
        address < 0xE000 || (0xFF80 <= address && address <= 0xFFFE),
    ensures
        s.spec_cycles(1).bus.spec_read(address) == s.bus.spec_read(address),
{
    assert(s.spec_cycles(1) == s.spec_cycle().spec_cycles(0));
}

} // verus!

verus! {

/// SP and PC lie in [0, $FFFF] in every machine state: they are 16-bit
/// registers and every update wraps mod 2^16.
pub proof fn lemma_sp_pc_in_range(s: CpuV)
    ensures
        0 <= s.regs.sp <= 0xFFFF,
        0 <= s.regs.pc <= 0xFFFF,
{
}

/// An address the stack laws ask to be plain RAM: WRAM or HRAM below the
/// IE register.
pub open spec fn spec_in_plain_ram(address: u16) -> bool {
    (0xC000 <= address && address < 0xE000) || (0xFF80 <= address && address <= 0xFFFE)
}

/// Machine cycles leave the cartridge, both RAM banks, VRAM and IE alone:
/// they only move the timer, IF, the DMA engine and OAM.
pub proof fn lemma_cycles_preserve_memory(s: CpuV, n: nat)
    ensures
        s.spec_cycles(n).bus.cart == s.bus.cart,
        s.spec_cycles(n).bus.ram == s.bus.ram,
        s.spec_cycles(n).bus.ppu.vram == s.bus.ppu.vram,
        s.spec_cycles(n).bus.ie_register == s.bus.ie_register,
        s.spec_cycles(n).bus.dbg == s.bus.dbg,
    decreases n,
{
    if n > 0 {
        lemma_cycles_preserve_memory(s.spec_cycle(), (n - 1) as nat);
    }
}


/// One machine cycle preserves well-formedness: the timer and IF writes
/// stay inside the I/O block, and the DMA engine only writes OAM entries
/// that exist.
pub proof fn lemma_cycle_wf(s: CpuV)
    requires
        s.wf(),
    ensures
        s.spec_cycle().wf(),
{
    let t4 = s.spec_tcycle().spec_tcycle().spec_tcycle().spec_tcycle();
    assert(t4.wf());
    let b = t4.bus;
    if b.dma.active && b.dma.start_delay == 0 {
        let dest = b.dma.byte as u16;
        assert(dest >> 2 < 40) by (bit_vector)
            requires
                dest < 0xA0,
        ;
    }
}

/// Machine cycles preserve well-formedness.
pub proof fn lemma_cycles_wf(s: CpuV, n: nat)
    requires
        s.wf(),
    ensures
        s.spec_cycles(n).wf(),
    decreases n,
{
    if n > 0 {
        lemma_cycle_wf(s);
        lemma_cycles_wf(s.spec_cycle(), (n - 1) as nat);
    }
}

/// What a read of a plain-RAM address returns after a byte write there:
/// the byte just written; and a write to a different plain-RAM address
/// leaves it alone.
proof fn lemma_ram_write_read(bus: crate::bus::BusV, address: u16, value: u8, other: u16)
    requires
        bus.wf(),
        spec_in_plain_ram(address),
        spec_in_plain_ram(other),
    ensures
        bus.spec_write8(address, value).wf(),
        bus.spec_write8(address, value).spec_read(address) == value,
        other != address ==> bus.spec_write8(address, value).spec_read(other) == bus.spec_read(
            other,
        ),
{
}

/// PUSH then POP through plain RAM yields the pushed word: the two stack
/// bytes land at SP-1 and SP-2, survive the interleaved machine cycles, and
/// come back in order. Together with `lemma_pair_roundtrip` in the register
/// file (which adds the AF mask to $..F0), this is the full PUSH/POP
/// round-trip law.
pub proof fn lemma_stack_roundtrip(s: CpuV, value: u16)
    requires
        s.wf(),
        spec_in_plain_ram(vstd::wrapping::u16_specs::wrapping_sub(s.regs.sp, 1)),
        spec_in_plain_ram(vstd::wrapping::u16_specs::wrapping_sub(s.regs.sp, 2)),
    ensures
        s.spec_stack_push16(value).spec_stack_pop16_value() == value,
        s.spec_stack_push16(value).spec_stack_pop16().regs.sp == s.regs.sp,
{
    let hi = (value >> 8) as u8;
    let lo = value as u8;
    let sp1 = vstd::wrapping::u16_specs::wrapping_sub(s.regs.sp, 1);
    let sp2 = vstd::wrapping::u16_specs::wrapping_sub(sp1, 1);
    assert(sp2 == vstd::wrapping::u16_specs::wrapping_sub(s.regs.sp, 2));
    assert(sp1 != sp2);

    // after PUSH hi
    let a1 = CpuV { regs: CpuRegisters { sp: sp1, ..s.regs }, ..s };
    let b1 = CpuV { bus: a1.bus.spec_write8(sp1, hi), ..a1 };
    let s1 = b1.spec_cycles(1);
    assert(s.spec_stack_push(hi) == s1);
    lemma_ram_write_read(a1.bus, sp1, hi, sp2);
    lemma_cycles_wf(b1, 1);
    lemma_cycles_preserve_memory(b1, 1);
    lemma_cycles_frame(b1, 1);

    // after PUSH lo
    let a2 = CpuV { regs: CpuRegisters { sp: sp2, ..s1.regs }, ..s1 };
    let b2 = CpuV { bus: a2.bus.spec_write8(sp2, lo), ..a2 };
    let s2 = b2.spec_cycles(1);
    assert(s1.spec_stack_push(lo) == s2);
    assert(s.spec_stack_push16(value) == s2);
    lemma_ram_write_read(a2.bus, sp2, lo, sp1);
    lemma_cycles_wf(b2, 1);
    lemma_cycles_preserve_memory(b2, 1);
    lemma_cycles_frame(b2, 1);

    // the two bytes sit in RAM, untouched by the cycles
    assert(s2.bus.spec_read(sp2) == lo);
    assert(s2.bus.spec_read(sp1) == hi);
    assert(s2.regs.sp == sp2);

    // POP lo
    lemma_cycles_preserve_memory(s2, 1);
    lemma_cycles_frame(s2, 1);
    assert(s2.spec_stack_pop_value() == lo);
    let p1 = s2.spec_stack_pop();
    assert(p1.regs.sp == vstd::wrapping::u16_specs::wrapping_add(sp2, 1));
    assert(p1.regs.sp == sp1);
    assert(p1.bus.spec_read(sp1) == hi);

    // POP hi
    lemma_cycles_preserve_memory(p1, 1);
    lemma_cycles_frame(p1, 1);
    assert(p1.spec_stack_pop_value() == hi);
    assert(s2.spec_stack_pop16_value() == crate::util::spec_combine(hi, lo));
    crate::util::lemma_split_combine(value);

    let p2 = p1.spec_stack_pop();
    assert(p2.regs.sp == vstd::wrapping::u16_specs::wrapping_add(sp1, 1));
    assert(p2.regs.sp == s.regs.sp);
}

/// Swapping nibbles twice gives the original byte back, whatever the byte.
pub proof fn lemma_swap_involution(x: u8)
    ensures
        spec_swap(spec_swap(x)) == x,
{
    let y = spec_swap(x);
    assert(((y >> 4) | (y << 4)) == x) by (bit_vector)
        requires
            y == (x >> 4) | (x << 4),
    ;
}

/// RLC then RRC gives the original byte back, so the Z flag of the second
/// rotate matches the original value, and its carry-out is the original's
/// bit 7 (the bit RLC rotated out and RRC rotated back).
pub proof fn lemma_rlc_rrc_roundtrip(x: u8, carry_flag: u8)
    ensures
        spec_rrc(spec_rlc(x)) == x,
        spec_cb_rot_carry(1, spec_rlc(x), carry_flag) == (x & 0x80 == 0x80),
        (spec_rrc(spec_rlc(x)) == 0) == (x == 0),
{
    let y = spec_rlc(x);
    assert(((y >> 1) | (y << 7)) == x && ((((y >> 1) | (y << 7)) & 0x80 == 0x80) == (x & 0x80
        == 0x80))) by (bit_vector)
        requires
            y == (x << 1) | (x >> 7),
    ;
}

} // verus!
