//! The CPU register file: eight 8-bit registers with the flag register F kept
//! as four booleans (its low nibble is zero by construction), the 16-bit SP
//! and PC, the pair views AF/BC/DE/HL and the selective flag update used by
//! every ALU operation.

use vstd::prelude::*;

verus! {

use crate::instruction::RegisterType;
use crate::util::{spec_combine, combine, ValueEnum};

/// The four flag bits of F, named: C is bit 4, H bit 5, N bit 6, Z bit 7.
#[derive(Clone, Copy, Debug, PartialEq, Eq, Structural)]
pub enum Flags {
    C,
    H,
    N,
    Z,
}

/// The F register. Bits 7..4 hold Z, N, H, C; bits 3..0 are always zero,
/// which this representation enforces by holding only the four flag bits.
#[derive(Clone, Copy, Debug, PartialEq, Eq, Structural)]
pub struct FlagsRegister {
    pub z: bool,
    pub n: bool,
    pub h: bool,
    pub c: bool,
}

impl FlagsRegister {
    /// The byte that F reads as: flags packed into bits 7..4, low nibble zero.
    pub open spec fn spec_byte(self) -> u8 {
        ((if self.z { 0x80int } else { 0int }) + (if self.n { 0x40int } else { 0int })
            + (if self.h { 0x20int } else { 0int }) + (if self.c { 0x10int } else { 0int })) as u8
    }

    /// The flags encoded by a byte written to F; bits 3..0 are discarded.
    pub open spec fn spec_from_byte(value: u8) -> FlagsRegister {
        FlagsRegister {
            z: value & 0x80 == 0x80,
            n: value & 0x40 == 0x40,
            h: value & 0x20 == 0x20,
            c: value & 0x10 == 0x10,
        }
    }

    /// Reset value of F on the post-boot DMG: $B0, that is Z, H and C set.
    pub fn new() -> (r: Self)
        ensures
            r == (FlagsRegister { z: true, n: false, h: true, c: true }),
            r.spec_byte() == 0xB0,
    {
        Self { z: true, n: false, h: true, c: true }
    }

    pub open spec fn spec_get_flag(self, flag: Flags) -> bool {
        match flag {
            Flags::Z => self.z,
            Flags::N => self.n,
            Flags::H => self.h,
            Flags::C => self.c,
        }
    }

    pub fn get_flag(&self, flag: Flags) -> (r: bool)
        ensures
            r == self.spec_get_flag(flag),
    {
        match flag {
            Flags::Z => self.z,
            Flags::N => self.n,
            Flags::H => self.h,
            Flags::C => self.c,
        }
    }

    pub open spec fn spec_set_flag(self, flag: Flags, flag_value: bool) -> FlagsRegister {
        match flag {
            Flags::Z => FlagsRegister { z: flag_value, ..self },
            Flags::N => FlagsRegister { n: flag_value, ..self },
            Flags::H => FlagsRegister { h: flag_value, ..self },
            Flags::C => FlagsRegister { c: flag_value, ..self },
        }
    }

    pub fn set_flag(&mut self, flag: Flags, flag_value: bool)
        ensures
            *final(self) == old(self).spec_set_flag(flag, flag_value),
    {
        match flag {
            Flags::Z => self.z = flag_value,
            Flags::N => self.n = flag_value,
            Flags::H => self.h = flag_value,
            Flags::C => self.c = flag_value,
        }
    }

    /// F packed into its byte form.
    pub fn byte(&self) -> (r: u8)
        ensures
            r == self.spec_byte(),
    {
        let z: u8 = if self.z { 0x80 } else { 0 };
        let n: u8 = if self.n { 0x40 } else { 0 };
        let h: u8 = if self.h { 0x20 } else { 0 };
        let c: u8 = if self.c { 0x10 } else { 0 };
        z + n + h + c
    }

    /// F rebuilt from a byte; the low nibble of the byte is ignored.
    pub fn from_byte(value: u8) -> (r: Self)
        ensures
            r == Self::spec_from_byte(value),
    {
        Self {
            z: value & 0x80 == 0x80,
            n: value & 0x40 == 0x40,
            h: value & 0x20 == 0x20,
            c: value & 0x10 == 0x10,
        }
    }
}

/// The low nibble of the byte F reads as is always zero, in every state the
/// flag register can take.
pub proof fn lemma_flags_low_nibble_zero(f: FlagsRegister)
    ensures
        f.spec_byte() & 0x0F == 0,
        f.spec_byte() % 16 == 0,
{
    let b = f.spec_byte();
    assert(b % 16 == 0);
    assert(b % 16 == 0 ==> b & 0x0F == 0) by (bit_vector);
}

/// Packing flags into a byte and reading them back loses nothing; reading a
/// byte into flags and packing again keeps exactly the high nibble.
pub proof fn lemma_flags_byte_roundtrip(f: FlagsRegister, value: u8)
    ensures
        FlagsRegister::spec_from_byte(f.spec_byte()) == f,
        FlagsRegister::spec_from_byte(value).spec_byte() == value & 0xF0,
{
    let z8: u8 = if f.z { 0x80 } else { 0 };
    let n8: u8 = if f.n { 0x40 } else { 0 };
    let h8: u8 = if f.h { 0x20 } else { 0 };
    let c8: u8 = if f.c { 0x10 } else { 0 };
    let b = f.spec_byte();
    assert(b == (z8 + n8 + h8 + c8) as u8);
    assert(((b & 0x80 == 0x80) <==> z8 == 0x80) && ((b & 0x40 == 0x40) <==> n8 == 0x40) && ((b
        & 0x20 == 0x20) <==> h8 == 0x20) && ((b & 0x10 == 0x10) <==> c8 == 0x10)) by (bit_vector)
        requires
            b == (z8 + n8 + h8 + c8) as u8,
            z8 == 0x80 || z8 == 0,
            n8 == 0x40 || n8 == 0,
            h8 == 0x20 || h8 == 0,
            c8 == 0x10 || c8 == 0,
    ;
    assert(FlagsRegister::spec_from_byte(b) =~= f);
    assert(((if value & 0x80 == 0x80 { 0x80int } else { 0int }) + (if value & 0x40 == 0x40 {
        0x40int
    } else {
        0int
    }) + (if value & 0x20 == 0x20 { 0x20int } else { 0int }) + (if value & 0x10 == 0x10 {
        0x10int
    } else {
        0int
    })) as u8 == value & 0xF0) by (bit_vector);
}

/// The full register file.
#[derive(Clone, Copy, Debug, PartialEq, Eq, Structural)]
pub struct CpuRegisters {
    pub a: u8,
    pub f: FlagsRegister,
    pub b: u8,
    pub c: u8,
    pub d: u8,
    pub e: u8,
    pub h: u8,
    pub l: u8,
    pub pc: u16,
    pub sp: u16,
}

/// A selective flag update: `Some(v)` sets the flag to `v`, `None` leaves it.
pub open spec fn spec_apply_flag(current: bool, update: Option<bool>) -> bool {
    match update {
        Option::Some(v) => v,
        Option::None => current,
    }
}

impl CpuRegisters {
    /// Post-boot DMG reset state: A=$01 F=$B0 BC=$0013 DE=$00D8 HL=$014D
    /// SP=$FFFE PC=$0100.
    pub fn new() -> (r: Self)
        ensures
            r == (CpuRegisters {
                a: 0x01,
                f: FlagsRegister { z: true, n: false, h: true, c: true },
                b: 0,
                c: 0x13,
                d: 0,
                e: 0xD8,
                h: 0x01,
                l: 0x4D,
                pc: 0x100,
                sp: 0xFFFE,
            }),
    {
        Self {
            a: 0x01,
            f: FlagsRegister::new(),
            b: 0,
            c: 0x13,
            d: 0,
            e: 0xD8,
            h: 0x01,
            l: 0x4D,
            pc: 0x100,
            sp: 0xFFFE,
        }
    }

    pub open spec fn spec_set_flags(
        self,
        z: Option<bool>,
        n: Option<bool>,
        h: Option<bool>,
        c: Option<bool>,
    ) -> CpuRegisters {
        CpuRegisters {
            f: FlagsRegister {
                z: spec_apply_flag(self.f.z, z),
                n: spec_apply_flag(self.f.n, n),
                h: spec_apply_flag(self.f.h, h),
                c: spec_apply_flag(self.f.c, c),
            },
            ..self
        }
    }

    /// Update each flag for which a value is given; leave the others alone.
    pub fn set_flags(&mut self, z: Option<bool>, n: Option<bool>, h: Option<bool>, c: Option<bool>)
        ensures
            *final(self) == old(self).spec_set_flags(z, n, h, c),
    {
        if let Option::Some(value) = z {
            self.f.set_flag(Flags::Z, value);
        }
        if let Option::Some(value) = n {
            self.f.set_flag(Flags::N, value);
        }
        if let Option::Some(value) = h {
            self.f.set_flag(Flags::H, value);
        }
        if let Option::Some(value) = c {
            self.f.set_flag(Flags::C, value);
        }
    }

    /// What a register reads as: single registers give a byte (F its packed
    /// byte), pairs give `(hi << 8) | lo`, SP and PC their word.
    pub open spec fn spec_get_register(self, register: RegisterType) -> ValueEnum {
        match register {
            RegisterType::A => ValueEnum::Data8(self.a),
            RegisterType::F => ValueEnum::Data8(self.f.spec_byte()),
            RegisterType::B => ValueEnum::Data8(self.b),
            RegisterType::C => ValueEnum::Data8(self.c),
            RegisterType::D => ValueEnum::Data8(self.d),
            RegisterType::E => ValueEnum::Data8(self.e),
            RegisterType::H => ValueEnum::Data8(self.h),
            RegisterType::L => ValueEnum::Data8(self.l),
            RegisterType::AF => ValueEnum::Data16(spec_combine(self.a, self.f.spec_byte())),
            RegisterType::BC => ValueEnum::Data16(spec_combine(self.b, self.c)),
            RegisterType::DE => ValueEnum::Data16(spec_combine(self.d, self.e)),
            RegisterType::HL => ValueEnum::Data16(spec_combine(self.h, self.l)),
            RegisterType::PC => ValueEnum::Data16(self.pc),
            RegisterType::SP => ValueEnum::Data16(self.sp),
        }
    }

    pub fn get_register(&self, register: RegisterType) -> (r: ValueEnum)
        ensures
            r == self.spec_get_register(register),
    {
        match register {
            RegisterType::A => ValueEnum::Data8(self.a),
            RegisterType::F => ValueEnum::Data8(self.f.byte()),
            RegisterType::B => ValueEnum::Data8(self.b),
            RegisterType::C => ValueEnum::Data8(self.c),
            RegisterType::D => ValueEnum::Data8(self.d),
            RegisterType::E => ValueEnum::Data8(self.e),
            RegisterType::H => ValueEnum::Data8(self.h),
            RegisterType::L => ValueEnum::Data8(self.l),
            RegisterType::AF => ValueEnum::Data16(combine(self.a, self.f.byte())),
            RegisterType::BC => ValueEnum::Data16(combine(self.b, self.c)),
            RegisterType::DE => ValueEnum::Data16(combine(self.d, self.e)),
            RegisterType::HL => ValueEnum::Data16(combine(self.h, self.l)),
            RegisterType::PC => ValueEnum::Data16(self.pc),
            RegisterType::SP => ValueEnum::Data16(self.sp),
        }
    }

    /// Whether `value` may be written to `register`: bytes go to single
    /// registers, words to pairs and SP/PC; nothing else is writable.
    pub open spec fn spec_set_register_ok(register: RegisterType, value: ValueEnum) -> bool {
        match value {
            ValueEnum::Data8(_) => !register.spec_is_16bit(),
            ValueEnum::Data16(_) => register.spec_is_16bit(),
            _ => false,
        }
    }

    /// The register file after a write. A word written to a pair lands high
    /// byte in the left register and low byte in the right one; a write to AF
    /// keeps only the high nibble of the low byte, so F's low nibble stays
    /// zero.
    pub open spec fn spec_set_register(
        self,
        register: RegisterType,
        value: ValueEnum,
    ) -> CpuRegisters {
        match value {
            ValueEnum::Data8(data) => match register {
                RegisterType::A => CpuRegisters { a: data, ..self },
                RegisterType::F => CpuRegisters {
                    f: FlagsRegister::spec_from_byte(data),
                    ..self
                },
                RegisterType::B => CpuRegisters { b: data, ..self },
                RegisterType::C => CpuRegisters { c: data, ..self },
                RegisterType::D => CpuRegisters { d: data, ..self },
                RegisterType::E => CpuRegisters { e: data, ..self },
                RegisterType::H => CpuRegisters { h: data, ..self },
                RegisterType::L => CpuRegisters { l: data, ..self },
                _ => self,
            },
            ValueEnum::Data16(data) => {
                let lo = data as u8;
                let hi = (data >> 8) as u8;
                match register {
                    RegisterType::AF => CpuRegisters {
                        a: hi,
                        f: FlagsRegister::spec_from_byte(lo),
                        ..self
                    },
                    RegisterType::BC => CpuRegisters { b: hi, c: lo, ..self },
                    RegisterType::DE => CpuRegisters { d: hi, e: lo, ..self },
                    RegisterType::HL => CpuRegisters { h: hi, l: lo, ..self },
                    RegisterType::PC => CpuRegisters { pc: data, ..self },
                    RegisterType::SP => CpuRegisters { sp: data, ..self },
                    _ => self,
                }
            },
            _ => self,
        }
    }

    pub fn set_register(&mut self, register: RegisterType, value: ValueEnum)
        requires
            Self::spec_set_register_ok(register, value),
        ensures
            *final(self) == old(self).spec_set_register(register, value),
    {
        match value {
            ValueEnum::Data8(data) => match register {
                RegisterType::A => self.a = data,
                RegisterType::F => self.f = FlagsRegister::from_byte(data),
                RegisterType::B => self.b = data,
                RegisterType::C => self.c = data,
                RegisterType::D => self.d = data,
                RegisterType::E => self.e = data,
                RegisterType::H => self.h = data,
                RegisterType::L => self.l = data,
                _ => proof { assert(false) },
            },
            ValueEnum::Data16(data) => {
                let lo = data as u8;
                let hi = (data >> 8) as u8;
                match register {
                    RegisterType::AF => {
                        self.a = hi;
                        self.f = FlagsRegister::from_byte(lo);
                    },
                    RegisterType::BC => {
                        self.b = hi;
                        self.c = lo;
                    },
                    RegisterType::DE => {
                        self.d = hi;
                        self.e = lo;
                    },
                    RegisterType::HL => {
                        self.h = hi;
                        self.l = lo;
                    },
                    RegisterType::PC => self.pc = data,
                    RegisterType::SP => self.sp = data,
                    _ => proof { assert(false) },
                }
            },
            _ => proof { assert(false) },
        }
    }
}

/// Writing a pair and reading it back yields the written word, except that AF
/// masks the low nibble to zero.
pub proof fn lemma_pair_roundtrip(regs: CpuRegisters, register: RegisterType, value: u16)
    requires
        register.spec_is_16bit(),
    ensures
        register != RegisterType::AF ==> regs.spec_set_register(
            register,
            ValueEnum::Data16(value),
        ).spec_get_register(register) == ValueEnum::Data16(value),
        register == RegisterType::AF ==> regs.spec_set_register(
            register,
            ValueEnum::Data16(value),
        ).spec_get_register(register) == ValueEnum::Data16(value & 0xFFF0),
{
    crate::util::lemma_split_combine(value);
    lemma_flags_byte_roundtrip(regs.f, value as u8);
    assert(spec_combine((value >> 8) as u8, (value as u8) & 0xF0) == value & 0xFFF0)
        by (bit_vector);
}

} // verus!
