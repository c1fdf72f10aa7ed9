//! Small shared helpers: the tagged operand value and destination types that
//! flow between operand fetch and execution, byte-pair combination, and the
//! signed-displacement arithmetic used by `ADD SP,r8` and `LD HL,SP+r8`.

use vstd::prelude::*;

verus! {

use crate::instruction::RegisterType;

/// A fetched operand value: nothing, a signed 8-bit displacement, a byte, or
/// a 16-bit word.
#[derive(Clone, Copy, Debug, PartialEq, Eq, Structural)]
pub enum ValueEnum {
    NoData,
    SignedData8(i8),
    Data8(u8),
    Data16(u16),
}

impl Default for ValueEnum {
    fn default() -> (r: Self)
        ensures
            r == ValueEnum::NoData,
    {
        ValueEnum::NoData
    }
}

impl ValueEnum {
    /// The 16-bit reading of a value: bytes widen, words stand, the rest fail.
    pub open spec fn spec_to_u16(self) -> Result<u16, ()> {
        match self {
            ValueEnum::Data8(v) => Ok(v as u16),
            ValueEnum::Data16(v) => Ok(v),
            _ => Err(()),
        }
    }

    pub fn to_u16(self) -> (r: Result<u16, ()>)
        ensures
            r == self.spec_to_u16(),
    {
        match self {
            ValueEnum::Data8(v) => Ok(v as u16),
            ValueEnum::Data16(v) => Ok(v),
            _ => Err(()),
        }
    }

    /// The 8-bit reading of a value: only a byte qualifies.
    pub open spec fn spec_to_u8(self) -> Result<u8, ()> {
        match self {
            ValueEnum::Data8(v) => Ok(v),
            _ => Err(()),
        }
    }

    pub fn to_u8(self) -> (r: Result<u8, ()>)
        ensures
            r == self.spec_to_u8(),
    {
        match self {
            ValueEnum::Data8(v) => Ok(v),
            _ => Err(()),
        }
    }
}

/// Where an instruction's result lands: nowhere, a register, or a bus address.
#[derive(Clone, Copy, Debug, PartialEq, Eq, Structural)]
pub enum DestinationEnum {
    NoDestination,
    Register(RegisterType),
    Address(u16),
}

impl Default for DestinationEnum {
    fn default() -> (r: Self)
        ensures
            r == DestinationEnum::NoDestination,
    {
        DestinationEnum::NoDestination
    }
}

/// The pair produced by operand fetch: a source value and a destination sink.
#[derive(Clone, Copy, Debug, PartialEq, Eq, Structural)]
pub struct FetchedData {
    pub source: ValueEnum,
    pub destination: DestinationEnum,
}

impl FetchedData {
    pub fn with_source(source: ValueEnum) -> (r: Self)
        ensures
            r == (FetchedData { source, destination: DestinationEnum::NoDestination }),
    {
        Self { source, destination: DestinationEnum::NoDestination }
    }

    pub fn with_destination(destination: DestinationEnum) -> (r: Self)
        ensures
            r == (FetchedData { source: ValueEnum::NoData, destination }),
    {
        Self { source: ValueEnum::NoData, destination }
    }

    pub fn new(source: ValueEnum, destination: DestinationEnum) -> (r: Self)
        ensures
            r == (FetchedData { source, destination }),
    {
        Self { source, destination }
    }
}

impl Default for FetchedData {
    fn default() -> (r: Self)
        ensures
            r == (FetchedData {
                source: ValueEnum::NoData,
                destination: DestinationEnum::NoDestination,
            }),
    {
        Self { source: ValueEnum::NoData, destination: DestinationEnum::NoDestination }
    }
}

/// Flag bits of F that condition checks read.
#[derive(Clone, Copy, Debug, PartialEq, Eq, Structural)]
pub enum Bits {
    C,
    Z,
}

/// The mask selecting a flag bit inside the F byte: C is bit 4, Z is bit 7.
pub open spec fn spec_bit_mask(bits: Bits) -> u8 {
    match bits {
        Bits::C => 0x10,
        Bits::Z => 0x80,
    }
}

pub open spec fn spec_is_bit_set(register: u8, bits: Bits) -> bool {
    register & spec_bit_mask(bits) == spec_bit_mask(bits)
}

pub fn is_bit_set(register: u8, bits: Bits) -> (r: bool)
    ensures
        r == spec_is_bit_set(register, bits),
{
    let mask: u8 = match bits {
        Bits::C => 0x10,
        Bits::Z => 0x80,
    };
    register & mask == mask
}

/// The 16-bit word with `reg_left` as high byte and `reg_right` as low byte.
pub open spec fn spec_combine(reg_left: u8, reg_right: u8) -> u16 {
    ((reg_left as u16) << 8) | (reg_right as u16)
}

pub fn combine(reg_left: u8, reg_right: u8) -> (r: u16)
    ensures
        r == spec_combine(reg_left, reg_right),
{
    let hi = (reg_left as u16) << 8;
    let lo = reg_right as u16;
    hi | lo
}

/// Splitting a word into bytes and combining them again is the identity.
pub proof fn lemma_split_combine(value: u16)
    ensures
        spec_combine((value >> 8) as u8, value as u8) == value,
{
    assert(((((value >> 8) as u8) as u16) << 8) | ((value as u8) as u16) == value)
        by (bit_vector);
}

/// `value` displaced by the signed byte `offset`, wrapping mod 2^16.
pub open spec fn spec_add_relative(value: u16, offset: i8) -> u16 {
    vstd::wrapping::u16_specs::wrapping_add_signed(value, offset as i16)
}

pub fn add_relative(value: u16, offset: i8) -> (r: u16)
    ensures
        r == spec_add_relative(value, offset),
{
    value.wrapping_add_signed(offset as i16)
}

/// Half-carry of the 8-bit addition of SP's low byte and the unsigned
/// reinterpretation of the displacement: a carry out of bit 3.
pub open spec fn spec_half_carry_relative(value: u16, offset: i8) -> bool {
    (value & 0x0F) + ((offset as u8) & 0x0F) > 0x0F
}

pub fn check_half_carry_relative(value: u16, offset: i8) -> (r: bool)
    ensures
        r == spec_half_carry_relative(value, offset),
{
    let low: u32 = (value & 0x0F) as u32;
    let add: u32 = ((offset as u8) & 0x0F) as u32;
    low + add > 0x0F
}

/// Carry of the 8-bit addition of SP's low byte and the unsigned
/// reinterpretation of the displacement: a carry out of bit 7.
pub open spec fn spec_carry_relative(value: u16, offset: i8) -> bool {
    (value & 0xFF) + (offset as u8) > 0xFF
}

pub fn check_carry_relative(value: u16, offset: i8) -> (r: bool)
    ensures
        r == spec_carry_relative(value, offset),
{
    let low: u32 = (value & 0xFF) as u32;
    let add: u32 = (offset as u8) as u32;
    low + add > 0xFF
}

} // verus!
