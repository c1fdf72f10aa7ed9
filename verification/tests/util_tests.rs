//! Byte-pair helpers, flag-bit tests, signed displacement arithmetic, the
//! register file, the decode table and the host statistics.

use rusty_gb::emu::Stats;
use rusty_gb::instruction::{InstructionType, Operand, RegisterType};
use rusty_gb::instruction_set::InstructionSet;
use rusty_gb::registers::{CpuRegisters, Flags, FlagsRegister};
use rusty_gb::util::{
    add_relative, check_carry_relative, check_half_carry_relative, combine, is_bit_set, Bits,
    DestinationEnum, FetchedData, ValueEnum,
};

#[test]
fn combine_makes_words() {
    assert_eq!(combine(0x12, 0x34), 0x1234);
    assert_eq!(combine(0x00, 0xFF), 0x00FF);
    assert_eq!(combine(0xFF, 0x00), 0xFF00);
}

#[test]
fn bit_tests_read_z_and_c() {
    assert!(is_bit_set(0x80, Bits::Z));
    assert!(!is_bit_set(0x70, Bits::Z));
    assert!(is_bit_set(0x10, Bits::C));
    assert!(!is_bit_set(0xE0, Bits::C));
}

#[test]
fn relative_arithmetic_wraps_and_carries() {
    assert_eq!(add_relative(0x0000, -1), 0xFFFF);
    assert_eq!(add_relative(0xFFFF, 1), 0x0000);
    assert_eq!(add_relative(0x0100, 0x7F), 0x017F);
    assert!(check_half_carry_relative(0x000F, 1));
    assert!(!check_half_carry_relative(0x000E, 1));
    assert!(check_carry_relative(0x00FF, 1));
    // the displacement is reinterpreted unsigned for the carry rules
    assert!(check_carry_relative(0x0001, -1));
}

#[test]
fn value_enum_conversions() {
    assert_eq!(ValueEnum::Data8(0x12).to_u16(), Ok(0x12));
    assert_eq!(ValueEnum::Data16(0x1234).to_u16(), Ok(0x1234));
    assert_eq!(ValueEnum::NoData.to_u16(), Err(()));
    assert_eq!(ValueEnum::Data8(0x12).to_u8(), Ok(0x12));
    assert_eq!(ValueEnum::Data16(0x1234).to_u8(), Err(()));
    let fetched = FetchedData::new(
        ValueEnum::Data8(1),
        DestinationEnum::Register(RegisterType::A),
    );
    assert_eq!(fetched.source, ValueEnum::Data8(1));
}

#[test]
fn flags_register_packs_into_high_nibble() {
    let f = FlagsRegister::new();
    assert_eq!(f.byte(), 0xB0);
    assert!(f.get_flag(Flags::Z));
    assert!(!f.get_flag(Flags::N));
    let mut f = f;
    f.set_flag(Flags::Z, false);
    f.set_flag(Flags::C, false);
    assert_eq!(f.byte(), 0x20);
    // the low nibble of F is zero for every flag combination
    for bits in 0..16u8 {
        let f = FlagsRegister {
            z: bits & 8 != 0,
            n: bits & 4 != 0,
            h: bits & 2 != 0,
            c: bits & 1 != 0,
        };
        assert_eq!(f.byte() & 0x0F, 0);
    }
    // a byte written to F keeps only its high nibble
    assert_eq!(FlagsRegister::from_byte(0xFF).byte(), 0xF0);
    assert_eq!(FlagsRegister::from_byte(0x0F).byte(), 0x00);
}

#[test]
fn register_pairs_combine_and_split() {
    let mut regs = CpuRegisters::new();
    regs.set_register(RegisterType::BC, ValueEnum::Data16(0x1234));
    assert_eq!(regs.b, 0x12);
    assert_eq!(regs.c, 0x34);
    assert_eq!(
        regs.get_register(RegisterType::BC),
        ValueEnum::Data16(0x1234)
    );
    // AF masks the low nibble of F
    regs.set_register(RegisterType::AF, ValueEnum::Data16(0xABCD));
    assert_eq!(
        regs.get_register(RegisterType::AF),
        ValueEnum::Data16(0xABC0)
    );
    assert_eq!(regs.get_register(RegisterType::A), ValueEnum::Data8(0xAB));
}

#[test]
fn decode_table_spot_checks() {
    let set = InstructionSet::new();
    let nop = set.get_instruction_by_opcode(0x00);
    assert!(matches!(nop.instruction_type, InstructionType::NOP));
    let ld = set.get_instruction_by_opcode(0x01);
    assert!(matches!(ld.instruction_type, InstructionType::LD));
    assert!(matches!(
        ld.operand_1,
        Operand::Register(RegisterType::BC)
    ));
    assert!(matches!(ld.operand_2, Operand::D16));
    let rst = set.get_instruction_by_opcode(0xFF);
    assert!(matches!(rst.instruction_type, InstructionType::RST));
    assert_eq!(rst.parameter, Some(0x38));
    let hole = set.get_instruction_by_opcode(0xD3);
    assert!(matches!(hole.instruction_type, InstructionType::NONE));
    let halt = set.get_instruction_by_opcode(0x76);
    assert!(matches!(halt.instruction_type, InstructionType::HALT));
    let jp_hl = set.get_instruction_by_opcode(0xE9);
    assert!(matches!(jp_hl.instruction_type, InstructionType::JP));
    assert!(matches!(
        jp_hl.operand_1,
        Operand::Register(RegisterType::HL)
    ));
    assert!(RegisterType::HL.is_16bit());
    assert!(!RegisterType::A.is_16bit());
}

#[test]
fn stats_fold_measurements() {
    let mut stats = Stats::new();
    stats.put(10);
    stats.put(30);
    assert_eq!(stats.count, 2);
    assert_eq!(stats.min, 10);
    assert_eq!(stats.max, 30);
    assert_eq!(stats.sum, 40);
    assert_eq!(stats.average, 20);
    stats.put(2);
    assert_eq!(stats.min, 2);
    assert_eq!(stats.average, 14);
}
