//! The 256-entry base decode table. Each opcode maps to its mnemonic tag,
//! operand descriptors, branch condition and fixed RST parameter; the eleven
//! holes of the DMG opcode map decode to NONE entries. CB-prefixed opcodes
//! are decoded algorithmically by the executor from the byte that follows
//! the $CB prefix, so they carry no second table here.

use vstd::prelude::*;

verus! {

use crate::instruction::{ConditionType, Instruction, InstructionType, Operand, RegisterType};

/// Decode-table entries $00..$0F.
pub open spec fn spec_instruction_row_0(opcode: u8) -> Instruction {
    if opcode == 0x00 {
        Instruction {
            description: "NOP",
            instruction_type: InstructionType::NOP,
            operand_1: Operand::NoOperand,
            operand_2: Operand::NoOperand,
            condition: ConditionType::Unconditional,
            parameter: Option::None,
        }
    } else if opcode == 0x01 {
        Instruction {
            description: "LD BC,d16",
            instruction_type: InstructionType::LD,
            operand_1: Operand::Register(RegisterType::BC),
            operand_2: Operand::D16,
            condition: ConditionType::Unconditional,
            parameter: Option::None,
        }
    } else if opcode == 0x02 {
        Instruction {
            description: "LD (BC),A",
            instruction_type: InstructionType::LD,
            operand_1: Operand::Indirect(RegisterType::BC),
            operand_2: Operand::Register(RegisterType::A),
            condition: ConditionType::Unconditional,
            parameter: Option::None,
        }
    } else if opcode == 0x03 {
        Instruction {
            description: "INC BC",
            instruction_type: InstructionType::INC,
            operand_1: Operand::Register(RegisterType::BC),
            operand_2: Operand::NoOperand,
            condition: ConditionType::Unconditional,
            parameter: Option::None,
        }
    } else if opcode == 0x04 {
        Instruction {
            description: "INC B",
            instruction_type: InstructionType::INC,
            operand_1: Operand::Register(RegisterType::B),
            operand_2: Operand::NoOperand,
            condition: ConditionType::Unconditional,
            parameter: Option::None,
        }
    } else if opcode == 0x05 {
        Instruction {
            description: "DEC B",
            instruction_type: InstructionType::DEC,
            operand_1: Operand::Register(RegisterType::B),
            operand_2: Operand::NoOperand,
            condition: ConditionType::Unconditional,
            parameter: Option::None,
        }
    } else if opcode == 0x06 {
        Instruction {
            description: "LD B,d8",
            instruction_type: InstructionType::LD,
            operand_1: Operand::Register(RegisterType::B),
            operand_2: Operand::D8,
            condition: ConditionType::Unconditional,
            parameter: Option::None,
        }
    } else if opcode == 0x07 {
        Instruction {
            description: "RLCA",
            instruction_type: InstructionType::RLCA,
            operand_1: Operand::NoOperand,
            operand_2: Operand::NoOperand,
            condition: ConditionType::Unconditional,
            parameter: Option::None,
        }
    } else if opcode == 0x08 {
        Instruction {
            description: "LD (a16),SP",
            instruction_type: InstructionType::LD,
            operand_1: Operand::A16Indirect,
            operand_2: Operand::Register(RegisterType::SP),
            condition: ConditionType::Unconditional,
            parameter: Option::None,
        }
    } else if opcode == 0x09 {
        Instruction {
            description: "ADD HL,BC",
            instruction_type: InstructionType::ADD,
            operand_1: Operand::Register(RegisterType::HL),
            operand_2: Operand::Register(RegisterType::BC),
            condition: ConditionType::Unconditional,
            parameter: Option::None,
        }
    } else if opcode == 0x0A {
        Instruction {
            description: "LD A,(BC)",
            instruction_type: InstructionType::LD,
            operand_1: Operand::Register(RegisterType::A),
            operand_2: Operand::Indirect(RegisterType::BC),
            condition: ConditionType::Unconditional,
            parameter: Option::None,
        }
    } else if opcode == 0x0B {
        Instruction {
            description: "DEC BC",
            instruction_type: InstructionType::DEC,
            operand_1: Operand::Register(RegisterType::BC),
            operand_2: Operand::NoOperand,
            condition: ConditionType::Unconditional,
            parameter: Option::None,
        }
    } else if opcode == 0x0C {
        Instruction {
            description: "INC C",
            instruction_type: InstructionType::INC,
            operand_1: Operand::Register(RegisterType::C),
            operand_2: Operand::NoOperand,
            condition: ConditionType::Unconditional,
            parameter: Option::None,
        }
    } else if opcode == 0x0D {
        Instruction {
            description: "DEC C",
            instruction_type: InstructionType::DEC,
            operand_1: Operand::Register(RegisterType::C),
            operand_2: Operand::NoOperand,
            condition: ConditionType::Unconditional,
            parameter: Option::None,
        }
    } else if opcode == 0x0E {
        Instruction {
            description: "LD C,d8",
            instruction_type: InstructionType::LD,
            operand_1: Operand::Register(RegisterType::C),
            operand_2: Operand::D8,
            condition: ConditionType::Unconditional,
            parameter: Option::None,
        }
    } else if opcode == 0x0F {
        Instruction {
            description: "RRCA",
            instruction_type: InstructionType::RRCA,
            operand_1: Operand::NoOperand,
            operand_2: Operand::NoOperand,
            condition: ConditionType::Unconditional,
            parameter: Option::None,
        }
    } else {
        Instruction {
            description: "NONE",
            instruction_type: InstructionType::NONE,
            operand_1: Operand::NoOperand,
            operand_2: Operand::NoOperand,
            condition: ConditionType::Unconditional,
            parameter: Option::None,
        }
    }
}

/// Decode-table entries $10..$1F.
pub open spec fn spec_instruction_row_1(opcode: u8) -> Instruction {
    if opcode == 0x10 {
        Instruction {
            description: "STOP",
            instruction_type: InstructionType::STOP,
            operand_1: Operand::NoOperand,
            operand_2: Operand::NoOperand,
            condition: ConditionType::Unconditional,
            parameter: Option::None,
        }
    } else if opcode == 0x11 {
        Instruction {
            description: "LD DE,d16",
            instruction_type: InstructionType::LD,
            operand_1: Operand::Register(RegisterType::DE),
            operand_2: Operand::D16,
            condition: ConditionType::Unconditional,
            parameter: Option::None,
        }
    } else if opcode == 0x12 {
        Instruction {
            description: "LD (DE),A",
            instruction_type: InstructionType::LD,
            operand_1: Operand::Indirect(RegisterType::DE),
            operand_2: Operand::Register(RegisterType::A),
            condition: ConditionType::Unconditional,
            parameter: Option::None,
        }
    } else if opcode == 0x13 {
        Instruction {
            description: "INC DE",
            instruction_type: InstructionType::INC,
            operand_1: Operand::Register(RegisterType::DE),
            operand_2: Operand::NoOperand,
            condition: ConditionType::Unconditional,
            parameter: Option::None,
        }
    } else if opcode == 0x14 {
        Instruction {
            description: "INC D",
            instruction_type: InstructionType::INC,
            operand_1: Operand::Register(RegisterType::D),
            operand_2: Operand::NoOperand,
            condition: ConditionType::Unconditional,
            parameter: Option::None,
        }
    } else if opcode == 0x15 {
        Instruction {
            description: "DEC D",
            instruction_type: InstructionType::DEC,
            operand_1: Operand::Register(RegisterType::D),
            operand_2: Operand::NoOperand,
            condition: ConditionType::Unconditional,
            parameter: Option::None,
        }
    } else if opcode == 0x16 {
        Instruction {
            description: "LD D,d8",
            instruction_type: InstructionType::LD,
            operand_1: Operand::Register(RegisterType::D),
            operand_2: Operand::D8,
            condition: ConditionType::Unconditional,
            parameter: Option::None,
        }
    } else if opcode == 0x17 {
        Instruction {
            description: "RLA",
            instruction_type: InstructionType::RLA,
            operand_1: Operand::NoOperand,
            operand_2: Operand::NoOperand,
            condition: ConditionType::Unconditional,
            parameter: Option::None,
        }
    } else if opcode == 0x18 {
        Instruction {
            description: "JR r8",
            instruction_type: InstructionType::JR,
            operand_1: Operand::R8,
            operand_2: Operand::NoOperand,
            condition: ConditionType::Unconditional,
            parameter: Option::None,
        }
    } else if opcode == 0x19 {
        Instruction {
            description: "ADD HL,DE",
            instruction_type: InstructionType::ADD,
            operand_1: Operand::Register(RegisterType::HL),
            operand_2: Operand::Register(RegisterType::DE),
            condition: ConditionType::Unconditional,
            parameter: Option::None,
        }
    } else if opcode == 0x1A {
        Instruction {
            description: "LD A,(DE)",
            instruction_type: InstructionType::LD,
            operand_1: Operand::Register(RegisterType::A),
            operand_2: Operand::Indirect(RegisterType::DE),
            condition: ConditionType::Unconditional,
            parameter: Option::None,
        }
    } else if opcode == 0x1B {
        Instruction {
            description: "DEC DE",
            instruction_type: InstructionType::DEC,
            operand_1: Operand::Register(RegisterType::DE),
            operand_2: Operand::NoOperand,
            condition: ConditionType::Unconditional,
            parameter: Option::None,
        }
    } else if opcode == 0x1C {
        Instruction {
            description: "INC E",
            instruction_type: InstructionType::INC,
            operand_1: Operand::Register(RegisterType::E),
            operand_2: Operand::NoOperand,
            condition: ConditionType::Unconditional,
            parameter: Option::None,
        }
    } else if opcode == 0x1D {
        Instruction {
            description: "DEC E",
            instruction_type: InstructionType::DEC,
            operand_1: Operand::Register(RegisterType::E),
            operand_2: Operand::NoOperand,
            condition: ConditionType::Unconditional,
            parameter: Option::None,
        }
    } else if opcode == 0x1E {
        Instruction {
            description: "LD E,d8",
            instruction_type: InstructionType::LD,
            operand_1: Operand::Register(RegisterType::E),
            operand_2: Operand::D8,
            condition: ConditionType::Unconditional,
            parameter: Option::None,
        }
    } else if opcode == 0x1F {
        Instruction {
            description: "RRA",
            instruction_type: InstructionType::RRA,
            operand_1: Operand::NoOperand,
            operand_2: Operand::NoOperand,
            condition: ConditionType::Unconditional,
            parameter: Option::None,
        }
    } else {
        Instruction {
            description: "NONE",
            instruction_type: InstructionType::NONE,
            operand_1: Operand::NoOperand,
            operand_2: Operand::NoOperand,
            condition: ConditionType::Unconditional,
            parameter: Option::None,
        }
    }
}

/// Decode-table entries $20..$2F.
pub open spec fn spec_instruction_row_2(opcode: u8) -> Instruction {
    if opcode == 0x20 {
        Instruction {
            description: "JR NZ,r8",
            instruction_type: InstructionType::JR,
            operand_1: Operand::R8,
            operand_2: Operand::NoOperand,
            condition: ConditionType::NZ,
            parameter: Option::None,
        }
    } else if opcode == 0x21 {
        Instruction {
            description: "LD HL,d16",
            instruction_type: InstructionType::LD,
            operand_1: Operand::Register(RegisterType::HL),
            operand_2: Operand::D16,
            condition: ConditionType::Unconditional,
            parameter: Option::None,
        }
    } else if opcode == 0x22 {
        Instruction {
            description: "LD (HL+),A",
            instruction_type: InstructionType::LD,
            operand_1: Operand::IndirectIncrementHL,
            operand_2: Operand::Register(RegisterType::A),
            condition: ConditionType::Unconditional,
            parameter: Option::None,
        }
    } else if opcode == 0x23 {
        Instruction {
            description: "INC HL",
            instruction_type: InstructionType::INC,
            operand_1: Operand::Register(RegisterType::HL),
            operand_2: Operand::NoOperand,
            condition: ConditionType::Unconditional,
            parameter: Option::None,
        }
    } else if opcode == 0x24 {
        Instruction {
            description: "INC H",
            instruction_type: InstructionType::INC,
            operand_1: Operand::Register(RegisterType::H),
            operand_2: Operand::NoOperand,
            condition: ConditionType::Unconditional,
            parameter: Option::None,
        }
    } else if opcode == 0x25 {
        Instruction {
            description: "DEC H",
            instruction_type: InstructionType::DEC,
            operand_1: Operand::Register(RegisterType::H),
            operand_2: Operand::NoOperand,
            condition: ConditionType::Unconditional,
            parameter: Option::None,
        }
    } else if opcode == 0x26 {
        Instruction {
            description: "LD H,d8",
            instruction_type: InstructionType::LD,
            operand_1: Operand::Register(RegisterType::H),
            operand_2: Operand::D8,
            condition: ConditionType::Unconditional,
            parameter: Option::None,
        }
    } else if opcode == 0x27 {
        Instruction {
            description: "DAA",
            instruction_type: InstructionType::DAA,
            operand_1: Operand::NoOperand,
            operand_2: Operand::NoOperand,
            condition: ConditionType::Unconditional,
            parameter: Option::None,
        }
    } else if opcode == 0x28 {
        Instruction {
            description: "JR Z,r8",
            instruction_type: InstructionType::JR,
            operand_1: Operand::R8,
            operand_2: Operand::NoOperand,
            condition: ConditionType::Z,
            parameter: Option::None,
        }
    } else if opcode == 0x29 {
        Instruction {
            description: "ADD HL,HL",
            instruction_type: InstructionType::ADD,
            operand_1: Operand::Register(RegisterType::HL),
            operand_2: Operand::Register(RegisterType::HL),
            condition: ConditionType::Unconditional,
            parameter: Option::None,
        }
    } else if opcode == 0x2A {
        Instruction {
            description: "LD A,(HL+)",
            instruction_type: InstructionType::LD,
            operand_1: Operand::Register(RegisterType::A),
            operand_2: Operand::IndirectIncrementHL,
            condition: ConditionType::Unconditional,
            parameter: Option::None,
        }
    } else if opcode == 0x2B {
        Instruction {
            description: "DEC HL",
            instruction_type: InstructionType::DEC,
            operand_1: Operand::Register(RegisterType::HL),
            operand_2: Operand::NoOperand,
            condition: ConditionType::Unconditional,
            parameter: Option::None,
        }
    } else if opcode == 0x2C {
        Instruction {
            description: "INC L",
            instruction_type: InstructionType::INC,
            operand_1: Operand::Register(RegisterType::L),
            operand_2: Operand::NoOperand,
            condition: ConditionType::Unconditional,
            parameter: Option::None,
        }
    } else if opcode == 0x2D {
        Instruction {
            description: "DEC L",
            instruction_type: InstructionType::DEC,
            operand_1: Operand::Register(RegisterType::L),
            operand_2: Operand::NoOperand,
            condition: ConditionType::Unconditional,
            parameter: Option::None,
        }
    } else if opcode == 0x2E {
        Instruction {
            description: "LD L,d8",
            instruction_type: InstructionType::LD,
            operand_1: Operand::Register(RegisterType::L),
            operand_2: Operand::D8,
            condition: ConditionType::Unconditional,
            parameter: Option::None,
        }
    } else if opcode == 0x2F {
        Instruction {
            description: "CPL",
            instruction_type: InstructionType::CPL,
            operand_1: Operand::NoOperand,
            operand_2: Operand::NoOperand,
            condition: ConditionType::Unconditional,
            parameter: Option::None,
        }
    } else {
        Instruction {
            description: "NONE",
            instruction_type: InstructionType::NONE,
            operand_1: Operand::NoOperand,
            operand_2: Operand::NoOperand,
            condition: ConditionType::Unconditional,
            parameter: Option::None,
        }
    }
}

/// Decode-table entries $30..$3F.
pub open spec fn spec_instruction_row_3(opcode: u8) -> Instruction {
    if opcode == 0x30 {
        Instruction {
            description: "JR NC,r8",
            instruction_type: InstructionType::JR,
            operand_1: Operand::R8,
            operand_2: Operand::NoOperand,
            condition: ConditionType::NC,
            parameter: Option::None,
        }
    } else if opcode == 0x31 {
        Instruction {
            description: "LD SP,d16",
            instruction_type: InstructionType::LD,
            operand_1: Operand::Register(RegisterType::SP),
            operand_2: Operand::D16,
            condition: ConditionType::Unconditional,
            parameter: Option::None,
        }
    } else if opcode == 0x32 {
        Instruction {
            description: "LD (HL-),A",
            instruction_type: InstructionType::LD,
            operand_1: Operand::IndirectDecrementHL,
            operand_2: Operand::Register(RegisterType::A),
            condition: ConditionType::Unconditional,
            parameter: Option::None,
        }
    } else if opcode == 0x33 {
        Instruction {
            description: "INC SP",
            instruction_type: InstructionType::INC,
            operand_1: Operand::Register(RegisterType::SP),
            operand_2: Operand::NoOperand,
            condition: ConditionType::Unconditional,
            parameter: Option::None,
        }
    } else if opcode == 0x34 {
        Instruction {
            description: "INC (HL)",
            instruction_type: InstructionType::INC,
            operand_1: Operand::Indirect(RegisterType::HL),
            operand_2: Operand::NoOperand,
            condition: ConditionType::Unconditional,
            parameter: Option::None,
        }
    } else if opcode == 0x35 {
        Instruction {
            description: "DEC (HL)",
            instruction_type: InstructionType::DEC,
            operand_1: Operand::Indirect(RegisterType::HL),
            operand_2: Operand::NoOperand,
            condition: ConditionType::Unconditional,
            parameter: Option::None,
        }
    } else if opcode == 0x36 {
        Instruction {
            description: "LD (HL),d8",
            instruction_type: InstructionType::LD,
            operand_1: Operand::Indirect(RegisterType::HL),
            operand_2: Operand::D8,
            condition: ConditionType::Unconditional,
            parameter: Option::None,
        }
    } else if opcode == 0x37 {
        Instruction {
            description: "SCF",
            instruction_type: InstructionType::SCF,
            operand_1: Operand::NoOperand,
            operand_2: Operand::NoOperand,
            condition: ConditionType::Unconditional,
            parameter: Option::None,
        }
    } else if opcode == 0x38 {
        Instruction {
            description: "JR C,r8",
            instruction_type: InstructionType::JR,
            operand_1: Operand::R8,
            operand_2: Operand::NoOperand,
            condition: ConditionType::C,
            parameter: Option::None,
        }
    } else if opcode == 0x39 {
        Instruction {
            description: "ADD HL,SP",
            instruction_type: InstructionType::ADD,
            operand_1: Operand::Register(RegisterType::HL),
            operand_2: Operand::Register(RegisterType::SP),
            condition: ConditionType::Unconditional,
            parameter: Option::None,
        }
    } else if opcode == 0x3A {
        Instruction {
            description: "LD A,(HL-)",
            instruction_type: InstructionType::LD,
            operand_1: Operand::Register(RegisterType::A),
            operand_2: Operand::IndirectDecrementHL,
            condition: ConditionType::Unconditional,
            parameter: Option::None,
        }
    } else if opcode == 0x3B {
        Instruction {
            description: "DEC SP",
            instruction_type: InstructionType::DEC,
            operand_1: Operand::Register(RegisterType::SP),
            operand_2: Operand::NoOperand,
            condition: ConditionType::Unconditional,
            parameter: Option::None,
        }
    } else if opcode == 0x3C {
        Instruction {
            description: "INC A",
            instruction_type: InstructionType::INC,
            operand_1: Operand::Register(RegisterType::A),
            operand_2: Operand::NoOperand,
            condition: ConditionType::Unconditional,
            parameter: Option::None,
        }
    } else if opcode == 0x3D {
        Instruction {
            description: "DEC A",
            instruction_type: InstructionType::DEC,
            operand_1: Operand::Register(RegisterType::A),
            operand_2: Operand::NoOperand,
            condition: ConditionType::Unconditional,
            parameter: Option::None,
        }
    } else if opcode == 0x3E {
        Instruction {
            description: "LD A,d8",
            instruction_type: InstructionType::LD,
            operand_1: Operand::Register(RegisterType::A),
            operand_2: Operand::D8,
            condition: ConditionType::Unconditional,
            parameter: Option::None,
        }
    } else if opcode == 0x3F {
        Instruction {
            description: "CCF",
            instruction_type: InstructionType::CCF,
            operand_1: Operand::NoOperand,
            operand_2: Operand::NoOperand,
            condition: ConditionType::Unconditional,
            parameter: Option::None,
        }
    } else {
        Instruction {
            description: "NONE",
            instruction_type: InstructionType::NONE,
            operand_1: Operand::NoOperand,
            operand_2: Operand::NoOperand,
            condition: ConditionType::Unconditional,
            parameter: Option::None,
        }
    }
}

/// Decode-table entries $40..$4F.
pub open spec fn spec_instruction_row_4(opcode: u8) -> Instruction {
    if opcode == 0x40 {
        Instruction {
            description: "LD B,B",
            instruction_type: InstructionType::LD,
            operand_1: Operand::Register(RegisterType::B),
            operand_2: Operand::Register(RegisterType::B),
            condition: ConditionType::Unconditional,
            parameter: Option::None,
        }
    } else if opcode == 0x41 {
        Instruction {
            description: "LD B,C",
            instruction_type: InstructionType::LD,
            operand_1: Operand::Register(RegisterType::B),
            operand_2: Operand::Register(RegisterType::C),
            condition: ConditionType::Unconditional,
            parameter: Option::None,
        }
    } else if opcode == 0x42 {
        Instruction {
            description: "LD B,D",
            instruction_type: InstructionType::LD,
            operand_1: Operand::Register(RegisterType::B),
            operand_2: Operand::Register(RegisterType::D),
            condition: ConditionType::Unconditional,
            parameter: Option::None,
        }
    } else if opcode == 0x43 {
        Instruction {
            description: "LD B,E",
            instruction_type: InstructionType::LD,
            operand_1: Operand::Register(RegisterType::B),
            operand_2: Operand::Register(RegisterType::E),
            condition: ConditionType::Unconditional,
            parameter: Option::None,
        }
    } else if opcode == 0x44 {
        Instruction {
            description: "LD B,H",
            instruction_type: InstructionType::LD,
            operand_1: Operand::Register(RegisterType::B),
            operand_2: Operand::Register(RegisterType::H),
            condition: ConditionType::Unconditional,
            parameter: Option::None,
        }
    } else if opcode == 0x45 {
        Instruction {
            description: "LD B,L",
            instruction_type: InstructionType::LD,
            operand_1: Operand::Register(RegisterType::B),
            operand_2: Operand::Register(RegisterType::L),
            condition: ConditionType::Unconditional,
            parameter: Option::None,
        }
    } else if opcode == 0x46 {
        Instruction {
            description: "LD B,(HL)",
            instruction_type: InstructionType::LD,
            operand_1: Operand::Register(RegisterType::B),
            operand_2: Operand::Indirect(RegisterType::HL),
            condition: ConditionType::Unconditional,
            parameter: Option::None,
        }
    } else if opcode == 0x47 {
        Instruction {
            description: "LD B,A",
            instruction_type: InstructionType::LD,
            operand_1: Operand::Register(RegisterType::B),
            operand_2: Operand::Register(RegisterType::A),
            condition: ConditionType::Unconditional,
            parameter: Option::None,
        }
    } else if opcode == 0x48 {
        Instruction {
            description: "LD C,B",
            instruction_type: InstructionType::LD,
            operand_1: Operand::Register(RegisterType::C),
            operand_2: Operand::Register(RegisterType::B),
            condition: ConditionType::Unconditional,
            parameter: Option::None,
        }
    } else if opcode == 0x49 {
        Instruction {
            description: "LD C,C",
            instruction_type: InstructionType::LD,
            operand_1: Operand::Register(RegisterType::C),
            operand_2: Operand::Register(RegisterType::C),
            condition: ConditionType::Unconditional,
            parameter: Option::None,
        }
    } else if opcode == 0x4A {
        Instruction {
            description: "LD C,D",
            instruction_type: InstructionType::LD,
            operand_1: Operand::Register(RegisterType::C),
            operand_2: Operand::Register(RegisterType::D),
            condition: ConditionType::Unconditional,
            parameter: Option::None,
        }
    } else if opcode == 0x4B {
        Instruction {
            description: "LD C,E",
            instruction_type: InstructionType::LD,
            operand_1: Operand::Register(RegisterType::C),
            operand_2: Operand::Register(RegisterType::E),
            condition: ConditionType::Unconditional,
            parameter: Option::None,
        }
    } else if opcode == 0x4C {
        Instruction {
            description: "LD C,H",
            instruction_type: InstructionType::LD,
            operand_1: Operand::Register(RegisterType::C),
            operand_2: Operand::Register(RegisterType::H),
            condition: ConditionType::Unconditional,
            parameter: Option::None,
        }
    } else if opcode == 0x4D {
        Instruction {
            description: "LD C,L",
            instruction_type: InstructionType::LD,
            operand_1: Operand::Register(RegisterType::C),
            operand_2: Operand::Register(RegisterType::L),
            condition: ConditionType::Unconditional,
            parameter: Option::None,
        }
    } else if opcode == 0x4E {
        Instruction {
            description: "LD C,(HL)",
            instruction_type: InstructionType::LD,
            operand_1: Operand::Register(RegisterType::C),
            operand_2: Operand::Indirect(RegisterType::HL),
            condition: ConditionType::Unconditional,
            parameter: Option::None,
        }
    } else if opcode == 0x4F {
        Instruction {
            description: "LD C,A",
            instruction_type: InstructionType::LD,
            operand_1: Operand::Register(RegisterType::C),
            operand_2: Operand::Register(RegisterType::A),
            condition: ConditionType::Unconditional,
            parameter: Option::None,
        }
    } else {
        Instruction {
            description: "NONE",
            instruction_type: InstructionType::NONE,
            operand_1: Operand::NoOperand,
            operand_2: Operand::NoOperand,
            condition: ConditionType::Unconditional,
            parameter: Option::None,
        }
    }
}

/// Decode-table entries $50..$5F.
pub open spec fn spec_instruction_row_5(opcode: u8) -> Instruction {
    if opcode == 0x50 {
        Instruction {
            description: "LD D,B",
            instruction_type: InstructionType::LD,
            operand_1: Operand::Register(RegisterType::D),
            operand_2: Operand::Register(RegisterType::B),
            condition: ConditionType::Unconditional,
            parameter: Option::None,
        }
    } else if opcode == 0x51 {
        Instruction {
            description: "LD D,C",
            instruction_type: InstructionType::LD,
            operand_1: Operand::Register(RegisterType::D),
            operand_2: Operand::Register(RegisterType::C),
            condition: ConditionType::Unconditional,
            parameter: Option::None,
        }
    } else if opcode == 0x52 {
        Instruction {
            description: "LD D,D",
            instruction_type: InstructionType::LD,
            operand_1: Operand::Register(RegisterType::D),
            operand_2: Operand::Register(RegisterType::D),
            condition: ConditionType::Unconditional,
            parameter: Option::None,
        }
    } else if opcode == 0x53 {
        Instruction {
            description: "LD D,E",
            instruction_type: InstructionType::LD,
            operand_1: Operand::Register(RegisterType::D),
            operand_2: Operand::Register(RegisterType::E),
            condition: ConditionType::Unconditional,
            parameter: Option::None,
        }
    } else if opcode == 0x54 {
        Instruction {
            description: "LD D,H",
            instruction_type: InstructionType::LD,
            operand_1: Operand::Register(RegisterType::D),
            operand_2: Operand::Register(RegisterType::H),
            condition: ConditionType::Unconditional,
            parameter: Option::None,
        }
    } else if opcode == 0x55 {
        Instruction {
            description: "LD D,L",
            instruction_type: InstructionType::LD,
            operand_1: Operand::Register(RegisterType::D),
            operand_2: Operand::Register(RegisterType::L),
            condition: ConditionType::Unconditional,
            parameter: Option::None,
        }
    } else if opcode == 0x56 {
        Instruction {
            description: "LD D,(HL)",
            instruction_type: InstructionType::LD,
            operand_1: Operand::Register(RegisterType::D),
            operand_2: Operand::Indirect(RegisterType::HL),
            condition: ConditionType::Unconditional,
            parameter: Option::None,
        }
    } else if opcode == 0x57 {
        Instruction {
            description: "LD D,A",
            instruction_type: InstructionType::LD,
            operand_1: Operand::Register(RegisterType::D),
            operand_2: Operand::Register(RegisterType::A),
            condition: ConditionType::Unconditional,
            parameter: Option::None,
        }
    } else if opcode == 0x58 {
        Instruction {
            description: "LD E,B",
            instruction_type: InstructionType::LD,
            operand_1: Operand::Register(RegisterType::E),
            operand_2: Operand::Register(RegisterType::B),
            condition: ConditionType::Unconditional,
            parameter: Option::None,
        }
    } else if opcode == 0x59 {
        Instruction {
            description: "LD E,C",
            instruction_type: InstructionType::LD,
            operand_1: Operand::Register(RegisterType::E),
            operand_2: Operand::Register(RegisterType::C),
            condition: ConditionType::Unconditional,
            parameter: Option::None,
        }
    } else if opcode == 0x5A {
        Instruction {
            description: "LD E,D",
            instruction_type: InstructionType::LD,
            operand_1: Operand::Register(RegisterType::E),
            operand_2: Operand::Register(RegisterType::D),
            condition: ConditionType::Unconditional,
            parameter: Option::None,
        }
    } else if opcode == 0x5B {
        Instruction {
            description: "LD E,E",
            instruction_type: InstructionType::LD,
            operand_1: Operand::Register(RegisterType::E),
            operand_2: Operand::Register(RegisterType::E),
            condition: ConditionType::Unconditional,
            parameter: Option::None,
        }
    } else if opcode == 0x5C {
        Instruction {
            description: "LD E,H",
            instruction_type: InstructionType::LD,
            operand_1: Operand::Register(RegisterType::E),
            operand_2: Operand::Register(RegisterType::H),
            condition: ConditionType::Unconditional,
            parameter: Option::None,
        }
    } else if opcode == 0x5D {
        Instruction {
            description: "LD E,L",
            instruction_type: InstructionType::LD,
            operand_1: Operand::Register(RegisterType::E),
            operand_2: Operand::Register(RegisterType::L),
            condition: ConditionType::Unconditional,
            parameter: Option::None,
        }
    } else if opcode == 0x5E {
        Instruction {
            description: "LD E,(HL)",
            instruction_type: InstructionType::LD,
            operand_1: Operand::Register(RegisterType::E),
            operand_2: Operand::Indirect(RegisterType::HL),
            condition: ConditionType::Unconditional,
            parameter: Option::None,
        }
    } else if opcode == 0x5F {
        Instruction {
            description: "LD E,A",
            instruction_type: InstructionType::LD,
            operand_1: Operand::Register(RegisterType::E),
            operand_2: Operand::Register(RegisterType::A),
            condition: ConditionType::Unconditional,
            parameter: Option::None,
        }
    } else {
        Instruction {
            description: "NONE",
            instruction_type: InstructionType::NONE,
            operand_1: Operand::NoOperand,
            operand_2: Operand::NoOperand,
            condition: ConditionType::Unconditional,
            parameter: Option::None,
        }
    }
}

/// Decode-table entries $60..$6F.
pub open spec fn spec_instruction_row_6(opcode: u8) -> Instruction {
    if opcode == 0x60 {
        Instruction {
            description: "LD H,B",
            instruction_type: InstructionType::LD,
            operand_1: Operand::Register(RegisterType::H),
            operand_2: Operand::Register(RegisterType::B),
            condition: ConditionType::Unconditional,
            parameter: Option::None,
        }
    } else if opcode == 0x61 {
        Instruction {
            description: "LD H,C",
            instruction_type: InstructionType::LD,
            operand_1: Operand::Register(RegisterType::H),
            operand_2: Operand::Register(RegisterType::C),
            condition: ConditionType::Unconditional,
            parameter: Option::None,
        }
    } else if opcode == 0x62 {
        Instruction {
            description: "LD H,D",
            instruction_type: InstructionType::LD,
            operand_1: Operand::Register(RegisterType::H),
            operand_2: Operand::Register(RegisterType::D),
            condition: ConditionType::Unconditional,
            parameter: Option::None,
        }
    } else if opcode == 0x63 {
        Instruction {
            description: "LD H,E",
            instruction_type: InstructionType::LD,
            operand_1: Operand::Register(RegisterType::H),
            operand_2: Operand::Register(RegisterType::E),
            condition: ConditionType::Unconditional,
            parameter: Option::None,
        }
    } else if opcode == 0x64 {
        Instruction {
            description: "LD H,H",
            instruction_type: InstructionType::LD,
            operand_1: Operand::Register(RegisterType::H),
            operand_2: Operand::Register(RegisterType::H),
            condition: ConditionType::Unconditional,
            parameter: Option::None,
        }
    } else if opcode == 0x65 {
        Instruction {
            description: "LD H,L",
            instruction_type: InstructionType::LD,
            operand_1: Operand::Register(RegisterType::H),
            operand_2: Operand::Register(RegisterType::L),
            condition: ConditionType::Unconditional,
            parameter: Option::None,
        }
    } else if opcode == 0x66 {
        Instruction {
            description: "LD H,(HL)",
            instruction_type: InstructionType::LD,
            operand_1: Operand::Register(RegisterType::H),
            operand_2: Operand::Indirect(RegisterType::HL),
            condition: ConditionType::Unconditional,
            parameter: Option::None,
        }
    } else if opcode == 0x67 {
        Instruction {
            description: "LD H,A",
            instruction_type: InstructionType::LD,
            operand_1: Operand::Register(RegisterType::H),
            operand_2: Operand::Register(RegisterType::A),
            condition: ConditionType::Unconditional,
            parameter: Option::None,
        }
    } else if opcode == 0x68 {
        Instruction {
            description: "LD L,B",
            instruction_type: InstructionType::LD,
            operand_1: Operand::Register(RegisterType::L),
            operand_2: Operand::Register(RegisterType::B),
            condition: ConditionType::Unconditional,
            parameter: Option::None,
        }
    } else if opcode == 0x69 {
        Instruction {
            description: "LD L,C",
            instruction_type: InstructionType::LD,
            operand_1: Operand::Register(RegisterType::L),
            operand_2: Operand::Register(RegisterType::C),
            condition: ConditionType::Unconditional,
            parameter: Option::None,
        }
    } else if opcode == 0x6A {
        Instruction {
            description: "LD L,D",
            instruction_type: InstructionType::LD,
            operand_1: Operand::Register(RegisterType::L),
            operand_2: Operand::Register(RegisterType::D),
            condition: ConditionType::Unconditional,
            parameter: Option::None,
        }
    } else if opcode == 0x6B {
        Instruction {
            description: "LD L,E",
            instruction_type: InstructionType::LD,
            operand_1: Operand::Register(RegisterType::L),
            operand_2: Operand::Register(RegisterType::E),
            condition: ConditionType::Unconditional,
            parameter: Option::None,
        }
    } else if opcode == 0x6C {
        Instruction {
            description: "LD L,H",
            instruction_type: InstructionType::LD,
            operand_1: Operand::Register(RegisterType::L),
            operand_2: Operand::Register(RegisterType::H),
            condition: ConditionType::Unconditional,
            parameter: Option::None,
        }
    } else if opcode == 0x6D {
        Instruction {
            description: "LD L,L",
            instruction_type: InstructionType::LD,
            operand_1: Operand::Register(RegisterType::L),
            operand_2: Operand::Register(RegisterType::L),
            condition: ConditionType::Unconditional,
            parameter: Option::None,
        }
    } else if opcode == 0x6E {
        Instruction {
            description: "LD L,(HL)",
            instruction_type: InstructionType::LD,
            operand_1: Operand::Register(RegisterType::L),
            operand_2: Operand::Indirect(RegisterType::HL),
            condition: ConditionType::Unconditional,
            parameter: Option::None,
        }
    } else if opcode == 0x6F {
        Instruction {
            description: "LD L,A",
            instruction_type: InstructionType::LD,
            operand_1: Operand::Register(RegisterType::L),
            operand_2: Operand::Register(RegisterType::A),
            condition: ConditionType::Unconditional,
            parameter: Option::None,
        }
    } else {
        Instruction {
            description: "NONE",
            instruction_type: InstructionType::NONE,
            operand_1: Operand::NoOperand,
            operand_2: Operand::NoOperand,
            condition: ConditionType::Unconditional,
            parameter: Option::None,
        }
    }
}

/// Decode-table entries $70..$7F.
pub open spec fn spec_instruction_row_7(opcode: u8) -> Instruction {
    if opcode == 0x70 {
        Instruction {
            description: "LD (HL),B",
            instruction_type: InstructionType::LD,
            operand_1: Operand::Indirect(RegisterType::HL),
            operand_2: Operand::Register(RegisterType::B),
            condition: ConditionType::Unconditional,
            parameter: Option::None,
        }
    } else if opcode == 0x71 {
        Instruction {
            description: "LD (HL),C",
            instruction_type: InstructionType::LD,
            operand_1: Operand::Indirect(RegisterType::HL),
            operand_2: Operand::Register(RegisterType::C),
            condition: ConditionType::Unconditional,
            parameter: Option::None,
        }
    } else if opcode == 0x72 {
        Instruction {
            description: "LD (HL),D",
            instruction_type: InstructionType::LD,
            operand_1: Operand::Indirect(RegisterType::HL),
            operand_2: Operand::Register(RegisterType::D),
            condition: ConditionType::Unconditional,
            parameter: Option::None,
        }
    } else if opcode == 0x73 {
        Instruction {
            description: "LD (HL),E",
            instruction_type: InstructionType::LD,
            operand_1: Operand::Indirect(RegisterType::HL),
            operand_2: Operand::Register(RegisterType::E),
            condition: ConditionType::Unconditional,
            parameter: Option::None,
        }
    } else if opcode == 0x74 {
        Instruction {
            description: "LD (HL),H",
            instruction_type: InstructionType::LD,
            operand_1: Operand::Indirect(RegisterType::HL),
            operand_2: Operand::Register(RegisterType::H),
            condition: ConditionType::Unconditional,
            parameter: Option::None,
        }
    } else if opcode == 0x75 {
        Instruction {
            description: "LD (HL),L",
            instruction_type: InstructionType::LD,
            operand_1: Operand::Indirect(RegisterType::HL),
            operand_2: Operand::Register(RegisterType::L),
            condition: ConditionType::Unconditional,
            parameter: Option::None,
        }
    } else if opcode == 0x76 {
        Instruction {
            description: "HALT",
            instruction_type: InstructionType::HALT,
            operand_1: Operand::NoOperand,
            operand_2: Operand::NoOperand,
            condition: ConditionType::Unconditional,
            parameter: Option::None,
        }
    } else if opcode == 0x77 {
        Instruction {
            description: "LD (HL),A",
            instruction_type: InstructionType::LD,
            operand_1: Operand::Indirect(RegisterType::HL),
            operand_2: Operand::Register(RegisterType::A),
            condition: ConditionType::Unconditional,
            parameter: Option::None,
        }
    } else if opcode == 0x78 {
        Instruction {
            description: "LD A,B",
            instruction_type: InstructionType::LD,
            operand_1: Operand::Register(RegisterType::A),
            operand_2: Operand::Register(RegisterType::B),
            condition: ConditionType::Unconditional,
            parameter: Option::None,
        }
    } else if opcode == 0x79 {
        Instruction {
            description: "LD A,C",
            instruction_type: InstructionType::LD,
            operand_1: Operand::Register(RegisterType::A),
            operand_2: Operand::Register(RegisterType::C),
            condition: ConditionType::Unconditional,
            parameter: Option::None,
        }
    } else if opcode == 0x7A {
        Instruction {
            description: "LD A,D",
            instruction_type: InstructionType::LD,
            operand_1: Operand::Register(RegisterType::A),
            operand_2: Operand::Register(RegisterType::D),
            condition: ConditionType::Unconditional,
            parameter: Option::None,
        }
    } else if opcode == 0x7B {
        Instruction {
            description: "LD A,E",
            instruction_type: InstructionType::LD,
            operand_1: Operand::Register(RegisterType::A),
            operand_2: Operand::Register(RegisterType::E),
            condition: ConditionType::Unconditional,
            parameter: Option::None,
        }
    } else if opcode == 0x7C {
        Instruction {
            description: "LD A,H",
            instruction_type: InstructionType::LD,
            operand_1: Operand::Register(RegisterType::A),
            operand_2: Operand::Register(RegisterType::H),
            condition: ConditionType::Unconditional,
            parameter: Option::None,
        }
    } else if opcode == 0x7D {
        Instruction {
            description: "LD A,L",
            instruction_type: InstructionType::LD,
            operand_1: Operand::Register(RegisterType::A),
            operand_2: Operand::Register(RegisterType::L),
            condition: ConditionType::Unconditional,
            parameter: Option::None,
        }
    } else if opcode == 0x7E {
        Instruction {
            description: "LD A,(HL)",
            instruction_type: InstructionType::LD,
            operand_1: Operand::Register(RegisterType::A),
            operand_2: Operand::Indirect(RegisterType::HL),
            condition: ConditionType::Unconditional,
            parameter: Option::None,
        }
    } else if opcode == 0x7F {
        Instruction {
            description: "LD A,A",
            instruction_type: InstructionType::LD,
            operand_1: Operand::Register(RegisterType::A),
            operand_2: Operand::Register(RegisterType::A),
            condition: ConditionType::Unconditional,
            parameter: Option::None,
        }
    } else {
        Instruction {
            description: "NONE",
            instruction_type: InstructionType::NONE,
            operand_1: Operand::NoOperand,
            operand_2: Operand::NoOperand,
            condition: ConditionType::Unconditional,
            parameter: Option::None,
        }
    }
}

/// Decode-table entries $80..$8F.
pub open spec fn spec_instruction_row_8(opcode: u8) -> Instruction {
    if opcode == 0x80 {
        Instruction {
            description: "ADD A,B",
            instruction_type: InstructionType::ADD,
            operand_1: Operand::Register(RegisterType::A),
            operand_2: Operand::Register(RegisterType::B),
            condition: ConditionType::Unconditional,
            parameter: Option::None,
        }
    } else if opcode == 0x81 {
        Instruction {
            description: "ADD A,C",
            instruction_type: InstructionType::ADD,
            operand_1: Operand::Register(RegisterType::A),
            operand_2: Operand::Register(RegisterType::C),
            condition: ConditionType::Unconditional,
            parameter: Option::None,
        }
    } else if opcode == 0x82 {
        Instruction {
            description: "ADD A,D",
            instruction_type: InstructionType::ADD,
            operand_1: Operand::Register(RegisterType::A),
            operand_2: Operand::Register(RegisterType::D),
            condition: ConditionType::Unconditional,
            parameter: Option::None,
        }
    } else if opcode == 0x83 {
        Instruction {
            description: "ADD A,E",
            instruction_type: InstructionType::ADD,
            operand_1: Operand::Register(RegisterType::A),
            operand_2: Operand::Register(RegisterType::E),
            condition: ConditionType::Unconditional,
            parameter: Option::None,
        }
    } else if opcode == 0x84 {
        Instruction {
            description: "ADD A,H",
            instruction_type: InstructionType::ADD,
            operand_1: Operand::Register(RegisterType::A),
            operand_2: Operand::Register(RegisterType::H),
            condition: ConditionType::Unconditional,
            parameter: Option::None,
        }
    } else if opcode == 0x85 {
        Instruction {
            description: "ADD A,L",
            instruction_type: InstructionType::ADD,
            operand_1: Operand::Register(RegisterType::A),
            operand_2: Operand::Register(RegisterType::L),
            condition: ConditionType::Unconditional,
            parameter: Option::None,
        }
    } else if opcode == 0x86 {
        Instruction {
            description: "ADD A,(HL)",
            instruction_type: InstructionType::ADD,
            operand_1: Operand::Register(RegisterType::A),
            operand_2: Operand::Indirect(RegisterType::HL),
            condition: ConditionType::Unconditional,
            parameter: Option::None,
        }
    } else if opcode == 0x87 {
        Instruction {
            description: "ADD A,A",
            instruction_type: InstructionType::ADD,
            operand_1: Operand::Register(RegisterType::A),
            operand_2: Operand::Register(RegisterType::A),
            condition: ConditionType::Unconditional,
            parameter: Option::None,
        }
    } else if opcode == 0x88 {
        Instruction {
            description: "ADC A,B",
            instruction_type: InstructionType::ADC,
            operand_1: Operand::Register(RegisterType::A),
            operand_2: Operand::Register(RegisterType::B),
            condition: ConditionType::Unconditional,
            parameter: Option::None,
        }
    } else if opcode == 0x89 {
        Instruction {
            description: "ADC A,C",
            instruction_type: InstructionType::ADC,
            operand_1: Operand::Register(RegisterType::A),
            operand_2: Operand::Register(RegisterType::C),
            condition: ConditionType::Unconditional,
            parameter: Option::None,
        }
    } else if opcode == 0x8A {
        Instruction {
            description: "ADC A,D",
            instruction_type: InstructionType::ADC,
            operand_1: Operand::Register(RegisterType::A),
            operand_2: Operand::Register(RegisterType::D),
            condition: ConditionType::Unconditional,
            parameter: Option::None,
        }
    } else if opcode == 0x8B {
        Instruction {
            description: "ADC A,E",
            instruction_type: InstructionType::ADC,
            operand_1: Operand::Register(RegisterType::A),
            operand_2: Operand::Register(RegisterType::E),
            condition: ConditionType::Unconditional,
            parameter: Option::None,
        }
    } else if opcode == 0x8C {
        Instruction {
            description: "ADC A,H",
            instruction_type: InstructionType::ADC,
            operand_1: Operand::Register(RegisterType::A),
            operand_2: Operand::Register(RegisterType::H),
            condition: ConditionType::Unconditional,
            parameter: Option::None,
        }
    } else if opcode == 0x8D {
        Instruction {
            description: "ADC A,L",
            instruction_type: InstructionType::ADC,
            operand_1: Operand::Register(RegisterType::A),
            operand_2: Operand::Register(RegisterType::L),
            condition: ConditionType::Unconditional,
            parameter: Option::None,
        }
    } else if opcode == 0x8E {
        Instruction {
            description: "ADC A,(HL)",
            instruction_type: InstructionType::ADC,
            operand_1: Operand::Register(RegisterType::A),
            operand_2: Operand::Indirect(RegisterType::HL),
            condition: ConditionType::Unconditional,
            parameter: Option::None,
        }
    } else if opcode == 0x8F {
        Instruction {
            description: "ADC A,A",
            instruction_type: InstructionType::ADC,
            operand_1: Operand::Register(RegisterType::A),
            operand_2: Operand::Register(RegisterType::A),
            condition: ConditionType::Unconditional,
            parameter: Option::None,
        }
    } else {
        Instruction {
            description: "NONE",
            instruction_type: InstructionType::NONE,
            operand_1: Operand::NoOperand,
            operand_2: Operand::NoOperand,
            condition: ConditionType::Unconditional,
            parameter: Option::None,
        }
    }
}

/// Decode-table entries $90..$9F.
pub open spec fn spec_instruction_row_9(opcode: u8) -> Instruction {
    if opcode == 0x90 {
        Instruction {
            description: "SUB B",
            instruction_type: InstructionType::SUB,
            operand_1: Operand::Register(RegisterType::B),
            operand_2: Operand::NoOperand,
            condition: ConditionType::Unconditional,
            parameter: Option::None,
        }
    } else if opcode == 0x91 {
        Instruction {
            description: "SUB C",
            instruction_type: InstructionType::SUB,
            operand_1: Operand::Register(RegisterType::C),
            operand_2: Operand::NoOperand,
            condition: ConditionType::Unconditional,
            parameter: Option::None,
        }
    } else if opcode == 0x92 {
        Instruction {
            description: "SUB D",
            instruction_type: InstructionType::SUB,
            operand_1: Operand::Register(RegisterType::D),
            operand_2: Operand::NoOperand,
            condition: ConditionType::Unconditional,
            parameter: Option::None,
        }
    } else if opcode == 0x93 {
        Instruction {
            description: "SUB E",
            instruction_type: InstructionType::SUB,
            operand_1: Operand::Register(RegisterType::E),
            operand_2: Operand::NoOperand,
            condition: ConditionType::Unconditional,
            parameter: Option::None,
        }
    } else if opcode == 0x94 {
        Instruction {
            description: "SUB H",
            instruction_type: InstructionType::SUB,
            operand_1: Operand::Register(RegisterType::H),
            operand_2: Operand::NoOperand,
            condition: ConditionType::Unconditional,
            parameter: Option::None,
        }
    } else if opcode == 0x95 {
        Instruction {
            description: "SUB L",
            instruction_type: InstructionType::SUB,
            operand_1: Operand::Register(RegisterType::L),
            operand_2: Operand::NoOperand,
            condition: ConditionType::Unconditional,
            parameter: Option::None,
        }
    } else if opcode == 0x96 {
        Instruction {
            description: "SUB (HL)",
            instruction_type: InstructionType::SUB,
            operand_1: Operand::Indirect(RegisterType::HL),
            operand_2: Operand::NoOperand,
            condition: ConditionType::Unconditional,
            parameter: Option::None,
        }
    } else if opcode == 0x97 {
        Instruction {
            description: "SUB A",
            instruction_type: InstructionType::SUB,
            operand_1: Operand::Register(RegisterType::A),
            operand_2: Operand::NoOperand,
            condition: ConditionType::Unconditional,
            parameter: Option::None,
        }
    } else if opcode == 0x98 {
        Instruction {
            description: "SBC A B",
            instruction_type: InstructionType::SBC,
            operand_1: Operand::Register(RegisterType::A),
            operand_2: Operand::Register(RegisterType::B),
            condition: ConditionType::Unconditional,
            parameter: Option::None,
        }
    } else if opcode == 0x99 {
        Instruction {
            description: "SBC A C",
            instruction_type: InstructionType::SBC,
            operand_1: Operand::Register(RegisterType::A),
            operand_2: Operand::Register(RegisterType::C),
            condition: ConditionType::Unconditional,
            parameter: Option::None,
        }
    } else if opcode == 0x9A {
        Instruction {
            description: "SBC A D",
            instruction_type: InstructionType::SBC,
            operand_1: Operand::Register(RegisterType::A),
            operand_2: Operand::Register(RegisterType::D),
            condition: ConditionType::Unconditional,
            parameter: Option::None,
        }
    } else if opcode == 0x9B {
        Instruction {
            description: "SBC A E",
            instruction_type: InstructionType::SBC,
            operand_1: Operand::Register(RegisterType::A),
            operand_2: Operand::Register(RegisterType::E),
            condition: ConditionType::Unconditional,
            parameter: Option::None,
        }
    } else if opcode == 0x9C {
        Instruction {
            description: "SBC A H",
            instruction_type: InstructionType::SBC,
            operand_1: Operand::Register(RegisterType::A),
            operand_2: Operand::Register(RegisterType::H),
            condition: ConditionType::Unconditional,
            parameter: Option::None,
        }
    } else if opcode == 0x9D {
        Instruction {
            description: "SBC A L",
            instruction_type: InstructionType::SBC,
            operand_1: Operand::Register(RegisterType::A),
            operand_2: Operand::Register(RegisterType::L),
            condition: ConditionType::Unconditional,
            parameter: Option::None,
        }
    } else if opcode == 0x9E {
        Instruction {
            description: "SBC A (HL)",
            instruction_type: InstructionType::SBC,
            operand_1: Operand::Register(RegisterType::A),
            operand_2: Operand::Indirect(RegisterType::HL),
            condition: ConditionType::Unconditional,
            parameter: Option::None,
        }
    } else if opcode == 0x9F {
        Instruction {
            description: "SBC A A",
            instruction_type: InstructionType::SBC,
            operand_1: Operand::Register(RegisterType::A),
            operand_2: Operand::Register(RegisterType::A),
            condition: ConditionType::Unconditional,
            parameter: Option::None,
        }
    } else {
        Instruction {
            description: "NONE",
            instruction_type: InstructionType::NONE,
            operand_1: Operand::NoOperand,
            operand_2: Operand::NoOperand,
            condition: ConditionType::Unconditional,
            parameter: Option::None,
        }
    }
}

/// Decode-table entries $A0..$AF.
pub open spec fn spec_instruction_row_a(opcode: u8) -> Instruction {
    if opcode == 0xA0 {
        Instruction {
            description: "AND B",
            instruction_type: InstructionType::AND,
            operand_1: Operand::Register(RegisterType::B),
            operand_2: Operand::NoOperand,
            condition: ConditionType::Unconditional,
            parameter: Option::None,
        }
    } else if opcode == 0xA1 {
        Instruction {
            description: "AND C",
            instruction_type: InstructionType::AND,
            operand_1: Operand::Register(RegisterType::C),
            operand_2: Operand::NoOperand,
            condition: ConditionType::Unconditional,
            parameter: Option::None,
        }
    } else if opcode == 0xA2 {
        Instruction {
            description: "AND D",
            instruction_type: InstructionType::AND,
            operand_1: Operand::Register(RegisterType::D),
            operand_2: Operand::NoOperand,
            condition: ConditionType::Unconditional,
            parameter: Option::None,
        }
    } else if opcode == 0xA3 {
        Instruction {
            description: "AND E",
            instruction_type: InstructionType::AND,
            operand_1: Operand::Register(RegisterType::E),
            operand_2: Operand::NoOperand,
            condition: ConditionType::Unconditional,
            parameter: Option::None,
        }
    } else if opcode == 0xA4 {
        Instruction {
            description: "AND H",
            instruction_type: InstructionType::AND,
            operand_1: Operand::Register(RegisterType::H),
            operand_2: Operand::NoOperand,
            condition: ConditionType::Unconditional,
            parameter: Option::None,
        }
    } else if opcode == 0xA5 {
        Instruction {
            description: "AND L",
            instruction_type: InstructionType::AND,
            operand_1: Operand::Register(RegisterType::L),
            operand_2: Operand::NoOperand,
            condition: ConditionType::Unconditional,
            parameter: Option::None,
        }
    } else if opcode == 0xA6 {
        Instruction {
            description: "AND (HL)",
            instruction_type: InstructionType::AND,
            operand_1: Operand::Indirect(RegisterType::HL),
            operand_2: Operand::NoOperand,
            condition: ConditionType::Unconditional,
            parameter: Option::None,
        }
    } else if opcode == 0xA7 {
        Instruction {
            description: "AND A",
            instruction_type: InstructionType::AND,
            operand_1: Operand::Register(RegisterType::A),
            operand_2: Operand::NoOperand,
            condition: ConditionType::Unconditional,
            parameter: Option::None,
        }
    } else if opcode == 0xA8 {
        Instruction {
            description: "XOR B",
            instruction_type: InstructionType::XOR,
            operand_1: Operand::Register(RegisterType::B),
            operand_2: Operand::NoOperand,
            condition: ConditionType::Unconditional,
            parameter: Option::None,
        }
    } else if opcode == 0xA9 {
        Instruction {
            description: "XOR C",
            instruction_type: InstructionType::XOR,
            operand_1: Operand::Register(RegisterType::C),
            operand_2: Operand::NoOperand,
            condition: ConditionType::Unconditional,
            parameter: Option::None,
        }
    } else if opcode == 0xAA {
        Instruction {
            description: "XOR D",
            instruction_type: InstructionType::XOR,
            operand_1: Operand::Register(RegisterType::D),
            operand_2: Operand::NoOperand,
            condition: ConditionType::Unconditional,
            parameter: Option::None,
        }
    } else if opcode == 0xAB {
        Instruction {
            description: "XOR E",
            instruction_type: InstructionType::XOR,
            operand_1: Operand::Register(RegisterType::E),
            operand_2: Operand::NoOperand,
            condition: ConditionType::Unconditional,
            parameter: Option::None,
        }
    } else if opcode == 0xAC {
        Instruction {
            description: "XOR H",
            instruction_type: InstructionType::XOR,
            operand_1: Operand::Register(RegisterType::H),
            operand_2: Operand::NoOperand,
            condition: ConditionType::Unconditional,
            parameter: Option::None,
        }
    } else if opcode == 0xAD {
        Instruction {
            description: "XOR L",
            instruction_type: InstructionType::XOR,
            operand_1: Operand::Register(RegisterType::L),
            operand_2: Operand::NoOperand,
            condition: ConditionType::Unconditional,
            parameter: Option::None,
        }
    } else if opcode == 0xAE {
        Instruction {
            description: "XOR (HL)",
            instruction_type: InstructionType::XOR,
            operand_1: Operand::Indirect(RegisterType::HL),
            operand_2: Operand::NoOperand,
            condition: ConditionType::Unconditional,
            parameter: Option::None,
        }
    } else if opcode == 0xAF {
        Instruction {
            description: "XOR A",
            instruction_type: InstructionType::XOR,
            operand_1: Operand::Register(RegisterType::A),
            operand_2: Operand::NoOperand,
            condition: ConditionType::Unconditional,
            parameter: Option::None,
        }
    } else {
        Instruction {
            description: "NONE",
            instruction_type: InstructionType::NONE,
            operand_1: Operand::NoOperand,
            operand_2: Operand::NoOperand,
            condition: ConditionType::Unconditional,
            parameter: Option::None,
        }
    }
}

/// Decode-table entries $B0..$BF.
pub open spec fn spec_instruction_row_b(opcode: u8) -> Instruction {
    if opcode == 0xB0 {
        Instruction {
            description: "OR B",
            instruction_type: InstructionType::OR,
            operand_1: Operand::Register(RegisterType::B),
            operand_2: Operand::NoOperand,
            condition: ConditionType::Unconditional,
            parameter: Option::None,
        }
    } else if opcode == 0xB1 {
        Instruction {
            description: "OR C",
            instruction_type: InstructionType::OR,
            operand_1: Operand::Register(RegisterType::C),
            operand_2: Operand::NoOperand,
            condition: ConditionType::Unconditional,
            parameter: Option::None,
        }
    } else if opcode == 0xB2 {
        Instruction {
            description: "OR D",
            instruction_type: InstructionType::OR,
            operand_1: Operand::Register(RegisterType::D),
            operand_2: Operand::NoOperand,
            condition: ConditionType::Unconditional,
            parameter: Option::None,
        }
    } else if opcode == 0xB3 {
        Instruction {
            description: "OR E",
            instruction_type: InstructionType::OR,
            operand_1: Operand::Register(RegisterType::E),
            operand_2: Operand::NoOperand,
            condition: ConditionType::Unconditional,
            parameter: Option::None,
        }
    } else if opcode == 0xB4 {
        Instruction {
            description: "OR H",
            instruction_type: InstructionType::OR,
            operand_1: Operand::Register(RegisterType::H),
            operand_2: Operand::NoOperand,
            condition: ConditionType::Unconditional,
            parameter: Option::None,
        }
    } else if opcode == 0xB5 {
        Instruction {
            description: "OR L",
            instruction_type: InstructionType::OR,
            operand_1: Operand::Register(RegisterType::L),
            operand_2: Operand::NoOperand,
            condition: ConditionType::Unconditional,
            parameter: Option::None,
        }
    } else if opcode == 0xB6 {
        Instruction {
            description: "OR (HL)",
            instruction_type: InstructionType::OR,
            operand_1: Operand::Indirect(RegisterType::HL),
            operand_2: Operand::NoOperand,
            condition: ConditionType::Unconditional,
            parameter: Option::None,
        }
    } else if opcode == 0xB7 {
        Instruction {
            description: "OR A",
            instruction_type: InstructionType::OR,
            operand_1: Operand::Register(RegisterType::A),
            operand_2: Operand::NoOperand,
            condition: ConditionType::Unconditional,
            parameter: Option::None,
        }
    } else if opcode == 0xB8 {
        Instruction {
            description: "CP B",
            instruction_type: InstructionType::CP,
            operand_1: Operand::Register(RegisterType::B),
            operand_2: Operand::NoOperand,
            condition: ConditionType::Unconditional,
            parameter: Option::None,
        }
    } else if opcode == 0xB9 {
        Instruction {
            description: "CP C",
            instruction_type: InstructionType::CP,
            operand_1: Operand::Register(RegisterType::C),
            operand_2: Operand::NoOperand,
            condition: ConditionType::Unconditional,
            parameter: Option::None,
        }
    } else if opcode == 0xBA {
        Instruction {
            description: "CP D",
            instruction_type: InstructionType::CP,
            operand_1: Operand::Register(RegisterType::D),
            operand_2: Operand::NoOperand,
            condition: ConditionType::Unconditional,
            parameter: Option::None,
        }
    } else if opcode == 0xBB {
        Instruction {
            description: "CP E",
            instruction_type: InstructionType::CP,
            operand_1: Operand::Register(RegisterType::E),
            operand_2: Operand::NoOperand,
            condition: ConditionType::Unconditional,
            parameter: Option::None,
        }
    } else if opcode == 0xBC {
        Instruction {
            description: "CP H",
            instruction_type: InstructionType::CP,
            operand_1: Operand::Register(RegisterType::H),
            operand_2: Operand::NoOperand,
            condition: ConditionType::Unconditional,
            parameter: Option::None,
        }
    } else if opcode == 0xBD {
        Instruction {
            description: "CP L",
            instruction_type: InstructionType::CP,
            operand_1: Operand::Register(RegisterType::L),
            operand_2: Operand::NoOperand,
            condition: ConditionType::Unconditional,
            parameter: Option::None,
        }
    } else if opcode == 0xBE {
        Instruction {
            description: "CP (HL)",
            instruction_type: InstructionType::CP,
            operand_1: Operand::Indirect(RegisterType::HL),
            operand_2: Operand::NoOperand,
            condition: ConditionType::Unconditional,
            parameter: Option::None,
        }
    } else if opcode == 0xBF {
        Instruction {
            description: "CP A",
            instruction_type: InstructionType::CP,
            operand_1: Operand::Register(RegisterType::A),
            operand_2: Operand::NoOperand,
            condition: ConditionType::Unconditional,
            parameter: Option::None,
        }
    } else {
        Instruction {
            description: "NONE",
            instruction_type: InstructionType::NONE,
            operand_1: Operand::NoOperand,
            operand_2: Operand::NoOperand,
            condition: ConditionType::Unconditional,
            parameter: Option::None,
        }
    }
}

/// Decode-table entries $C0..$CF.
pub open spec fn spec_instruction_row_c(opcode: u8) -> Instruction {
    if opcode == 0xC0 {
        Instruction {
            description: "RET NZ",
            instruction_type: InstructionType::RET,
            operand_1: Operand::NoOperand,
            operand_2: Operand::NoOperand,
            condition: ConditionType::NZ,
            parameter: Option::None,
        }
    } else if opcode == 0xC1 {
        Instruction {
            description: "POP BC",
            instruction_type: InstructionType::POP,
            operand_1: Operand::Register(RegisterType::BC),
            operand_2: Operand::NoOperand,
            condition: ConditionType::Unconditional,
            parameter: Option::None,
        }
    } else if opcode == 0xC2 {
        Instruction {
            description: "JP NZ,a16",
            instruction_type: InstructionType::JP,
            operand_1: Operand::A16,
            operand_2: Operand::NoOperand,
            condition: ConditionType::NZ,
            parameter: Option::None,
        }
    } else if opcode == 0xC3 {
        Instruction {
            description: "JP a16",
            instruction_type: InstructionType::JP,
            operand_1: Operand::A16,
            operand_2: Operand::NoOperand,
            condition: ConditionType::Unconditional,
            parameter: Option::None,
        }
    } else if opcode == 0xC4 {
        Instruction {
            description: "CALL NZ,a16",
            instruction_type: InstructionType::CALL,
            operand_1: Operand::A16,
            operand_2: Operand::NoOperand,
            condition: ConditionType::NZ,
            parameter: Option::None,
        }
    } else if opcode == 0xC5 {
        Instruction {
            description: "PUSH BC",
            instruction_type: InstructionType::PUSH,
            operand_1: Operand::Register(RegisterType::BC),
            operand_2: Operand::NoOperand,
            condition: ConditionType::Unconditional,
            parameter: Option::None,
        }
    } else if opcode == 0xC6 {
        Instruction {
            description: "ADD A,d8",
            instruction_type: InstructionType::ADD,
            operand_1: Operand::Register(RegisterType::A),
            operand_2: Operand::D8,
            condition: ConditionType::Unconditional,
            parameter: Option::None,
        }
    } else if opcode == 0xC7 {
        Instruction {
            description: "RST 00H",
            instruction_type: InstructionType::RST,
            operand_1: Operand::NoOperand,
            operand_2: Operand::NoOperand,
            condition: ConditionType::Unconditional,
            parameter: Option::Some(0x00),
        }
    } else if opcode == 0xC8 {
        Instruction {
            description: "RET Z",
            instruction_type: InstructionType::RET,
            operand_1: Operand::NoOperand,
            operand_2: Operand::NoOperand,
            condition: ConditionType::Z,
            parameter: Option::None,
        }
    } else if opcode == 0xC9 {
        Instruction {
            description: "RET",
            instruction_type: InstructionType::RET,
            operand_1: Operand::NoOperand,
            operand_2: Operand::NoOperand,
            condition: ConditionType::Unconditional,
            parameter: Option::None,
        }
    } else if opcode == 0xCA {
        Instruction {
            description: "JP Z,a16",
            instruction_type: InstructionType::JP,
            operand_1: Operand::A16,
            operand_2: Operand::NoOperand,
            condition: ConditionType::Z,
            parameter: Option::None,
        }
    } else if opcode == 0xCB {
        Instruction {
            description: "CB d8",
            instruction_type: InstructionType::CB,
            operand_1: Operand::D8,
            operand_2: Operand::NoOperand,
            condition: ConditionType::Unconditional,
            parameter: Option::None,
        }
    } else if opcode == 0xCC {
        Instruction {
            description: "CALL Z,a16",
            instruction_type: InstructionType::CALL,
            operand_1: Operand::A16,
            operand_2: Operand::NoOperand,
            condition: ConditionType::Z,
            parameter: Option::None,
        }
    } else if opcode == 0xCD {
        Instruction {
            description: "CALL a16",
            instruction_type: InstructionType::CALL,
            operand_1: Operand::A16,
            operand_2: Operand::NoOperand,
            condition: ConditionType::Unconditional,
            parameter: Option::None,
        }
    } else if opcode == 0xCE {
        Instruction {
            description: "ADC A,d8",
            instruction_type: InstructionType::ADC,
            operand_1: Operand::Register(RegisterType::A),
            operand_2: Operand::D8,
            condition: ConditionType::Unconditional,
            parameter: Option::None,
        }
    } else if opcode == 0xCF {
        Instruction {
            description: "RST 08H",
            instruction_type: InstructionType::RST,
            operand_1: Operand::NoOperand,
            operand_2: Operand::NoOperand,
            condition: ConditionType::Unconditional,
            parameter: Option::Some(0x08),
        }
    } else {
        Instruction {
            description: "NONE",
            instruction_type: InstructionType::NONE,
            operand_1: Operand::NoOperand,
            operand_2: Operand::NoOperand,
            condition: ConditionType::Unconditional,
            parameter: Option::None,
        }
    }
}

/// Decode-table entries $D0..$DF.
pub open spec fn spec_instruction_row_d(opcode: u8) -> Instruction {
    if opcode == 0xD0 {
        Instruction {
            description: "RET NC",
            instruction_type: InstructionType::RET,
            operand_1: Operand::NoOperand,
            operand_2: Operand::NoOperand,
            condition: ConditionType::NC,
            parameter: Option::None,
        }
    } else if opcode == 0xD1 {
        Instruction {
            description: "POP DE",
            instruction_type: InstructionType::POP,
            operand_1: Operand::Register(RegisterType::DE),
            operand_2: Operand::NoOperand,
            condition: ConditionType::Unconditional,
            parameter: Option::None,
        }
    } else if opcode == 0xD2 {
        Instruction {
            description: "JP NC,a16",
            instruction_type: InstructionType::JP,
            operand_1: Operand::A16,
            operand_2: Operand::NoOperand,
            condition: ConditionType::NC,
            parameter: Option::None,
        }
    } else if opcode == 0xD3 {
        Instruction {
            description: "NONE",
            instruction_type: InstructionType::NONE,
            operand_1: Operand::NoOperand,
            operand_2: Operand::NoOperand,
            condition: ConditionType::Unconditional,
            parameter: Option::None,
        }
    } else if opcode == 0xD4 {
        Instruction {
            description: "CALL NC,a16",
            instruction_type: InstructionType::CALL,
            operand_1: Operand::A16,
            operand_2: Operand::NoOperand,
            condition: ConditionType::NC,
            parameter: Option::None,
        }
    } else if opcode == 0xD5 {
        Instruction {
            description: "PUSH DE",
            instruction_type: InstructionType::PUSH,
            operand_1: Operand::Register(RegisterType::DE),
            operand_2: Operand::NoOperand,
            condition: ConditionType::Unconditional,
            parameter: Option::None,
        }
    } else if opcode == 0xD6 {
        Instruction {
            description: "SUB d8",
            instruction_type: InstructionType::SUB,
            operand_1: Operand::D8,
            operand_2: Operand::NoOperand,
            condition: ConditionType::Unconditional,
            parameter: Option::None,
        }
    } else if opcode == 0xD7 {
        Instruction {
            description: "RST 10H",
            instruction_type: InstructionType::RST,
            operand_1: Operand::NoOperand,
            operand_2: Operand::NoOperand,
            condition: ConditionType::Unconditional,
            parameter: Option::Some(0x10),
        }
    } else if opcode == 0xD8 {
        Instruction {
            description: "RET C",
            instruction_type: InstructionType::RET,
            operand_1: Operand::NoOperand,
            operand_2: Operand::NoOperand,
            condition: ConditionType::C,
            parameter: Option::None,
        }
    } else if opcode == 0xD9 {
        Instruction {
            description: "RETI",
            instruction_type: InstructionType::RETI,
            operand_1: Operand::NoOperand,
            operand_2: Operand::NoOperand,
            condition: ConditionType::Unconditional,
            parameter: Option::None,
        }
    } else if opcode == 0xDA {
        Instruction {
            description: "JP C,a16",
            instruction_type: InstructionType::JP,
            operand_1: Operand::A16,
            operand_2: Operand::NoOperand,
            condition: ConditionType::C,
            parameter: Option::None,
        }
    } else if opcode == 0xDB {
        Instruction {
            description: "NONE",
            instruction_type: InstructionType::NONE,
            operand_1: Operand::NoOperand,
            operand_2: Operand::NoOperand,
            condition: ConditionType::Unconditional,
            parameter: Option::None,
        }
    } else if opcode == 0xDC {
        Instruction {
            description: "CALL C,a16",
            instruction_type: InstructionType::CALL,
            operand_1: Operand::A16,
            operand_2: Operand::NoOperand,
            condition: ConditionType::C,
            parameter: Option::None,
        }
    } else if opcode == 0xDD {
        Instruction {
            description: "NONE",
            instruction_type: InstructionType::NONE,
            operand_1: Operand::NoOperand,
            operand_2: Operand::NoOperand,
            condition: ConditionType::Unconditional,
            parameter: Option::None,
        }
    } else if opcode == 0xDE {
        Instruction {
            description: "SBC A d8",
            instruction_type: InstructionType::SBC,
            operand_1: Operand::Register(RegisterType::A),
            operand_2: Operand::D8,
            condition: ConditionType::Unconditional,
            parameter: Option::None,
        }
    } else if opcode == 0xDF {
        Instruction {
            description: "RST 18H",
            instruction_type: InstructionType::RST,
            operand_1: Operand::NoOperand,
            operand_2: Operand::NoOperand,
            condition: ConditionType::Unconditional,
            parameter: Option::Some(0x18),
        }
    } else {
        Instruction {
            description: "NONE",
            instruction_type: InstructionType::NONE,
            operand_1: Operand::NoOperand,
            operand_2: Operand::NoOperand,
            condition: ConditionType::Unconditional,
            parameter: Option::None,
        }
    }
}

/// Decode-table entries $E0..$EF.
pub open spec fn spec_instruction_row_e(opcode: u8) -> Instruction {
    if opcode == 0xE0 {
        Instruction {
            description: "LDH (a8),A",
            instruction_type: InstructionType::LDH,
            operand_1: Operand::A8Indirect,
            operand_2: Operand::Register(RegisterType::A),
            condition: ConditionType::Unconditional,
            parameter: Option::None,
        }
    } else if opcode == 0xE1 {
        Instruction {
            description: "POP HL",
            instruction_type: InstructionType::POP,
            operand_1: Operand::Register(RegisterType::HL),
            operand_2: Operand::NoOperand,
            condition: ConditionType::Unconditional,
            parameter: Option::None,
        }
    } else if opcode == 0xE2 {
        Instruction {
            description: "LD (C),A",
            instruction_type: InstructionType::LD,
            operand_1: Operand::Indirect(RegisterType::C),
            operand_2: Operand::Register(RegisterType::A),
            condition: ConditionType::Unconditional,
            parameter: Option::None,
        }
    } else if opcode == 0xE3 {
        Instruction {
            description: "NONE",
            instruction_type: InstructionType::NONE,
            operand_1: Operand::NoOperand,
            operand_2: Operand::NoOperand,
            condition: ConditionType::Unconditional,
            parameter: Option::None,
        }
    } else if opcode == 0xE4 {
        Instruction {
            description: "NONE",
            instruction_type: InstructionType::NONE,
            operand_1: Operand::NoOperand,
            operand_2: Operand::NoOperand,
            condition: ConditionType::Unconditional,
            parameter: Option::None,
        }
    } else if opcode == 0xE5 {
        Instruction {
            description: "PUSH HL",
            instruction_type: InstructionType::PUSH,
            operand_1: Operand::Register(RegisterType::HL),
            operand_2: Operand::NoOperand,
            condition: ConditionType::Unconditional,
            parameter: Option::None,
        }
    } else if opcode == 0xE6 {
        Instruction {
            description: "AND d8",
            instruction_type: InstructionType::AND,
            operand_1: Operand::D8,
            operand_2: Operand::NoOperand,
            condition: ConditionType::Unconditional,
            parameter: Option::None,
        }
    } else if opcode == 0xE7 {
        Instruction {
            description: "RST 20H",
            instruction_type: InstructionType::RST,
            operand_1: Operand::NoOperand,
            operand_2: Operand::NoOperand,
            condition: ConditionType::Unconditional,
            parameter: Option::Some(0x20),
        }
    } else if opcode == 0xE8 {
        Instruction {
            description: "ADD SP,r8",
            instruction_type: InstructionType::ADD,
            operand_1: Operand::Register(RegisterType::SP),
            operand_2: Operand::R8,
            condition: ConditionType::Unconditional,
            parameter: Option::None,
        }
    } else if opcode == 0xE9 {
        Instruction {
            description: "JP HL",
            instruction_type: InstructionType::JP,
            operand_1: Operand::Register(RegisterType::HL),
            operand_2: Operand::NoOperand,
            condition: ConditionType::Unconditional,
            parameter: Option::None,
        }
    } else if opcode == 0xEA {
        Instruction {
            description: "LD (a16),A",
            instruction_type: InstructionType::LD,
            operand_1: Operand::A16Indirect,
            operand_2: Operand::Register(RegisterType::A),
            condition: ConditionType::Unconditional,
            parameter: Option::None,
        }
    } else if opcode == 0xEB {
        Instruction {
            description: "NONE",
            instruction_type: InstructionType::NONE,
            operand_1: Operand::NoOperand,
            operand_2: Operand::NoOperand,
            condition: ConditionType::Unconditional,
            parameter: Option::None,
        }
    } else if opcode == 0xEC {
        Instruction {
            description: "NONE",
            instruction_type: InstructionType::NONE,
            operand_1: Operand::NoOperand,
            operand_2: Operand::NoOperand,
            condition: ConditionType::Unconditional,
            parameter: Option::None,
        }
    } else if opcode == 0xED {
        Instruction {
            description: "NONE",
            instruction_type: InstructionType::NONE,
            operand_1: Operand::NoOperand,
            operand_2: Operand::NoOperand,
            condition: ConditionType::Unconditional,
            parameter: Option::None,
        }
    } else if opcode == 0xEE {
        Instruction {
            description: "XOR d8",
            instruction_type: InstructionType::XOR,
            operand_1: Operand::D8,
            operand_2: Operand::NoOperand,
            condition: ConditionType::Unconditional,
            parameter: Option::None,
        }
    } else if opcode == 0xEF {
        Instruction {
            description: "RST 28H",
            instruction_type: InstructionType::RST,
            operand_1: Operand::NoOperand,
            operand_2: Operand::NoOperand,
            condition: ConditionType::Unconditional,
            parameter: Option::Some(0x28),
        }
    } else {
        Instruction {
            description: "NONE",
            instruction_type: InstructionType::NONE,
            operand_1: Operand::NoOperand,
            operand_2: Operand::NoOperand,
            condition: ConditionType::Unconditional,
            parameter: Option::None,
        }
    }
}

/// Decode-table entries $F0..$FF.
pub open spec fn spec_instruction_row_f(opcode: u8) -> Instruction {
    if opcode == 0xF0 {
        Instruction {
            description: "LDH A,(a8)",
            instruction_type: InstructionType::LDH,
            operand_1: Operand::Register(RegisterType::A),
            operand_2: Operand::A8Indirect,
            condition: ConditionType::Unconditional,
            parameter: Option::None,
        }
    } else if opcode == 0xF1 {
        Instruction {
            description: "POP AF",
            instruction_type: InstructionType::POP,
            operand_1: Operand::Register(RegisterType::AF),
            operand_2: Operand::NoOperand,
            condition: ConditionType::Unconditional,
            parameter: Option::None,
        }
    } else if opcode == 0xF2 {
        Instruction {
            description: "LD A,(C)",
            instruction_type: InstructionType::LD,
            operand_1: Operand::Register(RegisterType::A),
            operand_2: Operand::Indirect(RegisterType::C),
            condition: ConditionType::Unconditional,
            parameter: Option::None,
        }
    } else if opcode == 0xF3 {
        Instruction {
            description: "DI",
            instruction_type: InstructionType::DI,
            operand_1: Operand::NoOperand,
            operand_2: Operand::NoOperand,
            condition: ConditionType::Unconditional,
            parameter: Option::None,
        }
    } else if opcode == 0xF4 {
        Instruction {
            description: "NONE",
            instruction_type: InstructionType::NONE,
            operand_1: Operand::NoOperand,
            operand_2: Operand::NoOperand,
            condition: ConditionType::Unconditional,
            parameter: Option::None,
        }
    } else if opcode == 0xF5 {
        Instruction {
            description: "PUSH AF",
            instruction_type: InstructionType::PUSH,
            operand_1: Operand::Register(RegisterType::AF),
            operand_2: Operand::NoOperand,
            condition: ConditionType::Unconditional,
            parameter: Option::None,
        }
    } else if opcode == 0xF6 {
        Instruction {
            description: "OR d8",
            instruction_type: InstructionType::OR,
            operand_1: Operand::D8,
            operand_2: Operand::NoOperand,
            condition: ConditionType::Unconditional,
            parameter: Option::None,
        }
    } else if opcode == 0xF7 {
        Instruction {
            description: "RST 30H",
            instruction_type: InstructionType::RST,
            operand_1: Operand::NoOperand,
            operand_2: Operand::NoOperand,
            condition: ConditionType::Unconditional,
            parameter: Option::Some(0x30),
        }
    } else if opcode == 0xF8 {
        Instruction {
            description: "LD HL,SP+r8",
            instruction_type: InstructionType::LD,
            operand_1: Operand::Register(RegisterType::HL),
            operand_2: Operand::SpPlusR8,
            condition: ConditionType::Unconditional,
            parameter: Option::None,
        }
    } else if opcode == 0xF9 {
        Instruction {
            description: "LD SP,HL",
            instruction_type: InstructionType::LD,
            operand_1: Operand::Register(RegisterType::SP),
            operand_2: Operand::Register(RegisterType::HL),
            condition: ConditionType::Unconditional,
            parameter: Option::None,
        }
    } else if opcode == 0xFA {
        Instruction {
            description: "LD A,(a16)",
            instruction_type: InstructionType::LD,
            operand_1: Operand::Register(RegisterType::A),
            operand_2: Operand::A16Indirect,
            condition: ConditionType::Unconditional,
            parameter: Option::None,
        }
    } else if opcode == 0xFB {
        Instruction {
            description: "EI",
            instruction_type: InstructionType::EI,
            operand_1: Operand::NoOperand,
            operand_2: Operand::NoOperand,
            condition: ConditionType::Unconditional,
            parameter: Option::None,
        }
    } else if opcode == 0xFC {
        Instruction {
            description: "NONE",
            instruction_type: InstructionType::NONE,
            operand_1: Operand::NoOperand,
            operand_2: Operand::NoOperand,
            condition: ConditionType::Unconditional,
            parameter: Option::None,
        }
    } else if opcode == 0xFD {
        Instruction {
            description: "NONE",
            instruction_type: InstructionType::NONE,
            operand_1: Operand::NoOperand,
            operand_2: Operand::NoOperand,
            condition: ConditionType::Unconditional,
            parameter: Option::None,
        }
    } else if opcode == 0xFE {
        Instruction {
            description: "CP d8",
            instruction_type: InstructionType::CP,
            operand_1: Operand::D8,
            operand_2: Operand::NoOperand,
            condition: ConditionType::Unconditional,
            parameter: Option::None,
        }
    } else if opcode == 0xFF {
        Instruction {
            description: "RST 38H",
            instruction_type: InstructionType::RST,
            operand_1: Operand::NoOperand,
            operand_2: Operand::NoOperand,
            condition: ConditionType::Unconditional,
            parameter: Option::Some(0x38),
        }
    } else {
        Instruction {
            description: "NONE",
            instruction_type: InstructionType::NONE,
            operand_1: Operand::NoOperand,
            operand_2: Operand::NoOperand,
            condition: ConditionType::Unconditional,
            parameter: Option::None,
        }
    }
}

/// The decode-table entry of an opcode.
pub open spec fn spec_instruction(opcode: u8) -> Instruction {
    if opcode < 0x10 {
        spec_instruction_row_0(opcode)
    } else if opcode < 0x20 {
        spec_instruction_row_1(opcode)
    } else if opcode < 0x30 {
        spec_instruction_row_2(opcode)
    } else if opcode < 0x40 {
        spec_instruction_row_3(opcode)
    } else if opcode < 0x50 {
        spec_instruction_row_4(opcode)
    } else if opcode < 0x60 {
        spec_instruction_row_5(opcode)
    } else if opcode < 0x70 {
        spec_instruction_row_6(opcode)
    } else if opcode < 0x80 {
        spec_instruction_row_7(opcode)
    } else if opcode < 0x90 {
        spec_instruction_row_8(opcode)
    } else if opcode < 0xA0 {
        spec_instruction_row_9(opcode)
    } else if opcode < 0xB0 {
        spec_instruction_row_a(opcode)
    } else if opcode < 0xC0 {
        spec_instruction_row_b(opcode)
    } else if opcode < 0xD0 {
        spec_instruction_row_c(opcode)
    } else if opcode < 0xE0 {
        spec_instruction_row_d(opcode)
    } else if opcode < 0xF0 {
        spec_instruction_row_e(opcode)
    } else {
        spec_instruction_row_f(opcode)
    }
}

fn build_row_0(opcode: u8) -> (r: Instruction)
    ensures
        r == spec_instruction_row_0(opcode),
{
    if opcode == 0x00 {
        Instruction::instruction_no_operands("NOP", InstructionType::NOP)
    } else if opcode == 0x01 {
        Instruction::instruction_2_operands("LD BC,d16", InstructionType::LD, Operand::Register(RegisterType::BC), Operand::D16)
    } else if opcode == 0x02 {
        Instruction::instruction_2_operands("LD (BC),A", InstructionType::LD, Operand::Indirect(RegisterType::BC), Operand::Register(RegisterType::A))
    } else if opcode == 0x03 {
        Instruction::instruction_1_operand("INC BC", InstructionType::INC, Operand::Register(RegisterType::BC))
    } else if opcode == 0x04 {
        Instruction::instruction_1_operand("INC B", InstructionType::INC, Operand::Register(RegisterType::B))
    } else if opcode == 0x05 {
        Instruction::instruction_1_operand("DEC B", InstructionType::DEC, Operand::Register(RegisterType::B))
    } else if opcode == 0x06 {
        Instruction::instruction_2_operands("LD B,d8", InstructionType::LD, Operand::Register(RegisterType::B), Operand::D8)
    } else if opcode == 0x07 {
        Instruction::instruction_no_operands("RLCA", InstructionType::RLCA)
    } else if opcode == 0x08 {
        Instruction::instruction_2_operands("LD (a16),SP", InstructionType::LD, Operand::A16Indirect, Operand::Register(RegisterType::SP))
    } else if opcode == 0x09 {
        Instruction::instruction_2_operands("ADD HL,BC", InstructionType::ADD, Operand::Register(RegisterType::HL), Operand::Register(RegisterType::BC))
    } else if opcode == 0x0A {
        Instruction::instruction_2_operands("LD A,(BC)", InstructionType::LD, Operand::Register(RegisterType::A), Operand::Indirect(RegisterType::BC))
    } else if opcode == 0x0B {
        Instruction::instruction_1_operand("DEC BC", InstructionType::DEC, Operand::Register(RegisterType::BC))
    } else if opcode == 0x0C {
        Instruction::instruction_1_operand("INC C", InstructionType::INC, Operand::Register(RegisterType::C))
    } else if opcode == 0x0D {
        Instruction::instruction_1_operand("DEC C", InstructionType::DEC, Operand::Register(RegisterType::C))
    } else if opcode == 0x0E {
        Instruction::instruction_2_operands("LD C,d8", InstructionType::LD, Operand::Register(RegisterType::C), Operand::D8)
    } else if opcode == 0x0F {
        Instruction::instruction_no_operands("RRCA", InstructionType::RRCA)
    } else {
        Instruction::instruction_no_operands("NONE", InstructionType::NONE)
    }
}

fn build_row_1(opcode: u8) -> (r: Instruction)
    ensures
        r == spec_instruction_row_1(opcode),
{
    if opcode == 0x10 {
        Instruction::instruction_no_operands("STOP", InstructionType::STOP)
    } else if opcode == 0x11 {
        Instruction::instruction_2_operands("LD DE,d16", InstructionType::LD, Operand::Register(RegisterType::DE), Operand::D16)
    } else if opcode == 0x12 {
        Instruction::instruction_2_operands("LD (DE),A", InstructionType::LD, Operand::Indirect(RegisterType::DE), Operand::Register(RegisterType::A))
    } else if opcode == 0x13 {
        Instruction::instruction_1_operand("INC DE", InstructionType::INC, Operand::Register(RegisterType::DE))
    } else if opcode == 0x14 {
        Instruction::instruction_1_operand("INC D", InstructionType::INC, Operand::Register(RegisterType::D))
    } else if opcode == 0x15 {
        Instruction::instruction_1_operand("DEC D", InstructionType::DEC, Operand::Register(RegisterType::D))
    } else if opcode == 0x16 {
        Instruction::instruction_2_operands("LD D,d8", InstructionType::LD, Operand::Register(RegisterType::D), Operand::D8)
    } else if opcode == 0x17 {
        Instruction::instruction_no_operands("RLA", InstructionType::RLA)
    } else if opcode == 0x18 {
        Instruction::instruction_1_operand("JR r8", InstructionType::JR, Operand::R8)
    } else if opcode == 0x19 {
        Instruction::instruction_2_operands("ADD HL,DE", InstructionType::ADD, Operand::Register(RegisterType::HL), Operand::Register(RegisterType::DE))
    } else if opcode == 0x1A {
        Instruction::instruction_2_operands("LD A,(DE)", InstructionType::LD, Operand::Register(RegisterType::A), Operand::Indirect(RegisterType::DE))
    } else if opcode == 0x1B {
        Instruction::instruction_1_operand("DEC DE", InstructionType::DEC, Operand::Register(RegisterType::DE))
    } else if opcode == 0x1C {
        Instruction::instruction_1_operand("INC E", InstructionType::INC, Operand::Register(RegisterType::E))
    } else if opcode == 0x1D {
        Instruction::instruction_1_operand("DEC E", InstructionType::DEC, Operand::Register(RegisterType::E))
    } else if opcode == 0x1E {
        Instruction::instruction_2_operands("LD E,d8", InstructionType::LD, Operand::Register(RegisterType::E), Operand::D8)
    } else if opcode == 0x1F {
        Instruction::instruction_no_operands("RRA", InstructionType::RRA)
    } else {
        Instruction::instruction_no_operands("NONE", InstructionType::NONE)
    }
}

fn build_row_2(opcode: u8) -> (r: Instruction)
    ensures
        r == spec_instruction_row_2(opcode),
{
    if opcode == 0x20 {
        Instruction::instruction_1_operand_with_condition("JR NZ,r8", InstructionType::JR, Operand::R8, ConditionType::NZ)
    } else if opcode == 0x21 {
        Instruction::instruction_2_operands("LD HL,d16", InstructionType::LD, Operand::Register(RegisterType::HL), Operand::D16)
    } else if opcode == 0x22 {
        Instruction::instruction_2_operands("LD (HL+),A", InstructionType::LD, Operand::IndirectIncrementHL, Operand::Register(RegisterType::A))
    } else if opcode == 0x23 {
        Instruction::instruction_1_operand("INC HL", InstructionType::INC, Operand::Register(RegisterType::HL))
    } else if opcode == 0x24 {
        Instruction::instruction_1_operand("INC H", InstructionType::INC, Operand::Register(RegisterType::H))
    } else if opcode == 0x25 {
        Instruction::instruction_1_operand("DEC H", InstructionType::DEC, Operand::Register(RegisterType::H))
    } else if opcode == 0x26 {
        Instruction::instruction_2_operands("LD H,d8", InstructionType::LD, Operand::Register(RegisterType::H), Operand::D8)
    } else if opcode == 0x27 {
        Instruction::instruction_no_operands("DAA", InstructionType::DAA)
    } else if opcode == 0x28 {
        Instruction::instruction_1_operand_with_condition("JR Z,r8", InstructionType::JR, Operand::R8, ConditionType::Z)
    } else if opcode == 0x29 {
        Instruction::instruction_2_operands("ADD HL,HL", InstructionType::ADD, Operand::Register(RegisterType::HL), Operand::Register(RegisterType::HL))
    } else if opcode == 0x2A {
        Instruction::instruction_2_operands("LD A,(HL+)", InstructionType::LD, Operand::Register(RegisterType::A), Operand::IndirectIncrementHL)
    } else if opcode == 0x2B {
        Instruction::instruction_1_operand("DEC HL", InstructionType::DEC, Operand::Register(RegisterType::HL))
    } else if opcode == 0x2C {
        Instruction::instruction_1_operand("INC L", InstructionType::INC, Operand::Register(RegisterType::L))
    } else if opcode == 0x2D {
        Instruction::instruction_1_operand("DEC L", InstructionType::DEC, Operand::Register(RegisterType::L))
    } else if opcode == 0x2E {
        Instruction::instruction_2_operands("LD L,d8", InstructionType::LD, Operand::Register(RegisterType::L), Operand::D8)
    } else if opcode == 0x2F {
        Instruction::instruction_no_operands("CPL", InstructionType::CPL)
    } else {
        Instruction::instruction_no_operands("NONE", InstructionType::NONE)
    }
}

fn build_row_3(opcode: u8) -> (r: Instruction)
    ensures
        r == spec_instruction_row_3(opcode),
{
    if opcode == 0x30 {
        Instruction::instruction_1_operand_with_condition("JR NC,r8", InstructionType::JR, Operand::R8, ConditionType::NC)
    } else if opcode == 0x31 {
        Instruction::instruction_2_operands("LD SP,d16", InstructionType::LD, Operand::Register(RegisterType::SP), Operand::D16)
    } else if opcode == 0x32 {
        Instruction::instruction_2_operands("LD (HL-),A", InstructionType::LD, Operand::IndirectDecrementHL, Operand::Register(RegisterType::A))
    } else if opcode == 0x33 {
        Instruction::instruction_1_operand("INC SP", InstructionType::INC, Operand::Register(RegisterType::SP))
    } else if opcode == 0x34 {
        Instruction::instruction_1_operand("INC (HL)", InstructionType::INC, Operand::Indirect(RegisterType::HL))
    } else if opcode == 0x35 {
        Instruction::instruction_1_operand("DEC (HL)", InstructionType::DEC, Operand::Indirect(RegisterType::HL))
    } else if opcode == 0x36 {
        Instruction::instruction_2_operands("LD (HL),d8", InstructionType::LD, Operand::Indirect(RegisterType::HL), Operand::D8)
    } else if opcode == 0x37 {
        Instruction::instruction_no_operands("SCF", InstructionType::SCF)
    } else if opcode == 0x38 {
        Instruction::instruction_1_operand_with_condition("JR C,r8", InstructionType::JR, Operand::R8, ConditionType::C)
    } else if opcode == 0x39 {
        Instruction::instruction_2_operands("ADD HL,SP", InstructionType::ADD, Operand::Register(RegisterType::HL), Operand::Register(RegisterType::SP))
    } else if opcode == 0x3A {
        Instruction::instruction_2_operands("LD A,(HL-)", InstructionType::LD, Operand::Register(RegisterType::A), Operand::IndirectDecrementHL)
    } else if opcode == 0x3B {
        Instruction::instruction_1_operand("DEC SP", InstructionType::DEC, Operand::Register(RegisterType::SP))
    } else if opcode == 0x3C {
        Instruction::instruction_1_operand("INC A", InstructionType::INC, Operand::Register(RegisterType::A))
    } else if opcode == 0x3D {
        Instruction::instruction_1_operand("DEC A", InstructionType::DEC, Operand::Register(RegisterType::A))
    } else if opcode == 0x3E {
        Instruction::instruction_2_operands("LD A,d8", InstructionType::LD, Operand::Register(RegisterType::A), Operand::D8)
    } else if opcode == 0x3F {
        Instruction::instruction_no_operands("CCF", InstructionType::CCF)
    } else {
        Instruction::instruction_no_operands("NONE", InstructionType::NONE)
    }
}

fn build_row_4(opcode: u8) -> (r: Instruction)
    ensures
        r == spec_instruction_row_4(opcode),
{
    if opcode == 0x40 {
        Instruction::instruction_2_operands("LD B,B", InstructionType::LD, Operand::Register(RegisterType::B), Operand::Register(RegisterType::B))
    } else if opcode == 0x41 {
        Instruction::instruction_2_operands("LD B,C", InstructionType::LD, Operand::Register(RegisterType::B), Operand::Register(RegisterType::C))
    } else if opcode == 0x42 {
        Instruction::instruction_2_operands("LD B,D", InstructionType::LD, Operand::Register(RegisterType::B), Operand::Register(RegisterType::D))
    } else if opcode == 0x43 {
        Instruction::instruction_2_operands("LD B,E", InstructionType::LD, Operand::Register(RegisterType::B), Operand::Register(RegisterType::E))
    } else if opcode == 0x44 {
        Instruction::instruction_2_operands("LD B,H", InstructionType::LD, Operand::Register(RegisterType::B), Operand::Register(RegisterType::H))
    } else if opcode == 0x45 {
        Instruction::instruction_2_operands("LD B,L", InstructionType::LD, Operand::Register(RegisterType::B), Operand::Register(RegisterType::L))
    } else if opcode == 0x46 {
        Instruction::instruction_2_operands("LD B,(HL)", InstructionType::LD, Operand::Register(RegisterType::B), Operand::Indirect(RegisterType::HL))
    } else if opcode == 0x47 {
        Instruction::instruction_2_operands("LD B,A", InstructionType::LD, Operand::Register(RegisterType::B), Operand::Register(RegisterType::A))
    } else if opcode == 0x48 {
        Instruction::instruction_2_operands("LD C,B", InstructionType::LD, Operand::Register(RegisterType::C), Operand::Register(RegisterType::B))
    } else if opcode == 0x49 {
        Instruction::instruction_2_operands("LD C,C", InstructionType::LD, Operand::Register(RegisterType::C), Operand::Register(RegisterType::C))
    } else if opcode == 0x4A {
        Instruction::instruction_2_operands("LD C,D", InstructionType::LD, Operand::Register(RegisterType::C), Operand::Register(RegisterType::D))
    } else if opcode == 0x4B {
        Instruction::instruction_2_operands("LD C,E", InstructionType::LD, Operand::Register(RegisterType::C), Operand::Register(RegisterType::E))
    } else if opcode == 0x4C {
        Instruction::instruction_2_operands("LD C,H", InstructionType::LD, Operand::Register(RegisterType::C), Operand::Register(RegisterType::H))
    } else if opcode == 0x4D {
        Instruction::instruction_2_operands("LD C,L", InstructionType::LD, Operand::Register(RegisterType::C), Operand::Register(RegisterType::L))
    } else if opcode == 0x4E {
        Instruction::instruction_2_operands("LD C,(HL)", InstructionType::LD, Operand::Register(RegisterType::C), Operand::Indirect(RegisterType::HL))
    } else if opcode == 0x4F {
        Instruction::instruction_2_operands("LD C,A", InstructionType::LD, Operand::Register(RegisterType::C), Operand::Register(RegisterType::A))
    } else {
        Instruction::instruction_no_operands("NONE", InstructionType::NONE)
    }
}

fn build_row_5(opcode: u8) -> (r: Instruction)
    ensures
        r == spec_instruction_row_5(opcode),
{
    if opcode == 0x50 {
        Instruction::instruction_2_operands("LD D,B", InstructionType::LD, Operand::Register(RegisterType::D), Operand::Register(RegisterType::B))
    } else if opcode == 0x51 {
        Instruction::instruction_2_operands("LD D,C", InstructionType::LD, Operand::Register(RegisterType::D), Operand::Register(RegisterType::C))
    } else if opcode == 0x52 {
        Instruction::instruction_2_operands("LD D,D", InstructionType::LD, Operand::Register(RegisterType::D), Operand::Register(RegisterType::D))
    } else if opcode == 0x53 {
        Instruction::instruction_2_operands("LD D,E", InstructionType::LD, Operand::Register(RegisterType::D), Operand::Register(RegisterType::E))
    } else if opcode == 0x54 {
        Instruction::instruction_2_operands("LD D,H", InstructionType::LD, Operand::Register(RegisterType::D), Operand::Register(RegisterType::H))
    } else if opcode == 0x55 {
        Instruction::instruction_2_operands("LD D,L", InstructionType::LD, Operand::Register(RegisterType::D), Operand::Register(RegisterType::L))
    } else if opcode == 0x56 {
        Instruction::instruction_2_operands("LD D,(HL)", InstructionType::LD, Operand::Register(RegisterType::D), Operand::Indirect(RegisterType::HL))
    } else if opcode == 0x57 {
        Instruction::instruction_2_operands("LD D,A", InstructionType::LD, Operand::Register(RegisterType::D), Operand::Register(RegisterType::A))
    } else if opcode == 0x58 {
        Instruction::instruction_2_operands("LD E,B", InstructionType::LD, Operand::Register(RegisterType::E), Operand::Register(RegisterType::B))
    } else if opcode == 0x59 {
        Instruction::instruction_2_operands("LD E,C", InstructionType::LD, Operand::Register(RegisterType::E), Operand::Register(RegisterType::C))
    } else if opcode == 0x5A {
        Instruction::instruction_2_operands("LD E,D", InstructionType::LD, Operand::Register(RegisterType::E), Operand::Register(RegisterType::D))
    } else if opcode == 0x5B {
        Instruction::instruction_2_operands("LD E,E", InstructionType::LD, Operand::Register(RegisterType::E), Operand::Register(RegisterType::E))
    } else if opcode == 0x5C {
        Instruction::instruction_2_operands("LD E,H", InstructionType::LD, Operand::Register(RegisterType::E), Operand::Register(RegisterType::H))
    } else if opcode == 0x5D {
        Instruction::instruction_2_operands("LD E,L", InstructionType::LD, Operand::Register(RegisterType::E), Operand::Register(RegisterType::L))
    } else if opcode == 0x5E {
        Instruction::instruction_2_operands("LD E,(HL)", InstructionType::LD, Operand::Register(RegisterType::E), Operand::Indirect(RegisterType::HL))
    } else if opcode == 0x5F {
        Instruction::instruction_2_operands("LD E,A", InstructionType::LD, Operand::Register(RegisterType::E), Operand::Register(RegisterType::A))
    } else {
        Instruction::instruction_no_operands("NONE", InstructionType::NONE)
    }
}

fn build_row_6(opcode: u8) -> (r: Instruction)
    ensures
        r == spec_instruction_row_6(opcode),
{
    if opcode == 0x60 {
        Instruction::instruction_2_operands("LD H,B", InstructionType::LD, Operand::Register(RegisterType::H), Operand::Register(RegisterType::B))
    } else if opcode == 0x61 {
        Instruction::instruction_2_operands("LD H,C", InstructionType::LD, Operand::Register(RegisterType::H), Operand::Register(RegisterType::C))
    } else if opcode == 0x62 {
        Instruction::instruction_2_operands("LD H,D", InstructionType::LD, Operand::Register(RegisterType::H), Operand::Register(RegisterType::D))
    } else if opcode == 0x63 {
        Instruction::instruction_2_operands("LD H,E", InstructionType::LD, Operand::Register(RegisterType::H), Operand::Register(RegisterType::E))
    } else if opcode == 0x64 {
        Instruction::instruction_2_operands("LD H,H", InstructionType::LD, Operand::Register(RegisterType::H), Operand::Register(RegisterType::H))
    } else if opcode == 0x65 {
        Instruction::instruction_2_operands("LD H,L", InstructionType::LD, Operand::Register(RegisterType::H), Operand::Register(RegisterType::L))
    } else if opcode == 0x66 {
        Instruction::instruction_2_operands("LD H,(HL)", InstructionType::LD, Operand::Register(RegisterType::H), Operand::Indirect(RegisterType::HL))
    } else if opcode == 0x67 {
        Instruction::instruction_2_operands("LD H,A", InstructionType::LD, Operand::Register(RegisterType::H), Operand::Register(RegisterType::A))
    } else if opcode == 0x68 {
        Instruction::instruction_2_operands("LD L,B", InstructionType::LD, Operand::Register(RegisterType::L), Operand::Register(RegisterType::B))
    } else if opcode == 0x69 {
        Instruction::instruction_2_operands("LD L,C", InstructionType::LD, Operand::Register(RegisterType::L), Operand::Register(RegisterType::C))
    } else if opcode == 0x6A {
        Instruction::instruction_2_operands("LD L,D", InstructionType::LD, Operand::Register(RegisterType::L), Operand::Register(RegisterType::D))
    } else if opcode == 0x6B {
        Instruction::instruction_2_operands("LD L,E", InstructionType::LD, Operand::Register(RegisterType::L), Operand::Register(RegisterType::E))
    } else if opcode == 0x6C {
        Instruction::instruction_2_operands("LD L,H", InstructionType::LD, Operand::Register(RegisterType::L), Operand::Register(RegisterType::H))
    } else if opcode == 0x6D {
        Instruction::instruction_2_operands("LD L,L", InstructionType::LD, Operand::Register(RegisterType::L), Operand::Register(RegisterType::L))
    } else if opcode == 0x6E {
        Instruction::instruction_2_operands("LD L,(HL)", InstructionType::LD, Operand::Register(RegisterType::L), Operand::Indirect(RegisterType::HL))
    } else if opcode == 0x6F {
        Instruction::instruction_2_operands("LD L,A", InstructionType::LD, Operand::Register(RegisterType::L), Operand::Register(RegisterType::A))
    } else {
        Instruction::instruction_no_operands("NONE", InstructionType::NONE)
    }
}

fn build_row_7(opcode: u8) -> (r: Instruction)
    ensures
        r == spec_instruction_row_7(opcode),
{
    if opcode == 0x70 {
        Instruction::instruction_2_operands("LD (HL),B", InstructionType::LD, Operand::Indirect(RegisterType::HL), Operand::Register(RegisterType::B))
    } else if opcode == 0x71 {
        Instruction::instruction_2_operands("LD (HL),C", InstructionType::LD, Operand::Indirect(RegisterType::HL), Operand::Register(RegisterType::C))
    } else if opcode == 0x72 {
        Instruction::instruction_2_operands("LD (HL),D", InstructionType::LD, Operand::Indirect(RegisterType::HL), Operand::Register(RegisterType::D))
    } else if opcode == 0x73 {
        Instruction::instruction_2_operands("LD (HL),E", InstructionType::LD, Operand::Indirect(RegisterType::HL), Operand::Register(RegisterType::E))
    } else if opcode == 0x74 {
        Instruction::instruction_2_operands("LD (HL),H", InstructionType::LD, Operand::Indirect(RegisterType::HL), Operand::Register(RegisterType::H))
    } else if opcode == 0x75 {
        Instruction::instruction_2_operands("LD (HL),L", InstructionType::LD, Operand::Indirect(RegisterType::HL), Operand::Register(RegisterType::L))
    } else if opcode == 0x76 {
        Instruction::instruction_no_operands("HALT", InstructionType::HALT)
    } else if opcode == 0x77 {
        Instruction::instruction_2_operands("LD (HL),A", InstructionType::LD, Operand::Indirect(RegisterType::HL), Operand::Register(RegisterType::A))
    } else if opcode == 0x78 {
        Instruction::instruction_2_operands("LD A,B", InstructionType::LD, Operand::Register(RegisterType::A), Operand::Register(RegisterType::B))
    } else if opcode == 0x79 {
        Instruction::instruction_2_operands("LD A,C", InstructionType::LD, Operand::Register(RegisterType::A), Operand::Register(RegisterType::C))
    } else if opcode == 0x7A {
        Instruction::instruction_2_operands("LD A,D", InstructionType::LD, Operand::Register(RegisterType::A), Operand::Register(RegisterType::D))
    } else if opcode == 0x7B {
        Instruction::instruction_2_operands("LD A,E", InstructionType::LD, Operand::Register(RegisterType::A), Operand::Register(RegisterType::E))
    } else if opcode == 0x7C {
        Instruction::instruction_2_operands("LD A,H", InstructionType::LD, Operand::Register(RegisterType::A), Operand::Register(RegisterType::H))
    } else if opcode == 0x7D {
        Instruction::instruction_2_operands("LD A,L", InstructionType::LD, Operand::Register(RegisterType::A), Operand::Register(RegisterType::L))
    } else if opcode == 0x7E {
        Instruction::instruction_2_operands("LD A,(HL)", InstructionType::LD, Operand::Register(RegisterType::A), Operand::Indirect(RegisterType::HL))
    } else if opcode == 0x7F {
        Instruction::instruction_2_operands("LD A,A", InstructionType::LD, Operand::Register(RegisterType::A), Operand::Register(RegisterType::A))
    } else {
        Instruction::instruction_no_operands("NONE", InstructionType::NONE)
    }
}

fn build_row_8(opcode: u8) -> (r: Instruction)
    ensures
        r == spec_instruction_row_8(opcode),
{
    if opcode == 0x80 {
        Instruction::instruction_2_operands("ADD A,B", InstructionType::ADD, Operand::Register(RegisterType::A), Operand::Register(RegisterType::B))
    } else if opcode == 0x81 {
        Instruction::instruction_2_operands("ADD A,C", InstructionType::ADD, Operand::Register(RegisterType::A), Operand::Register(RegisterType::C))
    } else if opcode == 0x82 {
        Instruction::instruction_2_operands("ADD A,D", InstructionType::ADD, Operand::Register(RegisterType::A), Operand::Register(RegisterType::D))
    } else if opcode == 0x83 {
        Instruction::instruction_2_operands("ADD A,E", InstructionType::ADD, Operand::Register(RegisterType::A), Operand::Register(RegisterType::E))
    } else if opcode == 0x84 {
        Instruction::instruction_2_operands("ADD A,H", InstructionType::ADD, Operand::Register(RegisterType::A), Operand::Register(RegisterType::H))
    } else if opcode == 0x85 {
        Instruction::instruction_2_operands("ADD A,L", InstructionType::ADD, Operand::Register(RegisterType::A), Operand::Register(RegisterType::L))
    } else if opcode == 0x86 {
        Instruction::instruction_2_operands("ADD A,(HL)", InstructionType::ADD, Operand::Register(RegisterType::A), Operand::Indirect(RegisterType::HL))
    } else if opcode == 0x87 {
        Instruction::instruction_2_operands("ADD A,A", InstructionType::ADD, Operand::Register(RegisterType::A), Operand::Register(RegisterType::A))
    } else if opcode == 0x88 {
        Instruction::instruction_2_operands("ADC A,B", InstructionType::ADC, Operand::Register(RegisterType::A), Operand::Register(RegisterType::B))
    } else if opcode == 0x89 {
        Instruction::instruction_2_operands("ADC A,C", InstructionType::ADC, Operand::Register(RegisterType::A), Operand::Register(RegisterType::C))
    } else if opcode == 0x8A {
        Instruction::instruction_2_operands("ADC A,D", InstructionType::ADC, Operand::Register(RegisterType::A), Operand::Register(RegisterType::D))
    } else if opcode == 0x8B {
        Instruction::instruction_2_operands("ADC A,E", InstructionType::ADC, Operand::Register(RegisterType::A), Operand::Register(RegisterType::E))
    } else if opcode == 0x8C {
        Instruction::instruction_2_operands("ADC A,H", InstructionType::ADC, Operand::Register(RegisterType::A), Operand::Register(RegisterType::H))
    } else if opcode == 0x8D {
        Instruction::instruction_2_operands("ADC A,L", InstructionType::ADC, Operand::Register(RegisterType::A), Operand::Register(RegisterType::L))
    } else if opcode == 0x8E {
        Instruction::instruction_2_operands("ADC A,(HL)", InstructionType::ADC, Operand::Register(RegisterType::A), Operand::Indirect(RegisterType::HL))
    } else if opcode == 0x8F {
        Instruction::instruction_2_operands("ADC A,A", InstructionType::ADC, Operand::Register(RegisterType::A), Operand::Register(RegisterType::A))
    } else {
        Instruction::instruction_no_operands("NONE", InstructionType::NONE)
    }
}

fn build_row_9(opcode: u8) -> (r: Instruction)
    ensures
        r == spec_instruction_row_9(opcode),
{
    if opcode == 0x90 {
        Instruction::instruction_1_operand("SUB B", InstructionType::SUB, Operand::Register(RegisterType::B))
    } else if opcode == 0x91 {
        Instruction::instruction_1_operand("SUB C", InstructionType::SUB, Operand::Register(RegisterType::C))
    } else if opcode == 0x92 {
        Instruction::instruction_1_operand("SUB D", InstructionType::SUB, Operand::Register(RegisterType::D))
    } else if opcode == 0x93 {
        Instruction::instruction_1_operand("SUB E", InstructionType::SUB, Operand::Register(RegisterType::E))
    } else if opcode == 0x94 {
        Instruction::instruction_1_operand("SUB H", InstructionType::SUB, Operand::Register(RegisterType::H))
    } else if opcode == 0x95 {
        Instruction::instruction_1_operand("SUB L", InstructionType::SUB, Operand::Register(RegisterType::L))
    } else if opcode == 0x96 {
        Instruction::instruction_1_operand("SUB (HL)", InstructionType::SUB, Operand::Indirect(RegisterType::HL))
    } else if opcode == 0x97 {
        Instruction::instruction_1_operand("SUB A", InstructionType::SUB, Operand::Register(RegisterType::A))
    } else if opcode == 0x98 {
        Instruction::instruction_2_operands("SBC A B", InstructionType::SBC, Operand::Register(RegisterType::A), Operand::Register(RegisterType::B))
    } else if opcode == 0x99 {
        Instruction::instruction_2_operands("SBC A C", InstructionType::SBC, Operand::Register(RegisterType::A), Operand::Register(RegisterType::C))
    } else if opcode == 0x9A {
        Instruction::instruction_2_operands("SBC A D", InstructionType::SBC, Operand::Register(RegisterType::A), Operand::Register(RegisterType::D))
    } else if opcode == 0x9B {
        Instruction::instruction_2_operands("SBC A E", InstructionType::SBC, Operand::Register(RegisterType::A), Operand::Register(RegisterType::E))
    } else if opcode == 0x9C {
        Instruction::instruction_2_operands("SBC A H", InstructionType::SBC, Operand::Register(RegisterType::A), Operand::Register(RegisterType::H))
    } else if opcode == 0x9D {
        Instruction::instruction_2_operands("SBC A L", InstructionType::SBC, Operand::Register(RegisterType::A), Operand::Register(RegisterType::L))
    } else if opcode == 0x9E {
        Instruction::instruction_2_operands("SBC A (HL)", InstructionType::SBC, Operand::Register(RegisterType::A), Operand::Indirect(RegisterType::HL))
    } else if opcode == 0x9F {
        Instruction::instruction_2_operands("SBC A A", InstructionType::SBC, Operand::Register(RegisterType::A), Operand::Register(RegisterType::A))
    } else {
        Instruction::instruction_no_operands("NONE", InstructionType::NONE)
    }
}

fn build_row_a(opcode: u8) -> (r: Instruction)
    ensures
        r == spec_instruction_row_a(opcode),
{
    if opcode == 0xA0 {
        Instruction::instruction_1_operand("AND B", InstructionType::AND, Operand::Register(RegisterType::B))
    } else if opcode == 0xA1 {
        Instruction::instruction_1_operand("AND C", InstructionType::AND, Operand::Register(RegisterType::C))
    } else if opcode == 0xA2 {
        Instruction::instruction_1_operand("AND D", InstructionType::AND, Operand::Register(RegisterType::D))
    } else if opcode == 0xA3 {
        Instruction::instruction_1_operand("AND E", InstructionType::AND, Operand::Register(RegisterType::E))
    } else if opcode == 0xA4 {
        Instruction::instruction_1_operand("AND H", InstructionType::AND, Operand::Register(RegisterType::H))
    } else if opcode == 0xA5 {
        Instruction::instruction_1_operand("AND L", InstructionType::AND, Operand::Register(RegisterType::L))
    } else if opcode == 0xA6 {
        Instruction::instruction_1_operand("AND (HL)", InstructionType::AND, Operand::Indirect(RegisterType::HL))
    } else if opcode == 0xA7 {
        Instruction::instruction_1_operand("AND A", InstructionType::AND, Operand::Register(RegisterType::A))
    } else if opcode == 0xA8 {
        Instruction::instruction_1_operand("XOR B", InstructionType::XOR, Operand::Register(RegisterType::B))
    } else if opcode == 0xA9 {
        Instruction::instruction_1_operand("XOR C", InstructionType::XOR, Operand::Register(RegisterType::C))
    } else if opcode == 0xAA {
        Instruction::instruction_1_operand("XOR D", InstructionType::XOR, Operand::Register(RegisterType::D))
    } else if opcode == 0xAB {
        Instruction::instruction_1_operand("XOR E", InstructionType::XOR, Operand::Register(RegisterType::E))
    } else if opcode == 0xAC {
        Instruction::instruction_1_operand("XOR H", InstructionType::XOR, Operand::Register(RegisterType::H))
    } else if opcode == 0xAD {
        Instruction::instruction_1_operand("XOR L", InstructionType::XOR, Operand::Register(RegisterType::L))
    } else if opcode == 0xAE {
        Instruction::instruction_1_operand("XOR (HL)", InstructionType::XOR, Operand::Indirect(RegisterType::HL))
    } else if opcode == 0xAF {
        Instruction::instruction_1_operand("XOR A", InstructionType::XOR, Operand::Register(RegisterType::A))
    } else {
        Instruction::instruction_no_operands("NONE", InstructionType::NONE)
    }
}

fn build_row_b(opcode: u8) -> (r: Instruction)
    ensures
        r == spec_instruction_row_b(opcode),
{
    if opcode == 0xB0 {
        Instruction::instruction_1_operand("OR B", InstructionType::OR, Operand::Register(RegisterType::B))
    } else if opcode == 0xB1 {
        Instruction::instruction_1_operand("OR C", InstructionType::OR, Operand::Register(RegisterType::C))
    } else if opcode == 0xB2 {
        Instruction::instruction_1_operand("OR D", InstructionType::OR, Operand::Register(RegisterType::D))
    } else if opcode == 0xB3 {
        Instruction::instruction_1_operand("OR E", InstructionType::OR, Operand::Register(RegisterType::E))
    } else if opcode == 0xB4 {
        Instruction::instruction_1_operand("OR H", InstructionType::OR, Operand::Register(RegisterType::H))
    } else if opcode == 0xB5 {
        Instruction::instruction_1_operand("OR L", InstructionType::OR, Operand::Register(RegisterType::L))
    } else if opcode == 0xB6 {
        Instruction::instruction_1_operand("OR (HL)", InstructionType::OR, Operand::Indirect(RegisterType::HL))
    } else if opcode == 0xB7 {
        Instruction::instruction_1_operand("OR A", InstructionType::OR, Operand::Register(RegisterType::A))
    } else if opcode == 0xB8 {
        Instruction::instruction_1_operand("CP B", InstructionType::CP, Operand::Register(RegisterType::B))
    } else if opcode == 0xB9 {
        Instruction::instruction_1_operand("CP C", InstructionType::CP, Operand::Register(RegisterType::C))
    } else if opcode == 0xBA {
        Instruction::instruction_1_operand("CP D", InstructionType::CP, Operand::Register(RegisterType::D))
    } else if opcode == 0xBB {
        Instruction::instruction_1_operand("CP E", InstructionType::CP, Operand::Register(RegisterType::E))
    } else if opcode == 0xBC {
        Instruction::instruction_1_operand("CP H", InstructionType::CP, Operand::Register(RegisterType::H))
    } else if opcode == 0xBD {
        Instruction::instruction_1_operand("CP L", InstructionType::CP, Operand::Register(RegisterType::L))
    } else if opcode == 0xBE {
        Instruction::instruction_1_operand("CP (HL)", InstructionType::CP, Operand::Indirect(RegisterType::HL))
    } else if opcode == 0xBF {
        Instruction::instruction_1_operand("CP A", InstructionType::CP, Operand::Register(RegisterType::A))
    } else {
        Instruction::instruction_no_operands("NONE", InstructionType::NONE)
    }
}

fn build_row_c(opcode: u8) -> (r: Instruction)
    ensures
        r == spec_instruction_row_c(opcode),
{
    if opcode == 0xC0 {
        Instruction::instruction_no_operands_with_condition("RET NZ", InstructionType::RET, ConditionType::NZ)
    } else if opcode == 0xC1 {
        Instruction::instruction_1_operand("POP BC", InstructionType::POP, Operand::Register(RegisterType::BC))
    } else if opcode == 0xC2 {
        Instruction::instruction_1_operand_with_condition("JP NZ,a16", InstructionType::JP, Operand::A16, ConditionType::NZ)
    } else if opcode == 0xC3 {
        Instruction::instruction_1_operand("JP a16", InstructionType::JP, Operand::A16)
    } else if opcode == 0xC4 {
        Instruction::instruction_1_operand_with_condition("CALL NZ,a16", InstructionType::CALL, Operand::A16, ConditionType::NZ)
    } else if opcode == 0xC5 {
        Instruction::instruction_1_operand("PUSH BC", InstructionType::PUSH, Operand::Register(RegisterType::BC))
    } else if opcode == 0xC6 {
        Instruction::instruction_2_operands("ADD A,d8", InstructionType::ADD, Operand::Register(RegisterType::A), Operand::D8)
    } else if opcode == 0xC7 {
        Instruction::instruction_with_parameter("RST 00H", InstructionType::RST, 0x00)
    } else if opcode == 0xC8 {
        Instruction::instruction_no_operands_with_condition("RET Z", InstructionType::RET, ConditionType::Z)
    } else if opcode == 0xC9 {
        Instruction::instruction_no_operands("RET", InstructionType::RET)
    } else if opcode == 0xCA {
        Instruction::instruction_1_operand_with_condition("JP Z,a16", InstructionType::JP, Operand::A16, ConditionType::Z)
    } else if opcode == 0xCB {
        Instruction::instruction_1_operand("CB d8", InstructionType::CB, Operand::D8)
    } else if opcode == 0xCC {
        Instruction::instruction_1_operand_with_condition("CALL Z,a16", InstructionType::CALL, Operand::A16, ConditionType::Z)
    } else if opcode == 0xCD {
        Instruction::instruction_1_operand("CALL a16", InstructionType::CALL, Operand::A16)
    } else if opcode == 0xCE {
        Instruction::instruction_2_operands("ADC A,d8", InstructionType::ADC, Operand::Register(RegisterType::A), Operand::D8)
    } else if opcode == 0xCF {
        Instruction::instruction_with_parameter("RST 08H", InstructionType::RST, 0x08)
    } else {
        Instruction::instruction_no_operands("NONE", InstructionType::NONE)
    }
}

fn build_row_d(opcode: u8) -> (r: Instruction)
    ensures
        r == spec_instruction_row_d(opcode),
{
    if opcode == 0xD0 {
        Instruction::instruction_no_operands_with_condition("RET NC", InstructionType::RET, ConditionType::NC)
    } else if opcode == 0xD1 {
        Instruction::instruction_1_operand("POP DE", InstructionType::POP, Operand::Register(RegisterType::DE))
    } else if opcode == 0xD2 {
        Instruction::instruction_1_operand_with_condition("JP NC,a16", InstructionType::JP, Operand::A16, ConditionType::NC)
    } else if opcode == 0xD3 {
        Instruction::instruction_no_operands("NONE", InstructionType::NONE)
    } else if opcode == 0xD4 {
        Instruction::instruction_1_operand_with_condition("CALL NC,a16", InstructionType::CALL, Operand::A16, ConditionType::NC)
    } else if opcode == 0xD5 {
        Instruction::instruction_1_operand("PUSH DE", InstructionType::PUSH, Operand::Register(RegisterType::DE))
    } else if opcode == 0xD6 {
        Instruction::instruction_1_operand("SUB d8", InstructionType::SUB, Operand::D8)
    } else if opcode == 0xD7 {
        Instruction::instruction_with_parameter("RST 10H", InstructionType::RST, 0x10)
    } else if opcode == 0xD8 {
        Instruction::instruction_no_operands_with_condition("RET C", InstructionType::RET, ConditionType::C)
    } else if opcode == 0xD9 {
        Instruction::instruction_no_operands("RETI", InstructionType::RETI)
    } else if opcode == 0xDA {
        Instruction::instruction_1_operand_with_condition("JP C,a16", InstructionType::JP, Operand::A16, ConditionType::C)
    } else if opcode == 0xDB {
        Instruction::instruction_no_operands("NONE", InstructionType::NONE)
    } else if opcode == 0xDC {
        Instruction::instruction_1_operand_with_condition("CALL C,a16", InstructionType::CALL, Operand::A16, ConditionType::C)
    } else if opcode == 0xDD {
        Instruction::instruction_no_operands("NONE", InstructionType::NONE)
    } else if opcode == 0xDE {
        Instruction::instruction_2_operands("SBC A d8", InstructionType::SBC, Operand::Register(RegisterType::A), Operand::D8)
    } else if opcode == 0xDF {
        Instruction::instruction_with_parameter("RST 18H", InstructionType::RST, 0x18)
    } else {
        Instruction::instruction_no_operands("NONE", InstructionType::NONE)
    }
}

fn build_row_e(opcode: u8) -> (r: Instruction)
    ensures
        r == spec_instruction_row_e(opcode),
{
    if opcode == 0xE0 {
        Instruction::instruction_2_operands("LDH (a8),A", InstructionType::LDH, Operand::A8Indirect, Operand::Register(RegisterType::A))
    } else if opcode == 0xE1 {
        Instruction::instruction_1_operand("POP HL", InstructionType::POP, Operand::Register(RegisterType::HL))
    } else if opcode == 0xE2 {
        Instruction::instruction_2_operands("LD (C),A", InstructionType::LD, Operand::Indirect(RegisterType::C), Operand::Register(RegisterType::A))
    } else if opcode == 0xE3 {
        Instruction::instruction_no_operands("NONE", InstructionType::NONE)
    } else if opcode == 0xE4 {
        Instruction::instruction_no_operands("NONE", InstructionType::NONE)
    } else if opcode == 0xE5 {
        Instruction::instruction_1_operand("PUSH HL", InstructionType::PUSH, Operand::Register(RegisterType::HL))
    } else if opcode == 0xE6 {
        Instruction::instruction_1_operand("AND d8", InstructionType::AND, Operand::D8)
    } else if opcode == 0xE7 {
        Instruction::instruction_with_parameter("RST 20H", InstructionType::RST, 0x20)
    } else if opcode == 0xE8 {
        Instruction::instruction_2_operands("ADD SP,r8", InstructionType::ADD, Operand::Register(RegisterType::SP), Operand::R8)
    } else if opcode == 0xE9 {
        Instruction::instruction_1_operand("JP HL", InstructionType::JP, Operand::Register(RegisterType::HL))
    } else if opcode == 0xEA {
        Instruction::instruction_2_operands("LD (a16),A", InstructionType::LD, Operand::A16Indirect, Operand::Register(RegisterType::A))
    } else if opcode == 0xEB {
        Instruction::instruction_no_operands("NONE", InstructionType::NONE)
    } else if opcode == 0xEC {
        Instruction::instruction_no_operands("NONE", InstructionType::NONE)
    } else if opcode == 0xED {
        Instruction::instruction_no_operands("NONE", InstructionType::NONE)
    } else if opcode == 0xEE {
        Instruction::instruction_1_operand("XOR d8", InstructionType::XOR, Operand::D8)
    } else if opcode == 0xEF {
        Instruction::instruction_with_parameter("RST 28H", InstructionType::RST, 0x28)
    } else {
        Instruction::instruction_no_operands("NONE", InstructionType::NONE)
    }
}

fn build_row_f(opcode: u8) -> (r: Instruction)
    ensures
        r == spec_instruction_row_f(opcode),
{
    if opcode == 0xF0 {
        Instruction::instruction_2_operands("LDH A,(a8)", InstructionType::LDH, Operand::Register(RegisterType::A), Operand::A8Indirect)
    } else if opcode == 0xF1 {
        Instruction::instruction_1_operand("POP AF", InstructionType::POP, Operand::Register(RegisterType::AF))
    } else if opcode == 0xF2 {
        Instruction::instruction_2_operands("LD A,(C)", InstructionType::LD, Operand::Register(RegisterType::A), Operand::Indirect(RegisterType::C))
    } else if opcode == 0xF3 {
        Instruction::instruction_no_operands("DI", InstructionType::DI)
    } else if opcode == 0xF4 {
        Instruction::instruction_no_operands("NONE", InstructionType::NONE)
    } else if opcode == 0xF5 {
        Instruction::instruction_1_operand("PUSH AF", InstructionType::PUSH, Operand::Register(RegisterType::AF))
    } else if opcode == 0xF6 {
        Instruction::instruction_1_operand("OR d8", InstructionType::OR, Operand::D8)
    } else if opcode == 0xF7 {
        Instruction::instruction_with_parameter("RST 30H", InstructionType::RST, 0x30)
    } else if opcode == 0xF8 {
        Instruction::instruction_2_operands("LD HL,SP+r8", InstructionType::LD, Operand::Register(RegisterType::HL), Operand::SpPlusR8)
    } else if opcode == 0xF9 {
        Instruction::instruction_2_operands("LD SP,HL", InstructionType::LD, Operand::Register(RegisterType::SP), Operand::Register(RegisterType::HL))
    } else if opcode == 0xFA {
        Instruction::instruction_2_operands("LD A,(a16)", InstructionType::LD, Operand::Register(RegisterType::A), Operand::A16Indirect)
    } else if opcode == 0xFB {
        Instruction::instruction_no_operands("EI", InstructionType::EI)
    } else if opcode == 0xFC {
        Instruction::instruction_no_operands("NONE", InstructionType::NONE)
    } else if opcode == 0xFD {
        Instruction::instruction_no_operands("NONE", InstructionType::NONE)
    } else if opcode == 0xFE {
        Instruction::instruction_1_operand("CP d8", InstructionType::CP, Operand::D8)
    } else if opcode == 0xFF {
        Instruction::instruction_with_parameter("RST 38H", InstructionType::RST, 0x38)
    } else {
        Instruction::instruction_no_operands("NONE", InstructionType::NONE)
    }
}

/// The decode-table entry of an opcode, built afresh.
pub fn instruction_for_opcode(opcode: u8) -> (r: Instruction)
    ensures
        r == spec_instruction(opcode),
{
    if opcode < 0x10 {
        build_row_0(opcode)
    } else if opcode < 0x20 {
        build_row_1(opcode)
    } else if opcode < 0x30 {
        build_row_2(opcode)
    } else if opcode < 0x40 {
        build_row_3(opcode)
    } else if opcode < 0x50 {
        build_row_4(opcode)
    } else if opcode < 0x60 {
        build_row_5(opcode)
    } else if opcode < 0x70 {
        build_row_6(opcode)
    } else if opcode < 0x80 {
        build_row_7(opcode)
    } else if opcode < 0x90 {
        build_row_8(opcode)
    } else if opcode < 0xA0 {
        build_row_9(opcode)
    } else if opcode < 0xB0 {
        build_row_a(opcode)
    } else if opcode < 0xC0 {
        build_row_b(opcode)
    } else if opcode < 0xD0 {
        build_row_c(opcode)
    } else if opcode < 0xE0 {
        build_row_d(opcode)
    } else if opcode < 0xF0 {
        build_row_e(opcode)
    } else {
        build_row_f(opcode)
    }
}

/// The materialized table, one entry per opcode.
pub struct InstructionSet {
    instructions: Vec<Instruction>,
}

impl InstructionSet {
    /// Whether the table holds exactly the decode entries, in opcode order.
    pub closed spec fn wf(self) -> bool {
        &&& self.instructions@.len() == 256
        &&& forall|i: int|
            0 <= i < 256 ==> self.instructions@[i] == spec_instruction(i as u8)
    }

    pub fn new() -> (r: Self)
        ensures
            r.wf(),
    {
        let mut instructions: Vec<Instruction> = Vec::new();
        let mut i: usize = 0;
        while i < 256
            invariant
                i <= 256,
                instructions@.len() == i,
                forall|j: int| 0 <= j < i ==> instructions@[j] == spec_instruction(j as u8),
            decreases 256 - i,
        {
            instructions.push(instruction_for_opcode(i as u8));
            i = i + 1;
        }
        Self { instructions }
    }

    pub fn get_instruction_by_opcode(&self, opcode: u8) -> (r: Instruction)
        requires
            self.wf(),
        ensures
            r == spec_instruction(opcode),
    {
        self.instructions[opcode as usize]
    }
}

} // verus!