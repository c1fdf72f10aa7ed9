//! Decoded instruction metadata: the mnemonic tag, the two operand
//! descriptors, the branch condition and the fixed RST parameter that one
//! entry of the decode table carries.

use vstd::prelude::*;

verus! {

/// One entry of the decode table.
#[derive(Clone, Copy, Debug)]
pub struct Instruction {
    pub description: &'static str,
    pub instruction_type: InstructionType,
    pub operand_1: Operand,
    pub operand_2: Operand,
    pub condition: ConditionType,
    pub parameter: Option<u8>,
}

impl Default for Instruction {
    fn default() -> (r: Self)
        ensures
            r.instruction_type == InstructionType::NONE,
            r.operand_1 == Operand::NoOperand,
            r.operand_2 == Operand::NoOperand,
            r.condition == ConditionType::Unconditional,
            r.parameter == Option::<u8>::None,
    {
        Self {
            description: "NONE",
            instruction_type: InstructionType::NONE,
            operand_1: Operand::NoOperand,
            operand_2: Operand::NoOperand,
            condition: ConditionType::Unconditional,
            parameter: Option::None,
        }
    }
}

impl Instruction {
    pub fn instruction_no_operands(description: &'static str, instruction_type: InstructionType)
        -> (r: Self)
        ensures
            r == (Instruction {
                description,
                instruction_type,
                operand_1: Operand::NoOperand,
                operand_2: Operand::NoOperand,
                condition: ConditionType::Unconditional,
                parameter: Option::None,
            }),
    {
        Self {
            description,
            instruction_type,
            operand_1: Operand::NoOperand,
            operand_2: Operand::NoOperand,
            condition: ConditionType::Unconditional,
            parameter: Option::None,
        }
    }

    pub fn instruction_no_operands_with_condition(
        description: &'static str,
        instruction_type: InstructionType,
        condition: ConditionType,
    ) -> (r: Self)
        ensures
            r == (Instruction {
                description,
                instruction_type,
                operand_1: Operand::NoOperand,
                operand_2: Operand::NoOperand,
                condition,
                parameter: Option::None,
            }),
    {
        Self {
            description,
            instruction_type,
            operand_1: Operand::NoOperand,
            operand_2: Operand::NoOperand,
            condition,
            parameter: Option::None,
        }
    }

    pub fn instruction_1_operand(
        description: &'static str,
        instruction_type: InstructionType,
        operand_1: Operand,
    ) -> (r: Self)
        ensures
            r == (Instruction {
                description,
                instruction_type,
                operand_1,
                operand_2: Operand::NoOperand,
                condition: ConditionType::Unconditional,
                parameter: Option::None,
            }),
    {
        Self {
            description,
            instruction_type,
            operand_1,
            operand_2: Operand::NoOperand,
            condition: ConditionType::Unconditional,
            parameter: Option::None,
        }
    }

    pub fn instruction_1_operand_with_condition(
        description: &'static str,
        instruction_type: InstructionType,
        operand_1: Operand,
        condition: ConditionType,
    ) -> (r: Self)
        ensures
            r == (Instruction {
                description,
                instruction_type,
                operand_1,
                operand_2: Operand::NoOperand,
                condition,
                parameter: Option::None,
            }),
    {
        Self {
            description,
            instruction_type,
            operand_1,
            operand_2: Operand::NoOperand,
            condition,
            parameter: Option::None,
        }
    }

    pub fn instruction_2_operands(
        description: &'static str,
        instruction_type: InstructionType,
        operand_1: Operand,
        operand_2: Operand,
    ) -> (r: Self)
        ensures
            r == (Instruction {
                description,
                instruction_type,
                operand_1,
                operand_2,
                condition: ConditionType::Unconditional,
                parameter: Option::None,
            }),
    {
        Self {
            description,
            instruction_type,
            operand_1,
            operand_2,
            condition: ConditionType::Unconditional,
            parameter: Option::None,
        }
    }

    pub fn instruction_with_parameter(
        description: &'static str,
        instruction_type: InstructionType,
        parameter: u8,
    ) -> (r: Self)
        ensures
            r == (Instruction {
                description,
                instruction_type,
                operand_1: Operand::NoOperand,
                operand_2: Operand::NoOperand,
                condition: ConditionType::Unconditional,
                parameter: Option::Some(parameter),
            }),
    {
        Self {
            description,
            instruction_type,
            operand_1: Operand::NoOperand,
            operand_2: Operand::NoOperand,
            condition: ConditionType::Unconditional,
            parameter: Option::Some(parameter),
        }
    }
}

/// How an operand is obtained: a register, an indirection through a register
/// (with the `(HL+)`/`(HL-)` post-modifying forms and the `$FF00 | C` I/O
/// form), an immediate byte or word, an immediate address, a signed
/// displacement, or the `SP+r8` sum.
#[derive(Clone, Copy, Debug, PartialEq, Eq, Structural)]
pub enum Operand {
    NoOperand,
    Register(RegisterType),
    Indirect(RegisterType),
    IndirectIncrementHL,
    IndirectDecrementHL,
    A8Indirect,
    A16,
    A16Indirect,
    D8,
    D16,
    R8,
    SpPlusR8,
}

impl Default for Operand {
    fn default() -> (r: Self)
        ensures
            r == Operand::NoOperand,
    {
        Operand::NoOperand
    }
}

/// The branch condition of a JP/JR/CALL/RET entry, tested against F.
#[derive(Clone, Copy, Debug, PartialEq, Eq, Structural)]
pub enum ConditionType {
    Unconditional,
    NZ,
    Z,
    NC,
    C,
}

impl Default for ConditionType {
    fn default() -> (r: Self)
        ensures
            r == ConditionType::Unconditional,
    {
        ConditionType::Unconditional
    }
}

/// The operation class of a decode-table entry.
#[derive(Clone, Copy, Debug, PartialEq, Eq, Structural)]
pub enum InstructionType {
    NONE,
    NOP,
    LD,
    INC,
    DEC,
    RLCA,
    ADD,
    RRCA,
    STOP,
    RLA,
    JR,
    RRA,
    DAA,
    CPL,
    SCF,
    CCF,
    HALT,
    ADC,
    SUB,
    SBC,
    AND,
    XOR,
    OR,
    CP,
    POP,
    JP,
    PUSH,
    RET,
    CB,
    CALL,
    RETI,
    LDH,
    JPHL,
    DI,
    EI,
    RST,
    ERR,
    RLC,
    RRC,
    RL,
    RR,
    SLA,
    SRA,
    SWAP,
    SRL,
    BIT,
    RES,
    SET,
}

impl Default for InstructionType {
    fn default() -> (r: Self)
        ensures
            r == InstructionType::NONE,
    {
        InstructionType::NONE
    }
}

/// A named CPU register or register pair.
#[derive(Clone, Copy, Debug, PartialEq, Eq, Structural)]
pub enum RegisterType {
    A,
    F,
    B,
    C,
    D,
    E,
    H,
    L,
    AF,
    BC,
    DE,
    HL,
    SP,
    PC,
}

impl RegisterType {
    /// Whether this register names a 16-bit pair (or SP/PC) rather than a
    /// single byte register.
    pub open spec fn spec_is_16bit(self) -> bool {
        match self {
            RegisterType::AF
            | RegisterType::BC
            | RegisterType::DE
            | RegisterType::HL
            | RegisterType::SP
            | RegisterType::PC => true,
            _ => false,
        }
    }

    pub fn is_16bit(&self) -> (r: bool)
        ensures
            r == self.spec_is_16bit(),
    {
        match self {
            RegisterType::AF
            | RegisterType::BC
            | RegisterType::DE
            | RegisterType::HL
            | RegisterType::SP
            | RegisterType::PC => true,
            _ => false,
        }
    }
}

} // verus!
