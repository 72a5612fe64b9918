//! The operand vocabulary of ARM instructions: conditions, data-processing operations,
//! registers, shifts, second operands and transfer units, each decoded from its bit field.

use vstd::prelude::*;
use super::intr::{bextr32, field32, lemma_field32_bounds};

verus! {

/// A condition that must pass before an instruction can be executed.
/// ARM instructions require this property but can use `AL` or `Always` to nop out of
/// a condition check.
#[derive(Debug, Copy, Clone, PartialEq, Eq, Structural)]
pub enum Condition {
    Equal,
    NotEqual,
    UnsignedHigherOrSame,
    UnsignedLower,
    Negative,
    PositiveOrZero,
    Overflow,
    NoOverflow,
    UnsignedHigher,
    UnsignedLowerOrSame,
    GreaterOrEqual,
    LessThan,
    GreaterThan,
    LessThanOrEqual,
    Always,
}

impl Condition {
    /// The 4-bit condition field this condition is encoded by.
    pub open spec fn code(self) -> u32 {
        match self {
            Condition::Equal => 0,
            Condition::NotEqual => 1,
            Condition::UnsignedHigherOrSame => 2,
            Condition::UnsignedLower => 3,
            Condition::Negative => 4,
            Condition::PositiveOrZero => 5,
            Condition::Overflow => 6,
            Condition::NoOverflow => 7,
            Condition::UnsignedHigher => 8,
            Condition::UnsignedLowerOrSame => 9,
            Condition::GreaterOrEqual => 10,
            Condition::LessThan => 11,
            Condition::GreaterThan => 12,
            Condition::LessThanOrEqual => 13,
            Condition::Always => 14,
        }
    }

    /// Decode a condition field (0b1111 encodes no condition).
    pub fn decode(code: u32) -> (r: Self)
        requires
            code < 15,
        ensures
            r.code() == code,
    {
        if code == 0 {
            Condition::Equal
        } else if code == 1 {
            Condition::NotEqual
        } else if code == 2 {
            Condition::UnsignedHigherOrSame
        } else if code == 3 {
            Condition::UnsignedLower
        } else if code == 4 {
            Condition::Negative
        } else if code == 5 {
            Condition::PositiveOrZero
        } else if code == 6 {
            Condition::Overflow
        } else if code == 7 {
            Condition::NoOverflow
        } else if code == 8 {
            Condition::UnsignedHigher
        } else if code == 9 {
            Condition::UnsignedLowerOrSame
        } else if code == 10 {
            Condition::GreaterOrEqual
        } else if code == 11 {
            Condition::LessThan
        } else if code == 12 {
            Condition::GreaterThan
        } else if code == 13 {
            Condition::LessThanOrEqual
        } else {
            Condition::Always
        }
    }
}

/// The operation of a data-processing instruction.
#[derive(Debug, Copy, Clone, PartialEq, Eq, Structural)]
pub enum DataProcessingOperation {
    And,
    ExclusiveOr,
    Subtract,
    ReverseSubtract,
    Add,
    AddWithCarry,
    SubtractWithCarry,
    ReverseSubtractWithCarry,
    TestBits,
    TestBitwiseEquality,
    Compare,
    CompareNegative,
    Or,
    Move,
    BitClear,
    MoveNegative,
}

impl DataProcessingOperation {
    /// The 4-bit opcode field this operation is encoded by.
    pub open spec fn code(self) -> u32 {
        match self {
            DataProcessingOperation::And => 0,
            DataProcessingOperation::ExclusiveOr => 1,
            DataProcessingOperation::Subtract => 2,
            DataProcessingOperation::ReverseSubtract => 3,
            DataProcessingOperation::Add => 4,
            DataProcessingOperation::AddWithCarry => 5,
            DataProcessingOperation::SubtractWithCarry => 6,
            DataProcessingOperation::ReverseSubtractWithCarry => 7,
            DataProcessingOperation::TestBits => 8,
            DataProcessingOperation::TestBitwiseEquality => 9,
            DataProcessingOperation::Compare => 10,
            DataProcessingOperation::CompareNegative => 11,
            DataProcessingOperation::Or => 12,
            DataProcessingOperation::Move => 13,
            DataProcessingOperation::BitClear => 14,
            DataProcessingOperation::MoveNegative => 15,
        }
    }

    /// Decode a data-processing opcode field.
    pub fn decode(code: u32) -> (r: Self)
        requires
            code < 16,
        ensures
            r.code() == code,
    {
        if code == 0 {
            DataProcessingOperation::And
        } else if code == 1 {
            DataProcessingOperation::ExclusiveOr
        } else if code == 2 {
            DataProcessingOperation::Subtract
        } else if code == 3 {
            DataProcessingOperation::ReverseSubtract
        } else if code == 4 {
            DataProcessingOperation::Add
        } else if code == 5 {
            DataProcessingOperation::AddWithCarry
        } else if code == 6 {
            DataProcessingOperation::SubtractWithCarry
        } else if code == 7 {
            DataProcessingOperation::ReverseSubtractWithCarry
        } else if code == 8 {
            DataProcessingOperation::TestBits
        } else if code == 9 {
            DataProcessingOperation::TestBitwiseEquality
        } else if code == 10 {
            DataProcessingOperation::Compare
        } else if code == 11 {
            DataProcessingOperation::CompareNegative
        } else if code == 12 {
            DataProcessingOperation::Or
        } else if code == 13 {
            DataProcessingOperation::Move
        } else if code == 14 {
            DataProcessingOperation::BitClear
        } else {
            DataProcessingOperation::MoveNegative
        }
    }
}

/// A reference to a register in an instruction.
#[derive(Debug, Copy, Clone, PartialEq, Eq, Structural)]
pub enum Register {
    R0,
    R1,
    R2,
    R3,
    R4,
    R5,
    R6,
    R7,
    R8,
    R9,
    R10,
    R11,
    R12,
    R13,
    R14,
    R15,
}

impl Register {
    /// The register number.
    pub open spec fn index(self) -> u32 {
        match self {
            Register::R0 => 0,
            Register::R1 => 1,
            Register::R2 => 2,
            Register::R3 => 3,
            Register::R4 => 4,
            Register::R5 => 5,
            Register::R6 => 6,
            Register::R7 => 7,
            Register::R8 => 8,
            Register::R9 => 9,
            Register::R10 => 10,
            Register::R11 => 11,
            Register::R12 => 12,
            Register::R13 => 13,
            Register::R14 => 14,
            Register::R15 => 15,
        }
    }

    /// Decode a 4-bit register field.
    pub fn decode(code: u32) -> (r: Self)
        requires
            code < 16,
        ensures
            r.index() == code,
    {
        if code == 0 {
            Register::R0
        } else if code == 1 {
            Register::R1
        } else if code == 2 {
            Register::R2
        } else if code == 3 {
            Register::R3
        } else if code == 4 {
            Register::R4
        } else if code == 5 {
            Register::R5
        } else if code == 6 {
            Register::R6
        } else if code == 7 {
            Register::R7
        } else if code == 8 {
            Register::R8
        } else if code == 9 {
            Register::R9
        } else if code == 10 {
            Register::R10
        } else if code == 11 {
            Register::R11
        } else if code == 12 {
            Register::R12
        } else if code == 13 {
            Register::R13
        } else if code == 14 {
            Register::R14
        } else {
            Register::R15
        }
    }
}

/// The kind of shift applied to a register operand.
#[derive(Debug, Copy, Clone, PartialEq, Eq, Structural)]
pub enum ShiftType {
    LogicalLeft,
    LogicalRight,
    ArithmeticRight,
    RotateRight,
}

impl ShiftType {
    /// The 2-bit shift-type field.
    pub open spec fn code(self) -> u32 {
        match self {
            ShiftType::LogicalLeft => 0,
            ShiftType::LogicalRight => 1,
            ShiftType::ArithmeticRight => 2,
            ShiftType::RotateRight => 3,
        }
    }

    /// Decode a 2-bit shift-type field.
    pub fn decode(code: u32) -> (r: Self)
        requires
            code < 4,
        ensures
            r.code() == code,
    {
        if code == 0 {
            ShiftType::LogicalLeft
        } else if code == 1 {
            ShiftType::LogicalRight
        } else if code == 2 {
            ShiftType::ArithmeticRight
        } else {
            ShiftType::RotateRight
        }
    }
}

impl Register {
    /// The register number, to index the register file.
    pub fn number(self) -> (n: usize)
        ensures
            n == self.index(),
    {
        match self {
            Register::R0 => 0,
            Register::R1 => 1,
            Register::R2 => 2,
            Register::R3 => 3,
            Register::R4 => 4,
            Register::R5 => 5,
            Register::R6 => 6,
            Register::R7 => 7,
            Register::R8 => 8,
            Register::R9 => 9,
            Register::R10 => 10,
            Register::R11 => 11,
            Register::R12 => 12,
            Register::R13 => 13,
            Register::R14 => 14,
            Register::R15 => 15,
        }
    }
}

/// A shift applied to a register operand: by an immediate amount or by the low byte of a
/// register.
#[derive(Debug, Copy, Clone, PartialEq, Eq, Structural)]
pub enum Shift {
    Immediate { amount: u8, type_: ShiftType },
    Register { s: Register, type_: ShiftType },
}

/// The shift encoded by the 8-bit shift field of a register operand: bit 0 selects a
/// register amount (register in bits 4-7), else bits 3-7 are the amount; bits 1-2 give
/// the type.
pub open spec fn shift_of(code: u32) -> Shift {
    let type_ = shift_type_of(field32(code, 1, 2));
    if field32(code, 0, 1) == 1 {
        Shift::Register { type_, s: register_of(field32(code, 4, 4)) }
    } else {
        Shift::Immediate { type_, amount: field32(code, 3, 5) as u8 }
    }
}

/// The register a 4-bit field names.
pub open spec fn register_of(code: u32) -> Register {
    choose|r: Register| r.index() == code
}

/// The shift type a 2-bit field names.
pub open spec fn shift_type_of(code: u32) -> ShiftType {
    choose|t: ShiftType| t.code() == code
}

/// The condition a 4-bit field names.
pub open spec fn condition_of(code: u32) -> Condition {
    choose|c: Condition| c.code() == code
}

/// The data-processing operation a 4-bit field names.
pub open spec fn operation_of(code: u32) -> DataProcessingOperation {
    choose|o: DataProcessingOperation| o.code() == code
}

/// Decoding a register field gives the register `register_of` names.
pub proof fn lemma_register_of(r: Register, code: u32)
    requires
        r.index() == code,
    ensures
        register_of(code) == r,
{
    let c = register_of(code);
    assert(c.index() == code);
}

/// Decoding a shift-type field gives the type `shift_type_of` names.
pub proof fn lemma_shift_type_of(t: ShiftType, code: u32)
    requires
        t.code() == code,
    ensures
        shift_type_of(code) == t,
{
    let c = shift_type_of(code);
    assert(c.code() == code);
}

/// Decoding a condition field gives the condition `condition_of` names.
pub proof fn lemma_condition_of(t: Condition, code: u32)
    requires
        t.code() == code,
    ensures
        condition_of(code) == t,
{
    let c = condition_of(code);
    assert(c.code() == code);
}

/// Decoding an opcode field gives the operation `operation_of` names.
pub proof fn lemma_operation_of(t: DataProcessingOperation, code: u32)
    requires
        t.code() == code,
    ensures
        operation_of(code) == t,
{
    let c = operation_of(code);
    assert(c.code() == code);
}

impl Shift {
    /// Decode the 8-bit shift field of a register operand.
    pub fn decode(code: u32) -> (r: Shift)
        ensures
            r == shift_of(code),
    {
        proof {
            lemma_field32_bounds(code, 0);
            lemma_field32_bounds(code, 1);
            lemma_field32_bounds(code, 3);
            lemma_field32_bounds(code, 4);
        }
        let type_ = ShiftType::decode(bextr32(code, 1, 2));
        proof {
            lemma_shift_type_of(type_, field32(code, 1, 2));
        }
        if bextr32(code, 0, 1) == 1 {
            let s = Register::decode(bextr32(code, 4, 4));
            proof {
                lemma_register_of(s, field32(code, 4, 4));
            }
            Shift::Register { type_, s }
        } else {
            Shift::Immediate { type_, amount: bextr32(code, 3, 5) as u8 }
        }
    }
}

/// The second operand of a data-processing or transfer instruction: an 8-bit immediate
/// rotated right by twice `rotate`, or a shifted register.
#[derive(Debug, Copy, Clone, PartialEq, Eq, Structural)]
pub enum Operand2 {
    Immediate { rotate: u8, value: u16 },
    Register { shift: Shift, m: Register },
}

/// The second operand encoded by the low 12 bits of `code`.
pub open spec fn operand2_of(code: u32, immediate: bool) -> Operand2 {
    if immediate {
        Operand2::Immediate { rotate: field32(code, 8, 4) as u8, value: (code & 0xff) as u16 }
    } else {
        Operand2::Register { shift: shift_of(field32(code, 4, 8)), m: register_of(field32(code, 0, 4)) }
    }
}

impl Operand2 {
    /// Decode the second operand from the low 12 bits of `code`.
    pub fn decode(code: u32, immediate: bool) -> (r: Operand2)
        ensures
            r == operand2_of(code, immediate),
    {
        proof {
            lemma_field32_bounds(code, 0);
            lemma_field32_bounds(code, 8);
        }
        if immediate {
            Operand2::Immediate { rotate: bextr32(code, 8, 4) as u8, value: (code & 0xff) as u16 }
        } else {
            let m = Register::decode(bextr32(code, 0, 4));
            proof {
                lemma_register_of(m, field32(code, 0, 4));
            }
            Operand2::Register { shift: Shift::decode(bextr32(code, 4, 8)), m }
        }
    }
}

/// Unit of data being swapped or transferred from a memory address.
#[derive(Debug, Copy, Clone, PartialEq, Eq, Structural)]
pub enum Unit {
    Byte,
    HalfWord,
    Word,
}

/// The ARM instruction classes.
#[derive(Debug, Copy, Clone, PartialEq, Eq, Structural)]
pub enum ArmInstruction {
    BranchExchange,
    BranchLink,
    DataProcessing,
    PsrTransfer,
    Multiply,
    SingleDataTransfer,
    HalfWordSignedTransfer,
    BlockDataTransfer,
    SingleDataSwap,
    SoftwareInterrupt,
}

/// The THUMB instruction classes.
#[derive(Debug, Copy, Clone, PartialEq, Eq, Structural)]
pub enum ThumbInstruction {
    MoveShiftedRegister,
    AddSub,
    MoveCompareAddSubtractImmediate,
    AluOps,
    HiRegisterOpsBranchExchange,
    LoadPcRelative,
    LoadStoreWithRegisterOffset,
    LoadStoreSignExtended,
    LoadStoreWithImmediateOffset,
    LoadStoreHalfWord,
    LoadStoreSpRelative,
    GetRelativeAddress,
    AddOffsetToSp,
    PushPop,
    MultipleLoadStore,
    ConditionalBranch,
    UnconditionalBranch,
    LongBranchWithLink,
    SoftwareInterrupt,
}

/// An instruction of either instruction set, with its opcode.
#[derive(Debug, Copy, Clone, PartialEq, Eq, Structural)]
pub enum Instruction {
    Arm(u32, ArmInstruction),
    Thumb(u16, ThumbInstruction),
}

} // verus!
