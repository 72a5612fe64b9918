//! Decoding LR35902 opcodes into the operation they perform, for the base opcode table and
//! for the table of opcodes prefixed by 0xCB.

use vstd::prelude::*;
use super::operands::{operand_for, operand_of, Address, Condition, Immediate8, Operand8, Register16};

verus! {

/// A CPU operation with its operands.
#[derive(Debug, Clone, Copy, PartialEq, Eq, Structural)]
pub enum Operation {
    /// No operation
    Nop,
    /// 8-bit load (destination, source)
    Load8(Operand8, Operand8),
    /// 16-bit immediate load
    Load16Immediate(Register16),
    /// Relative jump
    JumpRelative(Condition),
    /// Absolute jump (to the immediate address or to HL)
    Jump(Condition, Address),
    /// Call (subroutine)
    Call(Condition),
    /// Return (from subroutine)
    Return(Condition),
    /// Return (from subroutine) and enable interrupts
    ReturnAndEnableInterrupts,
    /// Addition
    Add(Operand8),
    /// Addition (with carry)
    AddWithCarry(Operand8),
    /// Subtraction
    Sub(Operand8),
    /// Subtraction (with carry)
    SubWithCarry(Operand8),
    /// Compare
    Compare(Operand8),
    /// Bitwise AND
    And(Operand8),
    /// Bitwise OR
    Or(Operand8),
    /// Bitwise XOR
    Xor(Operand8),
    /// 8-bit increment
    Increment8(Operand8),
    /// 8-bit decrement
    Decrement8(Operand8),
    /// 16-bit increment
    Increment16(Register16),
    /// 16-bit decrement
    Decrement16(Register16),
    /// 16-bit push
    Push16(Register16),
    /// 16-bit pop
    Pop16(Register16),
    /// Enable interrupts
    EnableInterrupts,
    /// Disable interrupts
    DisableInterrupts,
    /// Rotate accumulator (A) left (through carry)
    RotateLeftAccumulator,
    /// Rotate accumulator (A) left
    RotateLeftCircularAccumulator,
    /// Rotate accumulator (A) right (through carry)
    RotateRightAccumulator,
    /// Rotate accumulator (A) right
    RotateRightCircularAccumulator,
    /// Rotate left (through carry)
    RotateLeft(Operand8),
    /// Rotate left
    RotateLeftCircular(Operand8),
    /// Rotate right (through carry)
    RotateRight(Operand8),
    /// Rotate right
    RotateRightCircular(Operand8),
    /// Swap, exchange low/hi-nibble
    ByteSwap(Operand8),
    /// Shift left (arithmetic)
    ShiftLeftA(Operand8),
    /// Shift right (arithmetic)
    ShiftRightA(Operand8),
    /// Shift right (logical)
    ShiftRightL(Operand8),
    /// Bit test
    BitTest(u8, Operand8),
    /// Bit set
    BitSet(u8, Operand8),
    /// Bit reset
    BitReset(u8, Operand8),
    /// Reset: call a fixed address
    Reset(u8),
    /// Complement A
    Complement,
    /// Complement the carry flag
    ComplementCarry,
    /// Set the carry flag
    SetCarry,
    /// Decimal-adjust A after a BCD addition or subtraction
    DecimalAdjust,
    /// 16-bit addition to HL
    AddToHl(Register16),
    /// Add the signed immediate to SP
    AddToSp,
    /// Load HL with SP plus the signed immediate
    LoadHlSpOffset,
    /// Undefined operation
    Undefined(u8),
}

/// The immediate operand.
pub open spec fn imm() -> Operand8 {
    Operand8::Immediate(Immediate8)
}

/// An indirect operand.
pub open spec fn mem(a: Address) -> Operand8 {
    Operand8::Memory(a)
}

/// The accumulator.
pub open spec fn acc() -> Operand8 {
    Operand8::Register(super::operands::Register8::A)
}

/// The ALU operation of row `row` (0 - 7) of block 0x80 - 0xBF, on `o`.
pub open spec fn alu_of(row: int, o: Operand8) -> Operation {
    if row == 0 {
        Operation::Add(o)
    } else if row == 1 {
        Operation::AddWithCarry(o)
    } else if row == 2 {
        Operation::Sub(o)
    } else if row == 3 {
        Operation::SubWithCarry(o)
    } else if row == 4 {
        Operation::And(o)
    } else if row == 5 {
        Operation::Xor(o)
    } else if row == 6 {
        Operation::Or(o)
    } else {
        Operation::Compare(o)
    }
}

/// The 16-bit register of row `row` (0 - 3) of a 16-bit column: BC, DE, HL, then `last`.
pub open spec fn pair_of(row: int, last: Register16) -> Register16 {
    if row == 0 {
        Register16::BC
    } else if row == 1 {
        Register16::DE
    } else if row == 2 {
        Register16::HL
    } else {
        last
    }
}

/// The condition of row `row` (0 - 3) of a conditional column: NZ, Z, NC, C.
pub open spec fn condition_of(row: int) -> Condition {
    if row == 0 {
        Condition::NotZero
    } else if row == 1 {
        Condition::Zero
    } else if row == 2 {
        Condition::NotCarry
    } else {
        Condition::Carry
    }
}

/// The operation of a base opcode below 0x40: loads, increments, decrements, relative jumps
/// and the accumulator rotations. Opcodes 0x08, 0x09, 0x10, 0x19, 0x27, 0x29, 0x2F, 0x37,
/// 0x39 and 0x3F are undefined.
pub open spec fn low_block(op: u8) -> Operation {
    let row = (op / 8) as int;
    let col = (op % 8) as int;
    let pair = pair_of(row / 2, Register16::SP);
    if col == 4 {
        Operation::Increment8(operand_of(row))
    } else if col == 5 {
        Operation::Decrement8(operand_of(row))
    } else if col == 6 {
        Operation::Load8(operand_of(row), imm())
    } else if col == 3 && row % 2 == 0 {
        Operation::Increment16(pair)
    } else if col == 3 {
        Operation::Decrement16(pair)
    } else if col == 1 && row % 2 == 0 {
        Operation::Load16Immediate(pair)
    } else if col == 2 {
        let a = if row / 2 == 0 {
            Address::BC
        } else if row / 2 == 1 {
            Address::DE
        } else if row / 2 == 2 {
            Address::HLI
        } else {
            Address::HLD
        };
        if row % 2 == 0 {
            Operation::Load8(mem(a), acc())
        } else {
            Operation::Load8(acc(), mem(a))
        }
    } else if col == 7 && row == 0 {
        Operation::RotateLeftCircularAccumulator
    } else if col == 7 && row == 1 {
        Operation::RotateRightCircularAccumulator
    } else if col == 7 && row == 2 {
        Operation::RotateLeftAccumulator
    } else if col == 7 && row == 3 {
        Operation::RotateRightAccumulator
    } else if col == 0 && row == 0 {
        Operation::Nop
    } else if col == 0 && row == 3 {
        Operation::JumpRelative(Condition::Always)
    } else if col == 0 && row >= 4 {
        Operation::JumpRelative(condition_of(row - 4))
    } else {
        Operation::Undefined(op)
    }
}

/// The operation of a base opcode from 0xC0: returns, pops, pushes, jumps, calls, the ALU
/// operations on the immediate, resets, the high-page loads, and DI/EI. Opcodes 0xCB,
/// 0xD3, 0xDB, 0xDD, 0xDE, 0xE3, 0xE4, 0xE8, 0xEB, 0xEC, 0xED, 0xF4, 0xF8, 0xF9, 0xFC and
/// 0xFD are undefined.
pub open spec fn high_block(op: u8) -> Operation {
    let row = ((op - 0xC0) / 8) as int;
    let col = (op % 8) as int;
    if col == 7 {
        Operation::Reset((row * 8) as u8)
    } else if col == 6 && row != 3 {
        alu_of(row, imm())
    } else if col == 5 && row % 2 == 0 {
        Operation::Push16(pair_of(row / 2, Register16::AF))
    } else if col == 1 && row % 2 == 0 {
        Operation::Pop16(pair_of(row / 2, Register16::AF))
    } else if col == 0 && row < 4 {
        Operation::Return(condition_of(row))
    } else if col == 2 && row < 4 {
        Operation::Jump(condition_of(row), Address::Direct)
    } else if col == 4 && row < 4 {
        Operation::Call(condition_of(row))
    } else if op == 0xC9 {
        Operation::Return(Condition::Always)
    } else if op == 0xD9 {
        Operation::ReturnAndEnableInterrupts
    } else if op == 0xC3 {
        Operation::Jump(Condition::Always, Address::Direct)
    } else if op == 0xE9 {
        Operation::Jump(Condition::Always, Address::HL)
    } else if op == 0xCD {
        Operation::Call(Condition::Always)
    } else if op == 0xE0 {
        Operation::Load8(mem(Address::ZeroPage), acc())
    } else if op == 0xF0 {
        Operation::Load8(acc(), mem(Address::ZeroPage))
    } else if op == 0xE2 {
        Operation::Load8(mem(Address::ZeroPageC), acc())
    } else if op == 0xF2 {
        Operation::Load8(acc(), mem(Address::ZeroPageC))
    } else if op == 0xEA {
        Operation::Load8(mem(Address::Direct), acc())
    } else if op == 0xFA {
        Operation::Load8(acc(), mem(Address::Direct))
    } else if op == 0xF3 {
        Operation::DisableInterrupts
    } else if op == 0xFB {
        Operation::EnableInterrupts
    } else {
        Operation::Undefined(op)
    }
}

/// The operation of a base opcode. 0x40 - 0x7F are `LD r, r'` (0x76 is undefined) and
/// 0x80 - 0xBF the ALU operations on A (SBC, 0x98 - 0x9F, is undefined), the register
/// field in bits 0-2 and the row in bits 3-5.
pub open spec fn visited(op: u8) -> Operation {
    if op < 0x40 {
        low_block(op)
    } else if op < 0x80 {
        if op == 0x76 {
            Operation::Undefined(op)
        } else {
            Operation::Load8(operand_of(((op / 8) % 8) as int), operand_of((op % 8) as int))
        }
    } else if op < 0xC0 {
        if (op / 8) % 8 == 3 {
            Operation::Undefined(op)
        } else {
            alu_of(((op / 8) % 8) as int, operand_of((op % 8) as int))
        }
    } else {
        high_block(op)
    }
}

/// The operation of a 0xCB-prefixed opcode: bits 6-7 choose a rotation/shift (its kind in
/// bits 3-5), BIT, RES or SET (the bit number in bits 3-5); bits 0-2 the operand.
pub open spec fn visited_cb(op: u8) -> Operation {
    let o = operand_of((op % 8) as int);
    let row = (op / 8) % 8;
    if op < 0x40 {
        if row == 0 {
            Operation::RotateLeftCircular(o)
        } else if row == 1 {
            Operation::RotateRightCircular(o)
        } else if row == 2 {
            Operation::RotateLeft(o)
        } else if row == 3 {
            Operation::RotateRight(o)
        } else if row == 4 {
            Operation::ShiftLeftA(o)
        } else if row == 5 {
            Operation::ShiftRightA(o)
        } else if row == 6 {
            Operation::ByteSwap(o)
        } else {
            Operation::ShiftRightL(o)
        }
    } else if op < 0x80 {
        Operation::BitTest(row, o)
    } else if op < 0xC0 {
        Operation::BitReset(row, o)
    } else {
        Operation::BitSet(row, o)
    }
}

/// The ALU operation of a row of block 0x80 - 0xBF.
fn alu_for(row: u8, o: Operand8) -> (r: Operation)
    requires
        row < 8,
    ensures
        r == alu_of(row as int, o),
{
    match row {
        0 => Operation::Add(o),
        1 => Operation::AddWithCarry(o),
        2 => Operation::Sub(o),
        3 => Operation::SubWithCarry(o),
        4 => Operation::And(o),
        5 => Operation::Xor(o),
        6 => Operation::Or(o),
        _ => Operation::Compare(o),
    }
}

/// The 16-bit register of a row of a 16-bit column.
fn pair_for(row: u8, last: Register16) -> (r: Register16)
    requires
        row < 4,
    ensures
        r == pair_of(row as int, last),
{
    match row {
        0 => Register16::BC,
        1 => Register16::DE,
        2 => Register16::HL,
        _ => last,
    }
}

/// The condition of a row of a conditional column.
fn condition_for(row: u8) -> (r: Condition)
    requires
        row < 4,
    ensures
        r == condition_of(row as int),
{
    match row {
        0 => Condition::NotZero,
        1 => Condition::Zero,
        2 => Condition::NotCarry,
        _ => Condition::Carry,
    }
}

/// Decode a base opcode below 0x40.
fn visit_low(op: u8) -> (r: Operation)
    requires
        op < 0x40,
    ensures
        r == low_block(op),
{
    let row = op / 8;
    let col = op % 8;
    if col == 4 {
        Operation::Increment8(operand_for(row))
    } else if col == 5 {
        Operation::Decrement8(operand_for(row))
    } else if col == 6 {
        Operation::Load8(operand_for(row), Operand8::Immediate(Immediate8))
    } else if col == 3 && row % 2 == 0 {
        Operation::Increment16(pair_for(row / 2, Register16::SP))
    } else if col == 3 {
        Operation::Decrement16(pair_for(row / 2, Register16::SP))
    } else if col == 1 && row % 2 == 0 {
        Operation::Load16Immediate(pair_for(row / 2, Register16::SP))
    } else if col == 2 {
        let a = match row / 2 {
            0 => Address::BC,
            1 => Address::DE,
            2 => Address::HLI,
            _ => Address::HLD,
        };
        let acc = Operand8::Register(super::operands::Register8::A);
        if row % 2 == 0 {
            Operation::Load8(Operand8::Memory(a), acc)
        } else {
            Operation::Load8(acc, Operand8::Memory(a))
        }
    } else if col == 7 {
        match row {
            0 => Operation::RotateLeftCircularAccumulator,
            1 => Operation::RotateRightCircularAccumulator,
            2 => Operation::RotateLeftAccumulator,
            3 => Operation::RotateRightAccumulator,
            _ => Operation::Undefined(op),
        }
    } else if col == 0 && row == 0 {
        Operation::Nop
    } else if col == 0 && row == 3 {
        Operation::JumpRelative(Condition::Always)
    } else if col == 0 && row >= 4 {
        Operation::JumpRelative(condition_for(row - 4))
    } else {
        Operation::Undefined(op)
    }
}

/// Decode a base opcode from 0xC0.
fn visit_high(op: u8) -> (r: Operation)
    requires
        op >= 0xC0,
    ensures
        r == high_block(op),
{
    let row = (op - 0xC0) / 8;
    let col = op % 8;
    if col == 7 {
        Operation::Reset(row * 8)
    } else if col == 6 && row != 3 {
        alu_for(row, Operand8::Immediate(Immediate8))
    } else if col == 5 && row % 2 == 0 {
        Operation::Push16(pair_for(row / 2, Register16::AF))
    } else if col == 1 && row % 2 == 0 {
        Operation::Pop16(pair_for(row / 2, Register16::AF))
    } else if col == 0 && row < 4 {
        Operation::Return(condition_for(row))
    } else if col == 2 && row < 4 {
        Operation::Jump(condition_for(row), Address::Direct)
    } else if col == 4 && row < 4 {
        Operation::Call(condition_for(row))
    } else {
        let acc = Operand8::Register(super::operands::Register8::A);
        match op {
            0xC9 => Operation::Return(Condition::Always),
            0xD9 => Operation::ReturnAndEnableInterrupts,
            0xC3 => Operation::Jump(Condition::Always, Address::Direct),
            0xE9 => Operation::Jump(Condition::Always, Address::HL),
            0xCD => Operation::Call(Condition::Always),
            0xE0 => Operation::Load8(Operand8::Memory(Address::ZeroPage), acc),
            0xF0 => Operation::Load8(acc, Operand8::Memory(Address::ZeroPage)),
            0xE2 => Operation::Load8(Operand8::Memory(Address::ZeroPageC), acc),
            0xF2 => Operation::Load8(acc, Operand8::Memory(Address::ZeroPageC)),
            0xEA => Operation::Load8(Operand8::Memory(Address::Direct), acc),
            0xFA => Operation::Load8(acc, Operand8::Memory(Address::Direct)),
            0xF3 => Operation::DisableInterrupts,
            0xFB => Operation::EnableInterrupts,
            _ => Operation::Undefined(op),
        }
    }
}

/// Decode a base opcode.
pub fn visit(opcode: u8) -> (r: Operation)
    ensures
        r == visited(opcode),
{
    if opcode < 0x40 {
        visit_low(opcode)
    } else if opcode < 0x80 {
        if opcode == 0x76 {
            Operation::Undefined(opcode)
        } else {
            Operation::Load8(operand_for((opcode / 8) % 8), operand_for(opcode % 8))
        }
    } else if opcode < 0xC0 {
        if (opcode / 8) % 8 == 3 {
            Operation::Undefined(opcode)
        } else {
            alu_for((opcode / 8) % 8, operand_for(opcode % 8))
        }
    } else {
        visit_high(opcode)
    }
}

/// Decode a 0xCB-prefixed opcode.
pub fn visit_cb(opcode: u8) -> (r: Operation)
    ensures
        r == visited_cb(opcode),
{
    let o = operand_for(opcode % 8);
    let row = (opcode / 8) % 8;
    if opcode < 0x40 {
        match row {
            0 => Operation::RotateLeftCircular(o),
            1 => Operation::RotateRightCircular(o),
            2 => Operation::RotateLeft(o),
            3 => Operation::RotateRight(o),
            4 => Operation::ShiftLeftA(o),
            5 => Operation::ShiftRightA(o),
            6 => Operation::ByteSwap(o),
            _ => Operation::ShiftRightL(o),
        }
    } else if opcode < 0x80 {
        Operation::BitTest(row, o)
    } else if opcode < 0xC0 {
        Operation::BitReset(row, o)
    } else {
        Operation::BitSet(row, o)
    }
}

} // verus!
