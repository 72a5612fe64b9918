//! The operands of the Sharp LR35902 (Game Boy CPU) instructions: registers, immediates,
//! indirect addresses and branch conditions.

use vstd::prelude::*;

verus! {

/// 8-bit Register
#[derive(Debug, Clone, Copy, PartialEq, Eq, Structural)]
pub enum Register8 {
    /// Primary accumulator. Arithmetic instructions are encoded to work with, and only with,
    /// the accumulator.
    A,
    B,
    C,
    D,
    E,
    H,
    L,
}

/// 16-bit Registers
#[derive(Debug, Clone, Copy, PartialEq, Eq, Structural)]
pub enum Register16 {
    /// Accumulator (A) and Flags (F); also known as, Processor Status Word (PSW).
    /// May only be pushed or poped.
    AF,
    BC,
    DE,
    HL,
    /// Stack pointer
    SP,
}

/// 8-bit Immediate: the byte following the opcode.
#[derive(Debug, Clone, Copy, PartialEq, Eq, Structural)]
pub struct Immediate8;

/// 16-bit Immediate: the little-endian word following the opcode.
#[derive(Debug, Clone, Copy, PartialEq, Eq, Structural)]
pub struct Immediate16;

/// Address
#[derive(Debug, Clone, Copy, PartialEq, Eq, Structural)]
pub enum Address {
    /// Immediate operand used as an address.
    Direct,
    BC,
    DE,
    HL,
    /// HL, Decrement or (HL-). Use the address HL then decrement HL.
    HLD,
    /// HL, Increment or (HL+). Use the address HL then increment HL.
    HLI,
    /// 0xFF00 plus the immediate byte operand.
    ZeroPage,
    /// 0xFF00 plus register C.
    ZeroPageC,
}

/// A branch condition on the flags.
#[derive(Debug, Clone, Copy, PartialEq, Eq, Structural)]
pub enum Condition {
    /// Unconditional
    Always,
    NotZero,
    Zero,
    NotCarry,
    Carry,
}

/// An 8-bit operand: a register, the immediate byte, or the byte at an address.
#[derive(Debug, Clone, Copy, PartialEq, Eq, Structural)]
pub enum Operand8 {
    Register(Register8),
    Immediate(Immediate8),
    Memory(Address),
}

/// The operand an opcode's 3-bit register field selects: B, C, D, E, H, L, (HL), A.
pub open spec fn operand_of(index: int) -> Operand8 {
    if index == 0 {
        Operand8::Register(Register8::B)
    } else if index == 1 {
        Operand8::Register(Register8::C)
    } else if index == 2 {
        Operand8::Register(Register8::D)
    } else if index == 3 {
        Operand8::Register(Register8::E)
    } else if index == 4 {
        Operand8::Register(Register8::H)
    } else if index == 5 {
        Operand8::Register(Register8::L)
    } else if index == 6 {
        Operand8::Memory(Address::HL)
    } else {
        Operand8::Register(Register8::A)
    }
}

/// The operand selected by a 3-bit register field (see `operand_of`).
pub fn operand_for(index: u8) -> (r: Operand8)
    requires
        index < 8,
    ensures
        r == operand_of(index as int),
{
    match index {
        0 => Operand8::Register(Register8::B),
        1 => Operand8::Register(Register8::C),
        2 => Operand8::Register(Register8::D),
        3 => Operand8::Register(Register8::E),
        4 => Operand8::Register(Register8::H),
        5 => Operand8::Register(Register8::L),
        6 => Operand8::Memory(Address::HL),
        _ => Operand8::Register(Register8::A),
    }
}

} // verus!
