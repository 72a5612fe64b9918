//! The 2A03 opcode table: which mnemonic and addressing mode each opcode encodes.

use vstd::prelude::*;
use super::operation::{Cpu, Operand, Register};
use super::state::CpuState;
use crate::error::Error;

verus! {

/// An instruction mnemonic. The shifts and rotations carry their operand: the accumulator
/// (with implied addressing) or memory.
#[allow(non_camel_case_types)]
#[derive(Debug, Clone, Copy, PartialEq, Eq, Structural)]
pub enum Mnemonic {
    /// Add with carry
    ADC,
    /// AND then LSR (unofficial)
    ALR,
    /// AND, carry from bit 7 (unofficial)
    ANC,
    /// Bitwise AND
    AND,
    /// AND then ROR (unofficial)
    ARR,
    /// Arithmetic shift left
    ASL(Operand),
    /// Branch if carry clear
    BCC,
    /// Branch if carry set
    BCS,
    /// Branch if equal
    BEQ,
    /// Bit test
    BIT,
    /// Branch if minus
    BMI,
    /// Branch if not equal
    BNE,
    /// Branch if plus
    BPL,
    /// Break
    BRK,
    /// Branch if overflow clear
    BVC,
    /// Branch if overflow set
    BVS,
    /// Clear carry
    CLC,
    /// Clear decimal
    CLD,
    /// Clear interrupt disable
    CLI,
    /// Clear overflow
    CLV,
    /// Compare A
    CMP,
    /// Compare X
    CPX,
    /// Compare Y
    CPY,
    /// DEC then CMP (unofficial)
    DCP,
    /// Decrement memory
    DEC,
    /// Decrement X
    DEX,
    /// Decrement Y
    DEY,
    /// Bitwise exclusive OR
    EOR,
    /// Increment memory
    INC,
    /// Increment X
    INX,
    /// Increment Y
    INY,
    /// INC then SBC (unofficial)
    ISC,
    /// Jump
    JMP,
    /// Jump to subroutine
    JSR,
    /// LDA and LDX (unofficial)
    LAX,
    /// Load A
    LDA,
    /// Load X
    LDX,
    /// Load Y
    LDY,
    /// Logical shift right
    LSR(Operand),
    /// Load A and X from an immediate (unofficial)
    LXA,
    /// No operation
    NOP,
    /// Bitwise OR
    ORA,
    /// Push A
    PHA,
    /// Push P
    PHP,
    /// Pull A
    PLA,
    /// Pull P
    PLP,
    /// ROL then AND (unofficial)
    RLA,
    /// Rotate left
    ROL(Operand),
    /// Rotate right
    ROR(Operand),
    /// ROR then ADC (unofficial)
    RRA,
    /// Return from interrupt
    RTI,
    /// Return from subroutine
    RTS,
    /// Store A AND X (unofficial)
    SAX,
    /// Subtract with carry
    SBC,
    /// X = (A AND X) - operand (unofficial)
    SBX,
    /// Set carry
    SEC,
    /// Set decimal
    SED,
    /// Set interrupt disable
    SEI,
    /// Store A AND X AND high byte (unofficial)
    SHA,
    /// Store X AND high byte (unofficial)
    SHX,
    /// Store Y AND high byte (unofficial)
    SHY,
    /// ASL then ORA (unofficial)
    SLO,
    /// LSR then EOR (unofficial)
    SRE,
    /// Store A
    STA,
    /// Store X
    STX,
    /// Store Y
    STY,
    /// Transfer A to X
    TAX,
    /// Transfer A to Y
    TAY,
    /// Transfer SP to X
    TSX,
    /// Transfer X to A
    TXA,
    /// Transfer X to SP
    TXS,
    /// Transfer Y to A
    TYA,
}

/// How an instruction locates its operand.
#[derive(Debug, Clone, Copy, PartialEq, Eq, Structural)]
pub enum Mode {
    Implied,
    Immediate,
    ZeroPage,
    ZeroPageX,
    ZeroPageY,
    Absolute,
    AbsoluteX,
    AbsoluteY,
    Indirect,
    IndirectX,
    IndirectY,
    Relative,
}

/// The mnemonic and addressing mode of each implemented opcode; `None` for the opcodes
/// that are not implemented (the CPU treats those as illegal instructions).
pub open spec fn opcode_table(op: u8) -> Option<(Mnemonic, Mode)> {
    match op {
        0x00 => Some((Mnemonic::BRK, Mode::Implied)),
        0x01 => Some((Mnemonic::ORA, Mode::IndirectX)),
        0x03 => Some((Mnemonic::SLO, Mode::IndirectX)),
        0x04 => Some((Mnemonic::NOP, Mode::ZeroPage)),
        0x05 => Some((Mnemonic::ORA, Mode::ZeroPage)),
        0x06 => Some((Mnemonic::ASL(Operand::Memory), Mode::ZeroPage)),
        0x07 => Some((Mnemonic::SLO, Mode::ZeroPage)),
        0x08 => Some((Mnemonic::PHP, Mode::Implied)),
        0x09 => Some((Mnemonic::ORA, Mode::Immediate)),
        0x0a => Some((Mnemonic::ASL(Operand::Register(Register::A)), Mode::Implied)),
        0x0b => Some((Mnemonic::ANC, Mode::Immediate)),
        0x0c => Some((Mnemonic::NOP, Mode::Absolute)),
        0x0d => Some((Mnemonic::ORA, Mode::Absolute)),
        0x0e => Some((Mnemonic::ASL(Operand::Memory), Mode::Absolute)),
        0x0f => Some((Mnemonic::SLO, Mode::Absolute)),
        0x10 => Some((Mnemonic::BPL, Mode::Relative)),
        0x11 => Some((Mnemonic::ORA, Mode::IndirectY)),
        0x13 => Some((Mnemonic::SLO, Mode::IndirectY)),
        0x14 => Some((Mnemonic::NOP, Mode::ZeroPageX)),
        0x15 => Some((Mnemonic::ORA, Mode::ZeroPageX)),
        0x16 => Some((Mnemonic::ASL(Operand::Memory), Mode::ZeroPageX)),
        0x17 => Some((Mnemonic::SLO, Mode::ZeroPageX)),
        0x18 => Some((Mnemonic::CLC, Mode::Implied)),
        0x19 => Some((Mnemonic::ORA, Mode::AbsoluteY)),
        0x1a => Some((Mnemonic::NOP, Mode::Implied)),
        0x1b => Some((Mnemonic::SLO, Mode::AbsoluteY)),
        0x1c => Some((Mnemonic::NOP, Mode::AbsoluteX)),
        0x1d => Some((Mnemonic::ORA, Mode::AbsoluteX)),
        0x1e => Some((Mnemonic::ASL(Operand::Memory), Mode::AbsoluteX)),
        0x1f => Some((Mnemonic::SLO, Mode::AbsoluteX)),
        0x20 => Some((Mnemonic::JSR, Mode::Implied)),
        0x21 => Some((Mnemonic::AND, Mode::IndirectX)),
        0x23 => Some((Mnemonic::RLA, Mode::IndirectX)),
        0x24 => Some((Mnemonic::BIT, Mode::ZeroPage)),
        0x25 => Some((Mnemonic::AND, Mode::ZeroPage)),
        0x26 => Some((Mnemonic::ROL(Operand::Memory), Mode::ZeroPage)),
        0x27 => Some((Mnemonic::RLA, Mode::ZeroPage)),
        0x28 => Some((Mnemonic::PLP, Mode::Implied)),
        0x29 => Some((Mnemonic::AND, Mode::Immediate)),
        0x2a => Some((Mnemonic::ROL(Operand::Register(Register::A)), Mode::Implied)),
        0x2b => Some((Mnemonic::ANC, Mode::Immediate)),
        0x2c => Some((Mnemonic::BIT, Mode::Absolute)),
        0x2d => Some((Mnemonic::AND, Mode::Absolute)),
        0x2e => Some((Mnemonic::ROL(Operand::Memory), Mode::Absolute)),
        0x2f => Some((Mnemonic::RLA, Mode::Absolute)),
        0x30 => Some((Mnemonic::BMI, Mode::Relative)),
        0x31 => Some((Mnemonic::AND, Mode::IndirectY)),
        0x33 => Some((Mnemonic::RLA, Mode::IndirectY)),
        0x34 => Some((Mnemonic::NOP, Mode::ZeroPageX)),
        0x35 => Some((Mnemonic::AND, Mode::ZeroPageX)),
        0x36 => Some((Mnemonic::ROL(Operand::Memory), Mode::ZeroPageX)),
        0x37 => Some((Mnemonic::RLA, Mode::ZeroPageX)),
        0x38 => Some((Mnemonic::SEC, Mode::Implied)),
        0x39 => Some((Mnemonic::AND, Mode::AbsoluteY)),
        0x3a => Some((Mnemonic::NOP, Mode::Implied)),
        0x3b => Some((Mnemonic::RLA, Mode::AbsoluteY)),
        0x3c => Some((Mnemonic::NOP, Mode::AbsoluteX)),
        0x3d => Some((Mnemonic::AND, Mode::AbsoluteX)),
        0x3e => Some((Mnemonic::ROL(Operand::Memory), Mode::AbsoluteX)),
        0x3f => Some((Mnemonic::RLA, Mode::AbsoluteX)),
        0x40 => Some((Mnemonic::RTI, Mode::Implied)),
        0x41 => Some((Mnemonic::EOR, Mode::IndirectX)),
        0x43 => Some((Mnemonic::SRE, Mode::IndirectX)),
        0x44 => Some((Mnemonic::NOP, Mode::ZeroPage)),
        0x45 => Some((Mnemonic::EOR, Mode::ZeroPage)),
        0x46 => Some((Mnemonic::LSR(Operand::Memory), Mode::ZeroPage)),
        0x47 => Some((Mnemonic::SRE, Mode::ZeroPage)),
        0x48 => Some((Mnemonic::PHA, Mode::Implied)),
        0x49 => Some((Mnemonic::EOR, Mode::Immediate)),
        0x4a => Some((Mnemonic::LSR(Operand::Register(Register::A)), Mode::Implied)),
        0x4b => Some((Mnemonic::ALR, Mode::Immediate)),
        0x4c => Some((Mnemonic::JMP, Mode::Absolute)),
        0x4d => Some((Mnemonic::EOR, Mode::Absolute)),
        0x4e => Some((Mnemonic::LSR(Operand::Memory), Mode::Absolute)),
        0x4f => Some((Mnemonic::SRE, Mode::Absolute)),
        0x50 => Some((Mnemonic::BVC, Mode::Relative)),
        0x51 => Some((Mnemonic::EOR, Mode::IndirectY)),
        0x53 => Some((Mnemonic::SRE, Mode::IndirectY)),
        0x54 => Some((Mnemonic::NOP, Mode::ZeroPageX)),
        0x55 => Some((Mnemonic::EOR, Mode::ZeroPageX)),
        0x56 => Some((Mnemonic::LSR(Operand::Memory), Mode::ZeroPageX)),
        0x57 => Some((Mnemonic::SRE, Mode::ZeroPageX)),
        0x58 => Some((Mnemonic::CLI, Mode::Implied)),
        0x59 => Some((Mnemonic::EOR, Mode::AbsoluteY)),
        0x5a => Some((Mnemonic::NOP, Mode::Implied)),
        0x5b => Some((Mnemonic::SRE, Mode::AbsoluteY)),
        0x5c => Some((Mnemonic::NOP, Mode::AbsoluteX)),
        0x5d => Some((Mnemonic::EOR, Mode::AbsoluteX)),
        0x5e => Some((Mnemonic::LSR(Operand::Memory), Mode::AbsoluteX)),
        0x5f => Some((Mnemonic::SRE, Mode::AbsoluteX)),
        0x60 => Some((Mnemonic::RTS, Mode::Implied)),
        0x61 => Some((Mnemonic::ADC, Mode::IndirectX)),
        0x63 => Some((Mnemonic::RRA, Mode::IndirectX)),
        0x64 => Some((Mnemonic::NOP, Mode::ZeroPage)),
        0x65 => Some((Mnemonic::ADC, Mode::ZeroPage)),
        0x66 => Some((Mnemonic::ROR(Operand::Memory), Mode::ZeroPage)),
        0x67 => Some((Mnemonic::RRA, Mode::ZeroPage)),
        0x68 => Some((Mnemonic::PLA, Mode::Implied)),
        0x69 => Some((Mnemonic::ADC, Mode::Immediate)),
        0x6a => Some((Mnemonic::ROR(Operand::Register(Register::A)), Mode::Implied)),
        0x6b => Some((Mnemonic::ARR, Mode::Immediate)),
        0x6c => Some((Mnemonic::JMP, Mode::Indirect)),
        0x6d => Some((Mnemonic::ADC, Mode::Absolute)),
        0x6e => Some((Mnemonic::ROR(Operand::Memory), Mode::Absolute)),
        0x6f => Some((Mnemonic::RRA, Mode::Absolute)),
        0x70 => Some((Mnemonic::BVS, Mode::Relative)),
        0x71 => Some((Mnemonic::ADC, Mode::IndirectY)),
        0x73 => Some((Mnemonic::RRA, Mode::IndirectY)),
        0x74 => Some((Mnemonic::NOP, Mode::ZeroPageX)),
        0x75 => Some((Mnemonic::ADC, Mode::ZeroPageX)),
        0x76 => Some((Mnemonic::ROR(Operand::Memory), Mode::ZeroPageX)),
        0x77 => Some((Mnemonic::RRA, Mode::ZeroPageX)),
        0x78 => Some((Mnemonic::SEI, Mode::Implied)),
        0x79 => Some((Mnemonic::ADC, Mode::AbsoluteY)),
        0x7a => Some((Mnemonic::NOP, Mode::Implied)),
        0x7b => Some((Mnemonic::RRA, Mode::AbsoluteY)),
        0x7c => Some((Mnemonic::NOP, Mode::AbsoluteX)),
        0x7d => Some((Mnemonic::ADC, Mode::AbsoluteX)),
        0x7e => Some((Mnemonic::ROR(Operand::Memory), Mode::AbsoluteX)),
        0x7f => Some((Mnemonic::RRA, Mode::AbsoluteX)),
        0x80 => Some((Mnemonic::NOP, Mode::Immediate)),
        0x81 => Some((Mnemonic::STA, Mode::IndirectX)),
        0x82 => Some((Mnemonic::NOP, Mode::Immediate)),
        0x83 => Some((Mnemonic::SAX, Mode::IndirectX)),
        0x84 => Some((Mnemonic::STY, Mode::ZeroPage)),
        0x85 => Some((Mnemonic::STA, Mode::ZeroPage)),
        0x86 => Some((Mnemonic::STX, Mode::ZeroPage)),
        0x87 => Some((Mnemonic::SAX, Mode::ZeroPage)),
        0x88 => Some((Mnemonic::DEY, Mode::Implied)),
        0x89 => Some((Mnemonic::NOP, Mode::Immediate)),
        0x8a => Some((Mnemonic::TXA, Mode::Implied)),
        0x8c => Some((Mnemonic::STY, Mode::Absolute)),
        0x8d => Some((Mnemonic::STA, Mode::Absolute)),
        0x8e => Some((Mnemonic::STX, Mode::Absolute)),
        0x8f => Some((Mnemonic::SAX, Mode::Absolute)),
        0x90 => Some((Mnemonic::BCC, Mode::Relative)),
        0x91 => Some((Mnemonic::STA, Mode::IndirectY)),
        0x93 => Some((Mnemonic::SHA, Mode::IndirectY)),
        0x94 => Some((Mnemonic::STY, Mode::ZeroPageX)),
        0x95 => Some((Mnemonic::STA, Mode::ZeroPageX)),
        0x96 => Some((Mnemonic::STX, Mode::ZeroPageY)),
        0x97 => Some((Mnemonic::SAX, Mode::ZeroPageY)),
        0x98 => Some((Mnemonic::TYA, Mode::Implied)),
        0x99 => Some((Mnemonic::STA, Mode::AbsoluteY)),
        0x9a => Some((Mnemonic::TXS, Mode::Implied)),
        0x9c => Some((Mnemonic::SHY, Mode::AbsoluteX)),
        0x9d => Some((Mnemonic::STA, Mode::AbsoluteX)),
        0x9e => Some((Mnemonic::SHX, Mode::AbsoluteY)),
        0x9f => Some((Mnemonic::SHA, Mode::AbsoluteY)),
        0xa0 => Some((Mnemonic::LDY, Mode::Immediate)),
        0xa1 => Some((Mnemonic::LDA, Mode::IndirectX)),
        0xa2 => Some((Mnemonic::LDX, Mode::Immediate)),
        0xa3 => Some((Mnemonic::LAX, Mode::IndirectX)),
        0xa4 => Some((Mnemonic::LDY, Mode::ZeroPage)),
        0xa5 => Some((Mnemonic::LDA, Mode::ZeroPage)),
        0xa6 => Some((Mnemonic::LDX, Mode::ZeroPage)),
        0xa7 => Some((Mnemonic::LAX, Mode::ZeroPage)),
        0xa8 => Some((Mnemonic::TAY, Mode::Implied)),
        0xa9 => Some((Mnemonic::LDA, Mode::Immediate)),
        0xaa => Some((Mnemonic::TAX, Mode::Implied)),
        0xab => Some((Mnemonic::LXA, Mode::Immediate)),
        0xac => Some((Mnemonic::LDY, Mode::Absolute)),
        0xad => Some((Mnemonic::LDA, Mode::Absolute)),
        0xae => Some((Mnemonic::LDX, Mode::Absolute)),
        0xaf => Some((Mnemonic::LAX, Mode::Absolute)),
        0xb0 => Some((Mnemonic::BCS, Mode::Relative)),
        0xb1 => Some((Mnemonic::LDA, Mode::IndirectY)),
        0xb3 => Some((Mnemonic::LAX, Mode::IndirectY)),
        0xb4 => Some((Mnemonic::LDY, Mode::ZeroPageX)),
        0xb5 => Some((Mnemonic::LDA, Mode::ZeroPageX)),
        0xb6 => Some((Mnemonic::LDX, Mode::ZeroPageY)),
        0xb7 => Some((Mnemonic::LAX, Mode::ZeroPageY)),
        0xb8 => Some((Mnemonic::CLV, Mode::Implied)),
        0xb9 => Some((Mnemonic::LDA, Mode::AbsoluteY)),
        0xba => Some((Mnemonic::TSX, Mode::Implied)),
        0xbc => Some((Mnemonic::LDY, Mode::AbsoluteX)),
        0xbd => Some((Mnemonic::LDA, Mode::AbsoluteX)),
        0xbe => Some((Mnemonic::LDX, Mode::AbsoluteY)),
        0xbf => Some((Mnemonic::LAX, Mode::AbsoluteY)),
        0xc0 => Some((Mnemonic::CPY, Mode::Immediate)),
        0xc1 => Some((Mnemonic::CMP, Mode::IndirectX)),
        0xc2 => Some((Mnemonic::NOP, Mode::Immediate)),
        0xc3 => Some((Mnemonic::DCP, Mode::IndirectX)),
        0xc4 => Some((Mnemonic::CPY, Mode::ZeroPage)),
        0xc5 => Some((Mnemonic::CMP, Mode::ZeroPage)),
        0xc6 => Some((Mnemonic::DEC, Mode::ZeroPage)),
        0xc7 => Some((Mnemonic::DCP, Mode::ZeroPage)),
        0xc8 => Some((Mnemonic::INY, Mode::Implied)),
        0xc9 => Some((Mnemonic::CMP, Mode::Immediate)),
        0xca => Some((Mnemonic::DEX, Mode::Implied)),
        0xcb => Some((Mnemonic::SBX, Mode::Immediate)),
        0xcc => Some((Mnemonic::CPY, Mode::Absolute)),
        0xcd => Some((Mnemonic::CMP, Mode::Absolute)),
        0xce => Some((Mnemonic::DEC, Mode::Absolute)),
        0xcf => Some((Mnemonic::DCP, Mode::Absolute)),
        0xd0 => Some((Mnemonic::BNE, Mode::Relative)),
        0xd1 => Some((Mnemonic::CMP, Mode::IndirectY)),
        0xd3 => Some((Mnemonic::DCP, Mode::IndirectY)),
        0xd4 => Some((Mnemonic::NOP, Mode::ZeroPageX)),
        0xd5 => Some((Mnemonic::CMP, Mode::ZeroPageX)),
        0xd6 => Some((Mnemonic::DEC, Mode::ZeroPageX)),
        0xd7 => Some((Mnemonic::DCP, Mode::ZeroPageX)),
        0xd8 => Some((Mnemonic::CLD, Mode::Implied)),
        0xd9 => Some((Mnemonic::CMP, Mode::AbsoluteY)),
        0xda => Some((Mnemonic::NOP, Mode::Implied)),
        0xdb => Some((Mnemonic::DCP, Mode::AbsoluteY)),
        0xdc => Some((Mnemonic::NOP, Mode::AbsoluteX)),
        0xdd => Some((Mnemonic::CMP, Mode::AbsoluteX)),
        0xde => Some((Mnemonic::DEC, Mode::AbsoluteX)),
        0xdf => Some((Mnemonic::DCP, Mode::AbsoluteX)),
        0xe0 => Some((Mnemonic::CPX, Mode::Immediate)),
        0xe1 => Some((Mnemonic::SBC, Mode::IndirectX)),
        0xe2 => Some((Mnemonic::NOP, Mode::Immediate)),
        0xe3 => Some((Mnemonic::ISC, Mode::IndirectX)),
        0xe4 => Some((Mnemonic::CPX, Mode::ZeroPage)),
        0xe5 => Some((Mnemonic::SBC, Mode::ZeroPage)),
        0xe6 => Some((Mnemonic::INC, Mode::ZeroPage)),
        0xe7 => Some((Mnemonic::ISC, Mode::ZeroPage)),
        0xe8 => Some((Mnemonic::INX, Mode::Implied)),
        0xe9 => Some((Mnemonic::SBC, Mode::Immediate)),
        0xea => Some((Mnemonic::NOP, Mode::Implied)),
        0xeb => Some((Mnemonic::SBC, Mode::Immediate)),
        0xec => Some((Mnemonic::CPX, Mode::Absolute)),
        0xed => Some((Mnemonic::SBC, Mode::Absolute)),
        0xee => Some((Mnemonic::INC, Mode::Absolute)),
        0xef => Some((Mnemonic::ISC, Mode::Absolute)),
        0xf0 => Some((Mnemonic::BEQ, Mode::Relative)),
        0xf1 => Some((Mnemonic::SBC, Mode::IndirectY)),
        0xf3 => Some((Mnemonic::ISC, Mode::IndirectY)),
        0xf4 => Some((Mnemonic::NOP, Mode::ZeroPageX)),
        0xf5 => Some((Mnemonic::SBC, Mode::ZeroPageX)),
        0xf6 => Some((Mnemonic::INC, Mode::ZeroPageX)),
        0xf7 => Some((Mnemonic::ISC, Mode::ZeroPageX)),
        0xf8 => Some((Mnemonic::SED, Mode::Implied)),
        0xf9 => Some((Mnemonic::SBC, Mode::AbsoluteY)),
        0xfa => Some((Mnemonic::NOP, Mode::Implied)),
        0xfb => Some((Mnemonic::ISC, Mode::AbsoluteY)),
        0xfc => Some((Mnemonic::NOP, Mode::AbsoluteX)),
        0xfd => Some((Mnemonic::SBC, Mode::AbsoluteX)),
        0xfe => Some((Mnemonic::INC, Mode::AbsoluteX)),
        0xff => Some((Mnemonic::ISC, Mode::AbsoluteX)),
        _ => None,
    }
}

/// Dispatch table mapping all 256 opcodes to their mnemonic and addressing mode.
pub struct InstructionTable;

impl InstructionTable {
    /// The table with every implemented opcode.
    pub fn new() -> (t: InstructionTable) {
        InstructionTable
    }

    /// The entry for `opcode`, or `None` if the opcode is not implemented.
    pub fn get(&self, opcode: u8) -> (r: Option<(Mnemonic, Mode)>)
        ensures
            r == opcode_table(opcode),
    {
        match opcode {
            0x00 => Some((Mnemonic::BRK, Mode::Implied)),
            0x01 => Some((Mnemonic::ORA, Mode::IndirectX)),
            0x03 => Some((Mnemonic::SLO, Mode::IndirectX)),
            0x04 => Some((Mnemonic::NOP, Mode::ZeroPage)),
            0x05 => Some((Mnemonic::ORA, Mode::ZeroPage)),
            0x06 => Some((Mnemonic::ASL(Operand::Memory), Mode::ZeroPage)),
            0x07 => Some((Mnemonic::SLO, Mode::ZeroPage)),
            0x08 => Some((Mnemonic::PHP, Mode::Implied)),
            0x09 => Some((Mnemonic::ORA, Mode::Immediate)),
            0x0a => Some((Mnemonic::ASL(Operand::Register(Register::A)), Mode::Implied)),
            0x0b => Some((Mnemonic::ANC, Mode::Immediate)),
            0x0c => Some((Mnemonic::NOP, Mode::Absolute)),
            0x0d => Some((Mnemonic::ORA, Mode::Absolute)),
            0x0e => Some((Mnemonic::ASL(Operand::Memory), Mode::Absolute)),
            0x0f => Some((Mnemonic::SLO, Mode::Absolute)),
            0x10 => Some((Mnemonic::BPL, Mode::Relative)),
            0x11 => Some((Mnemonic::ORA, Mode::IndirectY)),
            0x13 => Some((Mnemonic::SLO, Mode::IndirectY)),
            0x14 => Some((Mnemonic::NOP, Mode::ZeroPageX)),
            0x15 => Some((Mnemonic::ORA, Mode::ZeroPageX)),
            0x16 => Some((Mnemonic::ASL(Operand::Memory), Mode::ZeroPageX)),
            0x17 => Some((Mnemonic::SLO, Mode::ZeroPageX)),
            0x18 => Some((Mnemonic::CLC, Mode::Implied)),
            0x19 => Some((Mnemonic::ORA, Mode::AbsoluteY)),
            0x1a => Some((Mnemonic::NOP, Mode::Implied)),
            0x1b => Some((Mnemonic::SLO, Mode::AbsoluteY)),
            0x1c => Some((Mnemonic::NOP, Mode::AbsoluteX)),
            0x1d => Some((Mnemonic::ORA, Mode::AbsoluteX)),
            0x1e => Some((Mnemonic::ASL(Operand::Memory), Mode::AbsoluteX)),
            0x1f => Some((Mnemonic::SLO, Mode::AbsoluteX)),
            0x20 => Some((Mnemonic::JSR, Mode::Implied)),
            0x21 => Some((Mnemonic::AND, Mode::IndirectX)),
            0x23 => Some((Mnemonic::RLA, Mode::IndirectX)),
            0x24 => Some((Mnemonic::BIT, Mode::ZeroPage)),
            0x25 => Some((Mnemonic::AND, Mode::ZeroPage)),
            0x26 => Some((Mnemonic::ROL(Operand::Memory), Mode::ZeroPage)),
            0x27 => Some((Mnemonic::RLA, Mode::ZeroPage)),
            0x28 => Some((Mnemonic::PLP, Mode::Implied)),
            0x29 => Some((Mnemonic::AND, Mode::Immediate)),
            0x2a => Some((Mnemonic::ROL(Operand::Register(Register::A)), Mode::Implied)),
            0x2b => Some((Mnemonic::ANC, Mode::Immediate)),
            0x2c => Some((Mnemonic::BIT, Mode::Absolute)),
            0x2d => Some((Mnemonic::AND, Mode::Absolute)),
            0x2e => Some((Mnemonic::ROL(Operand::Memory), Mode::Absolute)),
            0x2f => Some((Mnemonic::RLA, Mode::Absolute)),
            0x30 => Some((Mnemonic::BMI, Mode::Relative)),
            0x31 => Some((Mnemonic::AND, Mode::IndirectY)),
            0x33 => Some((Mnemonic::RLA, Mode::IndirectY)),
            0x34 => Some((Mnemonic::NOP, Mode::ZeroPageX)),
            0x35 => Some((Mnemonic::AND, Mode::ZeroPageX)),
            0x36 => Some((Mnemonic::ROL(Operand::Memory), Mode::ZeroPageX)),
            0x37 => Some((Mnemonic::RLA, Mode::ZeroPageX)),
            0x38 => Some((Mnemonic::SEC, Mode::Implied)),
            0x39 => Some((Mnemonic::AND, Mode::AbsoluteY)),
            0x3a => Some((Mnemonic::NOP, Mode::Implied)),
            0x3b => Some((Mnemonic::RLA, Mode::AbsoluteY)),
            0x3c => Some((Mnemonic::NOP, Mode::AbsoluteX)),
            0x3d => Some((Mnemonic::AND, Mode::AbsoluteX)),
            0x3e => Some((Mnemonic::ROL(Operand::Memory), Mode::AbsoluteX)),
            0x3f => Some((Mnemonic::RLA, Mode::AbsoluteX)),
            0x40 => Some((Mnemonic::RTI, Mode::Implied)),
            0x41 => Some((Mnemonic::EOR, Mode::IndirectX)),
            0x43 => Some((Mnemonic::SRE, Mode::IndirectX)),
            0x44 => Some((Mnemonic::NOP, Mode::ZeroPage)),
            0x45 => Some((Mnemonic::EOR, Mode::ZeroPage)),
            0x46 => Some((Mnemonic::LSR(Operand::Memory), Mode::ZeroPage)),
            0x47 => Some((Mnemonic::SRE, Mode::ZeroPage)),
            0x48 => Some((Mnemonic::PHA, Mode::Implied)),
            0x49 => Some((Mnemonic::EOR, Mode::Immediate)),
            0x4a => Some((Mnemonic::LSR(Operand::Register(Register::A)), Mode::Implied)),
            0x4b => Some((Mnemonic::ALR, Mode::Immediate)),
            0x4c => Some((Mnemonic::JMP, Mode::Absolute)),
            0x4d => Some((Mnemonic::EOR, Mode::Absolute)),
            0x4e => Some((Mnemonic::LSR(Operand::Memory), Mode::Absolute)),
            0x4f => Some((Mnemonic::SRE, Mode::Absolute)),
            0x50 => Some((Mnemonic::BVC, Mode::Relative)),
            0x51 => Some((Mnemonic::EOR, Mode::IndirectY)),
            0x53 => Some((Mnemonic::SRE, Mode::IndirectY)),
            0x54 => Some((Mnemonic::NOP, Mode::ZeroPageX)),
            0x55 => Some((Mnemonic::EOR, Mode::ZeroPageX)),
            0x56 => Some((Mnemonic::LSR(Operand::Memory), Mode::ZeroPageX)),
            0x57 => Some((Mnemonic::SRE, Mode::ZeroPageX)),
            0x58 => Some((Mnemonic::CLI, Mode::Implied)),
            0x59 => Some((Mnemonic::EOR, Mode::AbsoluteY)),
            0x5a => Some((Mnemonic::NOP, Mode::Implied)),
            0x5b => Some((Mnemonic::SRE, Mode::AbsoluteY)),
            0x5c => Some((Mnemonic::NOP, Mode::AbsoluteX)),
            0x5d => Some((Mnemonic::EOR, Mode::AbsoluteX)),
            0x5e => Some((Mnemonic::LSR(Operand::Memory), Mode::AbsoluteX)),
            0x5f => Some((Mnemonic::SRE, Mode::AbsoluteX)),
            0x60 => Some((Mnemonic::RTS, Mode::Implied)),
            0x61 => Some((Mnemonic::ADC, Mode::IndirectX)),
            0x63 => Some((Mnemonic::RRA, Mode::IndirectX)),
            0x64 => Some((Mnemonic::NOP, Mode::ZeroPage)),
            0x65 => Some((Mnemonic::ADC, Mode::ZeroPage)),
            0x66 => Some((Mnemonic::ROR(Operand::Memory), Mode::ZeroPage)),
            0x67 => Some((Mnemonic::RRA, Mode::ZeroPage)),
            0x68 => Some((Mnemonic::PLA, Mode::Implied)),
            0x69 => Some((Mnemonic::ADC, Mode::Immediate)),
            0x6a => Some((Mnemonic::ROR(Operand::Register(Register::A)), Mode::Implied)),
            0x6b => Some((Mnemonic::ARR, Mode::Immediate)),
            0x6c => Some((Mnemonic::JMP, Mode::Indirect)),
            0x6d => Some((Mnemonic::ADC, Mode::Absolute)),
            0x6e => Some((Mnemonic::ROR(Operand::Memory), Mode::Absolute)),
            0x6f => Some((Mnemonic::RRA, Mode::Absolute)),
            0x70 => Some((Mnemonic::BVS, Mode::Relative)),
            0x71 => Some((Mnemonic::ADC, Mode::IndirectY)),
            0x73 => Some((Mnemonic::RRA, Mode::IndirectY)),
            0x74 => Some((Mnemonic::NOP, Mode::ZeroPageX)),
            0x75 => Some((Mnemonic::ADC, Mode::ZeroPageX)),
            0x76 => Some((Mnemonic::ROR(Operand::Memory), Mode::ZeroPageX)),
            0x77 => Some((Mnemonic::RRA, Mode::ZeroPageX)),
            0x78 => Some((Mnemonic::SEI, Mode::Implied)),
            0x79 => Some((Mnemonic::ADC, Mode::AbsoluteY)),
            0x7a => Some((Mnemonic::NOP, Mode::Implied)),
            0x7b => Some((Mnemonic::RRA, Mode::AbsoluteY)),
            0x7c => Some((Mnemonic::NOP, Mode::AbsoluteX)),
            0x7d => Some((Mnemonic::ADC, Mode::AbsoluteX)),
            0x7e => Some((Mnemonic::ROR(Operand::Memory), Mode::AbsoluteX)),
            0x7f => Some((Mnemonic::RRA, Mode::AbsoluteX)),
            0x80 => Some((Mnemonic::NOP, Mode::Immediate)),
            0x81 => Some((Mnemonic::STA, Mode::IndirectX)),
            0x82 => Some((Mnemonic::NOP, Mode::Immediate)),
            0x83 => Some((Mnemonic::SAX, Mode::IndirectX)),
            0x84 => Some((Mnemonic::STY, Mode::ZeroPage)),
            0x85 => Some((Mnemonic::STA, Mode::ZeroPage)),
            0x86 => Some((Mnemonic::STX, Mode::ZeroPage)),
            0x87 => Some((Mnemonic::SAX, Mode::ZeroPage)),
            0x88 => Some((Mnemonic::DEY, Mode::Implied)),
            0x89 => Some((Mnemonic::NOP, Mode::Immediate)),
            0x8a => Some((Mnemonic::TXA, Mode::Implied)),
            0x8c => Some((Mnemonic::STY, Mode::Absolute)),
            0x8d => Some((Mnemonic::STA, Mode::Absolute)),
            0x8e => Some((Mnemonic::STX, Mode::Absolute)),
            0x8f => Some((Mnemonic::SAX, Mode::Absolute)),
            0x90 => Some((Mnemonic::BCC, Mode::Relative)),
            0x91 => Some((Mnemonic::STA, Mode::IndirectY)),
            0x93 => Some((Mnemonic::SHA, Mode::IndirectY)),
            0x94 => Some((Mnemonic::STY, Mode::ZeroPageX)),
            0x95 => Some((Mnemonic::STA, Mode::ZeroPageX)),
            0x96 => Some((Mnemonic::STX, Mode::ZeroPageY)),
            0x97 => Some((Mnemonic::SAX, Mode::ZeroPageY)),
            0x98 => Some((Mnemonic::TYA, Mode::Implied)),
            0x99 => Some((Mnemonic::STA, Mode::AbsoluteY)),
            0x9a => Some((Mnemonic::TXS, Mode::Implied)),
            0x9c => Some((Mnemonic::SHY, Mode::AbsoluteX)),
            0x9d => Some((Mnemonic::STA, Mode::AbsoluteX)),
            0x9e => Some((Mnemonic::SHX, Mode::AbsoluteY)),
            0x9f => Some((Mnemonic::SHA, Mode::AbsoluteY)),
            0xa0 => Some((Mnemonic::LDY, Mode::Immediate)),
            0xa1 => Some((Mnemonic::LDA, Mode::IndirectX)),
            0xa2 => Some((Mnemonic::LDX, Mode::Immediate)),
            0xa3 => Some((Mnemonic::LAX, Mode::IndirectX)),
            0xa4 => Some((Mnemonic::LDY, Mode::ZeroPage)),
            0xa5 => Some((Mnemonic::LDA, Mode::ZeroPage)),
            0xa6 => Some((Mnemonic::LDX, Mode::ZeroPage)),
            0xa7 => Some((Mnemonic::LAX, Mode::ZeroPage)),
            0xa8 => Some((Mnemonic::TAY, Mode::Implied)),
            0xa9 => Some((Mnemonic::LDA, Mode::Immediate)),
            0xaa => Some((Mnemonic::TAX, Mode::Implied)),
            0xab => Some((Mnemonic::LXA, Mode::Immediate)),
            0xac => Some((Mnemonic::LDY, Mode::Absolute)),
            0xad => Some((Mnemonic::LDA, Mode::Absolute)),
            0xae => Some((Mnemonic::LDX, Mode::Absolute)),
            0xaf => Some((Mnemonic::LAX, Mode::Absolute)),
            0xb0 => Some((Mnemonic::BCS, Mode::Relative)),
            0xb1 => Some((Mnemonic::LDA, Mode::IndirectY)),
            0xb3 => Some((Mnemonic::LAX, Mode::IndirectY)),
            0xb4 => Some((Mnemonic::LDY, Mode::ZeroPageX)),
            0xb5 => Some((Mnemonic::LDA, Mode::ZeroPageX)),
            0xb6 => Some((Mnemonic::LDX, Mode::ZeroPageY)),
            0xb7 => Some((Mnemonic::LAX, Mode::ZeroPageY)),
            0xb8 => Some((Mnemonic::CLV, Mode::Implied)),
            0xb9 => Some((Mnemonic::LDA, Mode::AbsoluteY)),
            0xba => Some((Mnemonic::TSX, Mode::Implied)),
            0xbc => Some((Mnemonic::LDY, Mode::AbsoluteX)),
            0xbd => Some((Mnemonic::LDA, Mode::AbsoluteX)),
            0xbe => Some((Mnemonic::LDX, Mode::AbsoluteY)),
            0xbf => Some((Mnemonic::LAX, Mode::AbsoluteY)),
            0xc0 => Some((Mnemonic::CPY, Mode::Immediate)),
            0xc1 => Some((Mnemonic::CMP, Mode::IndirectX)),
            0xc2 => Some((Mnemonic::NOP, Mode::Immediate)),
            0xc3 => Some((Mnemonic::DCP, Mode::IndirectX)),
            0xc4 => Some((Mnemonic::CPY, Mode::ZeroPage)),
            0xc5 => Some((Mnemonic::CMP, Mode::ZeroPage)),
            0xc6 => Some((Mnemonic::DEC, Mode::ZeroPage)),
            0xc7 => Some((Mnemonic::DCP, Mode::ZeroPage)),
            0xc8 => Some((Mnemonic::INY, Mode::Implied)),
            0xc9 => Some((Mnemonic::CMP, Mode::Immediate)),
            0xca => Some((Mnemonic::DEX, Mode::Implied)),
            0xcb => Some((Mnemonic::SBX, Mode::Immediate)),
            0xcc => Some((Mnemonic::CPY, Mode::Absolute)),
            0xcd => Some((Mnemonic::CMP, Mode::Absolute)),
            0xce => Some((Mnemonic::DEC, Mode::Absolute)),
            0xcf => Some((Mnemonic::DCP, Mode::Absolute)),
            0xd0 => Some((Mnemonic::BNE, Mode::Relative)),
            0xd1 => Some((Mnemonic::CMP, Mode::IndirectY)),
            0xd3 => Some((Mnemonic::DCP, Mode::IndirectY)),
            0xd4 => Some((Mnemonic::NOP, Mode::ZeroPageX)),
            0xd5 => Some((Mnemonic::CMP, Mode::ZeroPageX)),
            0xd6 => Some((Mnemonic::DEC, Mode::ZeroPageX)),
            0xd7 => Some((Mnemonic::DCP, Mode::ZeroPageX)),
            0xd8 => Some((Mnemonic::CLD, Mode::Implied)),
            0xd9 => Some((Mnemonic::CMP, Mode::AbsoluteY)),
            0xda => Some((Mnemonic::NOP, Mode::Implied)),
            0xdb => Some((Mnemonic::DCP, Mode::AbsoluteY)),
            0xdc => Some((Mnemonic::NOP, Mode::AbsoluteX)),
            0xdd => Some((Mnemonic::CMP, Mode::AbsoluteX)),
            0xde => Some((Mnemonic::DEC, Mode::AbsoluteX)),
            0xdf => Some((Mnemonic::DCP, Mode::AbsoluteX)),
            0xe0 => Some((Mnemonic::CPX, Mode::Immediate)),
            0xe1 => Some((Mnemonic::SBC, Mode::IndirectX)),
            0xe2 => Some((Mnemonic::NOP, Mode::Immediate)),
            0xe3 => Some((Mnemonic::ISC, Mode::IndirectX)),
            0xe4 => Some((Mnemonic::CPX, Mode::ZeroPage)),
            0xe5 => Some((Mnemonic::SBC, Mode::ZeroPage)),
            0xe6 => Some((Mnemonic::INC, Mode::ZeroPage)),
            0xe7 => Some((Mnemonic::ISC, Mode::ZeroPage)),
            0xe8 => Some((Mnemonic::INX, Mode::Implied)),
            0xe9 => Some((Mnemonic::SBC, Mode::Immediate)),
            0xea => Some((Mnemonic::NOP, Mode::Implied)),
            0xeb => Some((Mnemonic::SBC, Mode::Immediate)),
            0xec => Some((Mnemonic::CPX, Mode::Absolute)),
            0xed => Some((Mnemonic::SBC, Mode::Absolute)),
            0xee => Some((Mnemonic::INC, Mode::Absolute)),
            0xef => Some((Mnemonic::ISC, Mode::Absolute)),
            0xf0 => Some((Mnemonic::BEQ, Mode::Relative)),
            0xf1 => Some((Mnemonic::SBC, Mode::IndirectY)),
            0xf3 => Some((Mnemonic::ISC, Mode::IndirectY)),
            0xf4 => Some((Mnemonic::NOP, Mode::ZeroPageX)),
            0xf5 => Some((Mnemonic::SBC, Mode::ZeroPageX)),
            0xf6 => Some((Mnemonic::INC, Mode::ZeroPageX)),
            0xf7 => Some((Mnemonic::ISC, Mode::ZeroPageX)),
            0xf8 => Some((Mnemonic::SED, Mode::Implied)),
            0xf9 => Some((Mnemonic::SBC, Mode::AbsoluteY)),
            0xfa => Some((Mnemonic::NOP, Mode::Implied)),
            0xfb => Some((Mnemonic::ISC, Mode::AbsoluteY)),
            0xfc => Some((Mnemonic::NOP, Mode::AbsoluteX)),
            0xfd => Some((Mnemonic::SBC, Mode::AbsoluteX)),
            0xfe => Some((Mnemonic::INC, Mode::AbsoluteX)),
            0xff => Some((Mnemonic::ISC, Mode::AbsoluteX)),
            _ => None,
        }
    }
}

impl Cpu {
    /// The decode cycle of `tick`, given the opcode read at PC: PC moves past it, the cycle
    /// counter restarts, and the opcode's table entry is returned, or `UnknownOpcode` with
    /// the opcode's address when the table has none.
    pub fn decode(&mut self, table: &InstructionTable, opcode: u8) -> (r: Result<(Mnemonic, Mode), Error>)
        ensures
            *final(self) == (Cpu {
                cycle: 0,
                state: CpuState { pc: old(self).state.pc.wrapping_add(1), ..old(self).state },
                ..*old(self)
            }),
            match opcode_table(opcode) {
                Some(e) => r == Ok::<(Mnemonic, Mode), Error>(e),
                None => r == Err::<(Mnemonic, Mode), Error>(Error::UnknownOpcode { opcode, pc: old(self).state.pc }),
            },
    {
        self.state.pc = self.state.pc.wrapping_add(1);
        self.cycle = 0;
        match table.get(opcode) {
            Some(e) => Ok(e),
            None => Err(Error::UnknownOpcode { opcode, pc: self.state.pc.wrapping_sub(1) }),
        }
    }
}

} // verus!
