//! Disassembly: the operands of an operation with the immediate data they read from the
//! instruction stream.

use vstd::prelude::*;
use super::operands::{Address, Condition, Immediate8, Operand8, Register8};

verus! {

/// An address operand with its immediate data.
#[derive(Debug, Clone, Copy, PartialEq, Eq, Structural)]
pub enum AddressData {
    Direct(u16),
    BC,
    DE,
    HL,
    HLD,
    HLI,
    ZeroPage(u8),
    ZeroPageC,
}

/// An 8-bit operand with its immediate data.
#[derive(Debug, Clone, Copy, PartialEq, Eq, Structural)]
pub enum OperandData {
    Register(Register8),
    Immediate(u8),
    Memory(AddressData),
}

/// The instruction stream being disassembled: the bytes after the opcode and how many of
/// them have been read. Bytes past the end read as 0.
pub struct Disassembler {
    bytes: Vec<u8>,
    position: usize,
}

/// The byte at `i` of `bytes`, 0 past the end.
pub open spec fn byte_at(bytes: Seq<u8>, i: int) -> u8 {
    if 0 <= i < bytes.len() { bytes[i] } else { 0 }
}

impl Disassembler {
    pub closed spec fn bytes(&self) -> Seq<u8> {
        self.bytes@
    }

    pub closed spec fn position(&self) -> nat {
        self.position as nat
    }

    /// A disassembler reading `bytes` from the start.
    pub fn new(bytes: Vec<u8>) -> (d: Disassembler)
        ensures
            d.bytes() == bytes@,
            d.position() == 0,
    {
        Disassembler { bytes, position: 0 }
    }

    /// How many bytes have been read.
    pub fn consumed(&self) -> (n: usize)
        ensures
            n == self.position(),
    {
        self.position
    }

    /// The next byte of the stream.
    pub fn next8(&mut self) -> (r: u8)
        requires
            old(self).position() < usize::MAX,
        ensures
            r == byte_at(old(self).bytes(), old(self).position() as int),
            final(self).bytes() == old(self).bytes(),
            final(self).position() == old(self).position() + 1,
    {
        let r = if self.position < self.bytes.len() { self.bytes[self.position] } else { 0 };
        self.position = self.position + 1;
        r
    }

    /// The next little-endian word of the stream.
    pub fn next16(&mut self) -> (r: u16)
        requires
            old(self).position() < usize::MAX - 1,
        ensures
            r == byte_at(old(self).bytes(), old(self).position() + 1int) * 256 + byte_at(
                old(self).bytes(),
                old(self).position() as int,
            ),
            final(self).bytes() == old(self).bytes(),
            final(self).position() == old(self).position() + 2,
    {
        let l = self.next8();
        let h = self.next8();
        h as u16 * 256 + l as u16
    }
}

/// An operand that can be shown with its immediate data.
pub trait IntoOperand8: Sized {
    /// The operand with its data, and how many bytes of the stream it reads.
    spec fn data_of(self, bytes: Seq<u8>, position: nat) -> (OperandData, nat);

    fn into_operand8(self, disassembler: &mut Disassembler) -> (r: OperandData)
        requires
            old(disassembler).position() < usize::MAX - 1,
        ensures
            r == self.data_of(old(disassembler).bytes(), old(disassembler).position()).0,
            final(disassembler).bytes() == old(disassembler).bytes(),
            final(disassembler).position() == old(disassembler).position() + self.data_of(
                old(disassembler).bytes(),
                old(disassembler).position(),
            ).1,
    ;
}

impl IntoOperand8 for Address {
    /// A direct address reads a word, a high-page address a byte; the others read nothing.
    open spec fn data_of(self, bytes: Seq<u8>, position: nat) -> (OperandData, nat) {
        match self {
            Address::Direct => (
                OperandData::Memory(
                    AddressData::Direct(
                        (byte_at(bytes, position + 1int) * 256 + byte_at(bytes, position as int)) as u16,
                    ),
                ),
                2,
            ),
            Address::BC => (OperandData::Memory(AddressData::BC), 0),
            Address::DE => (OperandData::Memory(AddressData::DE), 0),
            Address::HL => (OperandData::Memory(AddressData::HL), 0),
            Address::ZeroPage => (OperandData::Memory(AddressData::ZeroPage(byte_at(bytes, position as int))), 1),
            Address::ZeroPageC => (OperandData::Memory(AddressData::ZeroPageC), 0),
            Address::HLD => (OperandData::Memory(AddressData::HLD), 0),
            Address::HLI => (OperandData::Memory(AddressData::HLI), 0),
        }
    }

    fn into_operand8(self, disassembler: &mut Disassembler) -> (r: OperandData) {
        OperandData::Memory(
            match self {
                Address::Direct => AddressData::Direct(disassembler.next16()),
                Address::BC => AddressData::BC,
                Address::DE => AddressData::DE,
                Address::HL => AddressData::HL,
                Address::ZeroPage => AddressData::ZeroPage(disassembler.next8()),
                Address::ZeroPageC => AddressData::ZeroPageC,
                Address::HLD => AddressData::HLD,
                Address::HLI => AddressData::HLI,
            },
        )
    }
}

impl IntoOperand8 for Immediate8 {
    /// The immediate byte.
    open spec fn data_of(self, bytes: Seq<u8>, position: nat) -> (OperandData, nat) {
        (OperandData::Immediate(byte_at(bytes, position as int)), 1)
    }

    fn into_operand8(self, disassembler: &mut Disassembler) -> (r: OperandData) {
        OperandData::Immediate(disassembler.next8())
    }
}

impl IntoOperand8 for Register8 {
    /// A register reads nothing.
    open spec fn data_of(self, bytes: Seq<u8>, position: nat) -> (OperandData, nat) {
        (OperandData::Register(self), 0)
    }

    fn into_operand8(self, disassembler: &mut Disassembler) -> (r: OperandData) {
        OperandData::Register(self)
    }
}

impl IntoOperand8 for Operand8 {
    /// As the register, immediate or address it holds.
    open spec fn data_of(self, bytes: Seq<u8>, position: nat) -> (OperandData, nat) {
        match self {
            Operand8::Register(r) => r.data_of(bytes, position),
            Operand8::Immediate(i) => i.data_of(bytes, position),
            Operand8::Memory(a) => a.data_of(bytes, position),
        }
    }

    fn into_operand8(self, disassembler: &mut Disassembler) -> (r: OperandData) {
        match self {
            Operand8::Register(r) => r.into_operand8(disassembler),
            Operand8::Immediate(i) => i.into_operand8(disassembler),
            Operand8::Memory(a) => a.into_operand8(disassembler),
        }
    }
}

/// A branch condition as shown: none for an unconditional branch.
pub trait IntoCondition: Sized {
    spec fn shown(self) -> Option<Condition>;

    fn into_condition(self) -> (r: Option<Condition>)
        ensures
            r == self.shown(),
    ;
}

impl IntoCondition for Condition {
    /// An unconditional branch shows no condition.
    open spec fn shown(self) -> Option<Condition> {
        if self == Condition::Always { None } else { Some(self) }
    }

    fn into_condition(self) -> (r: Option<Condition>) {
        match self {
            Condition::Always => None,
            _ => Some(self),
        }
    }
}

} // verus!
