//! The register file of the LR35902 and the bus it reads and writes, with the accesses an
//! instruction makes: fetching operands at PC, resolving indirect addresses, the stack.

use vstd::prelude::*;
use super::operands::{Address, Condition, Operand8, Register16, Register8};

verus! {

/// The flag bits of register F.
pub struct Flags;

impl Flags {
    /// Set when the result is zero
    pub const ZERO: u8 = 0x80;
    /// Set by subtractions
    pub const ADD_SUBTRACT: u8 = 0x40;
    /// Set on a carry out of (borrow into) bit 3
    pub const HALF_CARRY: u8 = 0x20;
    /// Set on a carry out of (borrow into) bit 7
    pub const CARRY: u8 = 0x10;
}

/// `f` with the bits of `mask` set when `on`, cleared otherwise.
pub open spec fn with_flag(f: u8, mask: u8, on: bool) -> u8 {
    if on { f | mask } else { f & !mask }
}

/// Set or clear the bits of `mask` in `f`.
pub fn set_flag(f: u8, mask: u8, on: bool) -> (r: u8)
    ensures
        r == with_flag(f, mask, on),
{
    if on {
        f | mask
    } else {
        f & !mask
    }
}

/// The address/data bus as the CPU sees it, through a model of its contents. A read may
/// have side effects, so the bus after a read is part of the contract.
pub trait Bus: Sized {
    /// The bus contents as a value.
    type Model;

    spec fn model(&self) -> Self::Model;

    /// The byte a read of `address` returns.
    spec fn value_at(m: Self::Model, address: u16) -> u8;

    /// The bus after a read of `address`.
    spec fn read_from(m: Self::Model, address: u16) -> Self::Model;

    /// The bus after `value` is written at `address`.
    spec fn written_at(m: Self::Model, address: u16, value: u8) -> Self::Model;

    fn read8(&mut self, address: u16) -> (r: u8)
        ensures
            r == Self::value_at(old(self).model(), address),
            final(self).model() == Self::read_from(old(self).model(), address),
    ;

    fn write8(&mut self, address: u16, value: u8)
        ensures
            final(self).model() == Self::written_at(old(self).model(), address, value),
    ;
}

/// Plain memory on the bus (64 KiB when made by `new`): reads have no side effects and
/// return what was written; addresses past the end read 0 and ignore writes. Used to run
/// code without a machine around the CPU.
pub struct Ram {
    bytes: Vec<u8>,
}

impl View for Ram {
    type V = Seq<u8>;

    closed spec fn view(&self) -> Seq<u8> {
        self.bytes@
    }
}

impl Ram {
    /// Memory filled with zeros.
    pub fn new() -> (r: Ram)
        ensures
            r@ == Seq::new(0x10000, |i: int| 0u8),
    {
        Ram { bytes: crate::bits::filled(0x10000, 0) }
    }
}

impl Bus for Ram {
    type Model = Seq<u8>;

    open spec fn model(&self) -> Seq<u8> {
        self@
    }

    open spec fn value_at(m: Seq<u8>, address: u16) -> u8 {
        if address < m.len() { m[address as int] } else { 0 }
    }

    open spec fn read_from(m: Seq<u8>, address: u16) -> Seq<u8> {
        m
    }

    open spec fn written_at(m: Seq<u8>, address: u16, value: u8) -> Seq<u8> {
        if address < m.len() { m.update(address as int, value) } else { m }
    }

    fn read8(&mut self, address: u16) -> (r: u8) {
        if (address as usize) < self.bytes.len() {
            self.bytes[address as usize]
        } else {
            0
        }
    }

    fn write8(&mut self, address: u16, value: u8) {
        if (address as usize) < self.bytes.len() {
            self.bytes.set(address as usize, value);
        }
    }
}

/// The register file.
#[derive(Debug, Clone, Copy, PartialEq, Eq, Structural)]
pub struct State {
    pub a: u8,
    pub f: u8,
    pub b: u8,
    pub c: u8,
    pub d: u8,
    pub e: u8,
    pub h: u8,
    pub l: u8,
    pub sp: u16,
    pub pc: u16,
}

impl State {
    /// The value of an 8-bit register.
    pub open spec fn reg8(self, r: Register8) -> u8 {
        match r {
            Register8::A => self.a,
            Register8::B => self.b,
            Register8::C => self.c,
            Register8::D => self.d,
            Register8::E => self.e,
            Register8::H => self.h,
            Register8::L => self.l,
        }
    }

    /// This state with an 8-bit register set.
    pub open spec fn with_reg8(self, r: Register8, v: u8) -> State {
        match r {
            Register8::A => State { a: v, ..self },
            Register8::B => State { b: v, ..self },
            Register8::C => State { c: v, ..self },
            Register8::D => State { d: v, ..self },
            Register8::E => State { e: v, ..self },
            Register8::H => State { h: v, ..self },
            Register8::L => State { l: v, ..self },
        }
    }

    /// The value of a 16-bit register: the high register times 256 plus the low one.
    pub open spec fn reg16(self, r: Register16) -> u16 {
        match r {
            Register16::AF => (self.a * 256 + self.f) as u16,
            Register16::BC => (self.b * 256 + self.c) as u16,
            Register16::DE => (self.d * 256 + self.e) as u16,
            Register16::HL => (self.h * 256 + self.l) as u16,
            Register16::SP => self.sp,
        }
    }

    /// This state with a 16-bit register set; only the flag bits of F (the high nibble)
    /// can be set.
    pub open spec fn with_reg16(self, r: Register16, v: u16) -> State {
        let hi = (v / 256) as u8;
        let lo = (v % 256) as u8;
        match r {
            Register16::AF => State { a: hi, f: lo & 0xF0, ..self },
            Register16::BC => State { b: hi, c: lo, ..self },
            Register16::DE => State { d: hi, e: lo, ..self },
            Register16::HL => State { h: hi, l: lo, ..self },
            Register16::SP => State { sp: v, ..self },
        }
    }

    /// Whether a flag is set.
    pub open spec fn has(self, mask: u8) -> bool {
        self.f & mask != 0
    }

    /// This state with PC set.
    pub open spec fn at(self, pc: u16) -> State {
        State { pc, ..self }
    }

    /// Whether a branch condition holds.
    pub open spec fn holds(self, cond: Condition) -> bool {
        match cond {
            Condition::Always => true,
            Condition::NotZero => !self.has(Flags::ZERO),
            Condition::Zero => self.has(Flags::ZERO),
            Condition::NotCarry => !self.has(Flags::CARRY),
            Condition::Carry => self.has(Flags::CARRY),
        }
    }
}

/// The byte at PC, the state with PC past it, and the bus after the read.
pub open spec fn fetch8<B: Bus>(s: State, b: B::Model) -> (u8, State, B::Model) {
    (B::value_at(b, s.pc), s.at(s.pc.wrapping_add(1)), B::read_from(b, s.pc))
}

/// The little-endian word at PC, with PC past it.
pub open spec fn fetch16<B: Bus>(s: State, b: B::Model) -> (u16, State, B::Model) {
    let (lo, s1, b1) = fetch8::<B>(s, b);
    let (hi, s2, b2) = fetch8::<B>(s1, b1);
    ((hi * 256 + lo) as u16, s2, b2)
}

/// The address an indirect operand names, and the machine after resolving it (an immediate
/// is fetched; HL+ and HL- update HL).
pub open spec fn address_of<B: Bus>(a: Address, s: State, b: B::Model) -> (u16, State, B::Model) {
    let hl = s.reg16(Register16::HL);
    match a {
        Address::Direct => fetch16::<B>(s, b),
        Address::BC => (s.reg16(Register16::BC), s, b),
        Address::DE => (s.reg16(Register16::DE), s, b),
        Address::HL => (hl, s, b),
        Address::HLD => (hl, s.with_reg16(Register16::HL, hl.wrapping_sub(1)), b),
        Address::HLI => (hl, s.with_reg16(Register16::HL, hl.wrapping_add(1)), b),
        Address::ZeroPage => {
            let (v, s1, b1) = fetch8::<B>(s, b);
            ((0xFF00 + v) as u16, s1, b1)
        },
        Address::ZeroPageC => ((0xFF00 + s.c) as u16, s, b),
    }
}

/// The value of an 8-bit operand, and the machine after reading it.
pub open spec fn operand_value<B: Bus>(o: Operand8, s: State, b: B::Model) -> (u8, State, B::Model) {
    match o {
        Operand8::Register(r) => (s.reg8(r), s, b),
        Operand8::Immediate(_) => fetch8::<B>(s, b),
        Operand8::Memory(a) => {
            let (address, s1, b1) = address_of::<B>(a, s, b);
            (B::value_at(b1, address), s1, B::read_from(b1, address))
        },
    }
}

/// The machine after `v` is written to an 8-bit operand (an immediate cannot be written).
pub open spec fn operand_written<B: Bus>(o: Operand8, s: State, b: B::Model, v: u8) -> (State, B::Model) {
    match o {
        Operand8::Register(r) => (s.with_reg8(r, v), b),
        Operand8::Immediate(_) => (s, b),
        Operand8::Memory(a) => {
            let (address, s1, b1) = address_of::<B>(a, s, b);
            (s1, B::written_at(b1, address, v))
        },
    }
}

/// The machine after `v` is pushed: SP - 1 gets the high byte, SP - 2 the low byte.
pub open spec fn pushed<B: Bus>(s: State, b: B::Model, v: u16) -> (State, B::Model) {
    let sp1 = s.sp.wrapping_sub(1);
    let b1 = B::written_at(b, sp1, (v / 256) as u8);
    let sp2 = sp1.wrapping_sub(1);
    (State { sp: sp2, ..s }, B::written_at(b1, sp2, (v % 256) as u8))
}

/// The word popped (low byte at SP, high byte at SP + 1), and the machine after.
pub open spec fn popped<B: Bus>(s: State, b: B::Model) -> (u16, State, B::Model) {
    let lo = B::value_at(b, s.sp);
    let b1 = B::read_from(b, s.sp);
    let sp1 = s.sp.wrapping_add(1);
    let hi = B::value_at(b1, sp1);
    let b2 = B::read_from(b1, sp1);
    ((hi * 256 + lo) as u16, State { sp: sp1.wrapping_add(1), ..s }, b2)
}

impl State {
    /// All registers clear.
    pub open spec fn new_spec() -> State {
        State { a: 0, f: 0, b: 0, c: 0, d: 0, e: 0, h: 0, l: 0, sp: 0, pc: 0 }
    }

    /// All registers clear.
    pub fn new() -> (s: State)
        ensures
            s == State::new_spec(),
    {
        State { a: 0, f: 0, b: 0, c: 0, d: 0, e: 0, h: 0, l: 0, sp: 0, pc: 0 }
    }

    /// Read an 8-bit register.
    pub fn read8(&self, r: Register8) -> (v: u8)
        ensures
            v == self.reg8(r),
    {
        match r {
            Register8::A => self.a,
            Register8::B => self.b,
            Register8::C => self.c,
            Register8::D => self.d,
            Register8::E => self.e,
            Register8::H => self.h,
            Register8::L => self.l,
        }
    }

    /// Write an 8-bit register.
    pub fn write8(&mut self, r: Register8, v: u8)
        ensures
            *final(self) == old(self).with_reg8(r, v),
    {
        match r {
            Register8::A => self.a = v,
            Register8::B => self.b = v,
            Register8::C => self.c = v,
            Register8::D => self.d = v,
            Register8::E => self.e = v,
            Register8::H => self.h = v,
            Register8::L => self.l = v,
        }
    }

    /// Read a 16-bit register.
    pub fn read16(&self, r: Register16) -> (v: u16)
        ensures
            v == self.reg16(r),
    {
        match r {
            Register16::AF => self.a as u16 * 256 + self.f as u16,
            Register16::BC => self.b as u16 * 256 + self.c as u16,
            Register16::DE => self.d as u16 * 256 + self.e as u16,
            Register16::HL => self.h as u16 * 256 + self.l as u16,
            Register16::SP => self.sp,
        }
    }

    /// Write a 16-bit register.
    pub fn write16(&mut self, r: Register16, v: u16)
        ensures
            *final(self) == old(self).with_reg16(r, v),
    {
        let hi = (v / 256) as u8;
        let lo = (v % 256) as u8;
        match r {
            Register16::AF => {
                self.a = hi;
                self.f = lo & 0xF0;
            },
            Register16::BC => {
                self.b = hi;
                self.c = lo;
            },
            Register16::DE => {
                self.d = hi;
                self.e = lo;
            },
            Register16::HL => {
                self.h = hi;
                self.l = lo;
            },
            Register16::SP => self.sp = v,
        }
    }

    /// Whether a branch condition holds.
    pub fn check(&self, cond: Condition) -> (r: bool)
        ensures
            r == self.holds(cond),
    {
        match cond {
            Condition::Always => true,
            Condition::NotZero => self.f & Flags::ZERO == 0,
            Condition::Zero => self.f & Flags::ZERO != 0,
            Condition::NotCarry => self.f & Flags::CARRY == 0,
            Condition::Carry => self.f & Flags::CARRY != 0,
        }
    }

    /// Fetch the byte at PC and advance PC.
    pub fn next8<B: Bus>(&mut self, bus: &mut B) -> (r: u8)
        ensures
            (r, *final(self), final(bus).model()) == fetch8::<B>(*old(self), old(bus).model()),
    {
        let pc = self.pc;
        let r = bus.read8(pc);
        self.pc = pc.wrapping_add(1);
        r
    }

    /// Fetch the little-endian word at PC and advance PC past it.
    pub fn next16<B: Bus>(&mut self, bus: &mut B) -> (r: u16)
        ensures
            (r, *final(self), final(bus).model()) == fetch16::<B>(*old(self), old(bus).model()),
    {
        let lo = self.next8(bus);
        let hi = self.next8(bus);
        hi as u16 * 256 + lo as u16
    }

    /// Resolve an indirect address.
    pub fn indirect<B: Bus>(&mut self, bus: &mut B, a: Address) -> (r: u16)
        ensures
            (r, *final(self), final(bus).model()) == address_of::<B>(a, *old(self), old(bus).model()),
    {
        match a {
            Address::Direct => self.next16(bus),
            Address::BC => self.read16(Register16::BC),
            Address::DE => self.read16(Register16::DE),
            Address::HL => self.read16(Register16::HL),
            Address::HLD => {
                let hl = self.read16(Register16::HL);
                self.write16(Register16::HL, hl.wrapping_sub(1));
                hl
            },
            Address::HLI => {
                let hl = self.read16(Register16::HL);
                self.write16(Register16::HL, hl.wrapping_add(1));
                hl
            },
            Address::ZeroPage => {
                let v = self.next8(bus);
                0xFF00 + v as u16
            },
            Address::ZeroPageC => 0xFF00 + self.c as u16,
        }
    }

    /// Read an 8-bit operand.
    pub fn read_operand<B: Bus>(&mut self, bus: &mut B, o: Operand8) -> (r: u8)
        ensures
            (r, *final(self), final(bus).model()) == operand_value::<B>(o, *old(self), old(bus).model()),
    {
        match o {
            Operand8::Register(r) => self.read8(r),
            Operand8::Immediate(_) => self.next8(bus),
            Operand8::Memory(a) => {
                let address = self.indirect(bus, a);
                bus.read8(address)
            },
        }
    }

    /// Write an 8-bit operand.
    pub fn write_operand<B: Bus>(&mut self, bus: &mut B, o: Operand8, v: u8)
        ensures
            (*final(self), final(bus).model()) == operand_written::<B>(o, *old(self), old(bus).model(), v),
    {
        match o {
            Operand8::Register(r) => self.write8(r, v),
            Operand8::Immediate(_) => {},
            Operand8::Memory(a) => {
                let address = self.indirect(bus, a);
                bus.write8(address, v);
            },
        }
    }

    /// Push a word on the stack.
    pub fn push16<B: Bus>(&mut self, bus: &mut B, v: u16)
        ensures
            (*final(self), final(bus).model()) == pushed::<B>(*old(self), old(bus).model(), v),
    {
        self.sp = self.sp.wrapping_sub(1);
        bus.write8(self.sp, (v / 256) as u8);
        self.sp = self.sp.wrapping_sub(1);
        bus.write8(self.sp, (v % 256) as u8);
    }

    /// Pop a word from the stack.
    pub fn pop16<B: Bus>(&mut self, bus: &mut B) -> (r: u16)
        ensures
            (r, *final(self), final(bus).model()) == popped::<B>(*old(self), old(bus).model()),
    {
        let lo = bus.read8(self.sp);
        self.sp = self.sp.wrapping_add(1);
        let hi = bus.read8(self.sp);
        self.sp = self.sp.wrapping_add(1);
        hi as u16 * 256 + lo as u16
    }
}

} // verus!
