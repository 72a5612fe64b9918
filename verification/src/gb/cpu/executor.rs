//! Executing LR35902 operations on the register file and the bus.

use vstd::prelude::*;
use super::operands::{Address, Condition, Operand8, Register16, Register8};
use super::operations::{visit, visited, Operation};
use super::state::{
    address_of, fetch16, fetch8, operand_value, operand_written, popped, pushed, set_flag,
    with_flag, Bus, Flags, State,
};

verus! {

/// The rotations and shifts of the 0xCB table.
#[derive(Debug, Clone, Copy, PartialEq, Eq, Structural)]
pub enum ShiftKind {
    /// Rotate left through carry
    Rl,
    /// Rotate left
    Rlc,
    /// Rotate right through carry
    Rr,
    /// Rotate right
    Rrc,
    /// Exchange the nibbles
    Swap,
    /// Shift left (arithmetic)
    Sla,
    /// Shift right (arithmetic): bit 7 is kept
    Sra,
    /// Shift right (logical)
    Srl,
}

/// The result of a rotation or shift of `v` (with the carry flag `carry`), and the carry
/// out: bit 7 for left moves, bit 0 for right moves, none for a swap.
pub open spec fn shift_result(kind: ShiftKind, v: u8, carry: bool) -> (u8, bool) {
    let c: u8 = if carry { 1 } else { 0 };
    match kind {
        ShiftKind::Rl => ((v << 1u8) | c, v & 0x80 != 0),
        ShiftKind::Rlc => ((v << 1u8) | (v >> 7u8), v & 0x80 != 0),
        ShiftKind::Rr => ((v >> 1u8) | (c << 7u8), v & 0x01 != 0),
        ShiftKind::Rrc => ((v >> 1u8) | (v << 7u8), v & 0x01 != 0),
        ShiftKind::Swap => ((v >> 4u8) | ((v << 4u8) & 0xF0), false),
        ShiftKind::Sla => (v << 1u8, v & 0x80 != 0),
        ShiftKind::Sra => (if v & 0x80 != 0 { (v >> 1u8) | 0x80 } else { v >> 1u8 }, v & 0x01 != 0),
        ShiftKind::Srl => (v >> 1u8, v & 0x01 != 0),
    }
}

/// The flags after a rotation or shift: Z from the result, N and H clear, C the carry out.
pub open spec fn shift_flags(f: u8, result: u8, carry: bool) -> u8 {
    with_flag(
        with_flag(with_flag(with_flag(f, Flags::ZERO, result == 0), Flags::ADD_SUBTRACT, false), Flags::HALF_CARRY, false),
        Flags::CARRY,
        carry,
    )
}

/// The machine after a rotation or shift of an operand.
pub open spec fn shifted<B: Bus>(kind: ShiftKind, o: Operand8, s: State, m: B::Model) -> (State, B::Model) {
    let (v, s1, m1) = operand_value::<B>(o, s, m);
    let (r, c) = shift_result(kind, v, s1.has(Flags::CARRY));
    operand_written::<B>(o, State { f: shift_flags(s1.f, r, c), ..s1 }, m1, r)
}

/// The machine after a rotation of A (RLA, RLCA, RRA, RRCA): as the rotation of A, with
/// Z always clear.
pub open spec fn accumulator_shifted<B: Bus>(kind: ShiftKind, s: State, m: B::Model) -> (State, B::Model) {
    let (s1, m1) = shifted::<B>(kind, Operand8::Register(Register8::A), s, m);
    (State { f: with_flag(s1.f, Flags::ZERO, false), ..s1 }, m1)
}

/// A after adding `v` and `carry` (0 or 1), with Z, N, C, H.
pub open spec fn added(s: State, v: u8, carry: u8) -> State {
    let result = s.a + v + carry;
    State {
        a: (result % 256) as u8,
        f: with_flag(
            with_flag(with_flag(with_flag(s.f, Flags::ZERO, result % 256 == 0), Flags::ADD_SUBTRACT, false), Flags::CARRY, result > 0xFF),
            Flags::HALF_CARRY,
            (s.a % 16) + (v % 16) + carry > 0x0F,
        ),
        ..s
    }
}

/// The flags after subtracting `v` and `carry` (0 or 1) from A: C on a borrow, Z when the
/// low byte of the difference is 0, N set, H on a borrow from bit 4.
pub open spec fn subtract_flags(s: State, v: u8, carry: u8) -> u8 {
    let result = s.a - v - carry;
    with_flag(
        with_flag(with_flag(with_flag(s.f, Flags::CARRY, result < 0), Flags::ZERO, result % 256 == 0), Flags::ADD_SUBTRACT, true),
        Flags::HALF_CARRY,
        (s.a % 16) - (v % 16) - carry < 0,
    )
}

/// A after subtracting `v` and `carry` (0 or 1), with the subtraction flags.
pub open spec fn subtracted(s: State, v: u8, carry: u8) -> State {
    State { a: s.a.wrapping_sub(v).wrapping_sub(carry), f: subtract_flags(s, v, carry), ..s }
}

/// A after a bitwise operation with result `r`: Z from the result, N and C clear, H as
/// given (set for AND).
pub open spec fn logic(s: State, r: u8, half: bool) -> State {
    State {
        a: r,
        f: with_flag(
            with_flag(with_flag(with_flag(s.f, Flags::ZERO, r == 0), Flags::ADD_SUBTRACT, false), Flags::HALF_CARRY, half),
            Flags::CARRY,
            false,
        ),
        ..s
    }
}

/// The carry flag as 0 or 1.
pub open spec fn carry_of(s: State) -> u8 {
    if s.has(Flags::CARRY) { 1 } else { 0 }
}

/// The result of an ALU operation on A with operand value `v`.
pub open spec fn alu(op: Operation, s: State, v: u8) -> State {
    match op {
        Operation::Add(_) => added(s, v, 0),
        Operation::AddWithCarry(_) => added(s, v, carry_of(s)),
        Operation::Sub(_) => subtracted(s, v, 0),
        Operation::SubWithCarry(_) => subtracted(s, v, carry_of(s)),
        Operation::Compare(_) => State { f: subtract_flags(s, v, 0), ..s },
        Operation::And(_) => logic(s, s.a & v, true),
        Operation::Or(_) => logic(s, s.a | v, false),
        Operation::Xor(_) => logic(s, s.a ^ v, false),
        _ => s,
    }
}

/// Whether `op` is one of the ALU operations on A.
pub open spec fn is_alu(op: Operation) -> bool {
    ||| op is Add
    ||| op is AddWithCarry
    ||| op is Sub
    ||| op is SubWithCarry
    ||| op is Compare
    ||| op is And
    ||| op is Or
    ||| op is Xor
}

/// The operand of an ALU operation.
pub open spec fn alu_operand(op: Operation) -> Operand8 {
    match op {
        Operation::Add(o) | Operation::AddWithCarry(o) | Operation::Sub(o) | Operation::SubWithCarry(o)
        | Operation::Compare(o) | Operation::And(o) | Operation::Or(o) | Operation::Xor(o) => o,
        _ => Operand8::Register(Register8::A),
    }
}

/// The flags after an 8-bit increment to `r`: Z, N clear, H when the low nibble wrapped.
pub open spec fn inc_flags(f: u8, r: u8) -> u8 {
    with_flag(with_flag(with_flag(f, Flags::ZERO, r == 0), Flags::ADD_SUBTRACT, false), Flags::HALF_CARRY, r % 16 == 0)
}

/// The flags after an 8-bit decrement to `r`: Z, N set, H when the low nibble wrapped.
pub open spec fn dec_flags(f: u8, r: u8) -> u8 {
    with_flag(with_flag(with_flag(f, Flags::ZERO, r == 0), Flags::ADD_SUBTRACT, true), Flags::HALF_CARRY, r % 16 == 15)
}

/// `v` plus the signed byte `e`, wrapping.
pub open spec fn offset_by(v: u16, e: u8) -> u16 {
    v.wrapping_add_signed((e as i8) as i16)
}

/// SP plus the signed immediate, and the flags: C and H from the carries out of bits 7
/// and 3 of the low byte, Z and N clear.
pub open spec fn sp_offset<B: Bus>(s: State, m: B::Model) -> (u16, State, B::Model) {
    let (e, s1, m1) = fetch8::<B>(s, m);
    let result = offset_by(s1.sp, e);
    let f = with_flag(
        with_flag(
            with_flag(with_flag(s1.f, Flags::CARRY, (result & 0xFF) < (s1.sp & 0xFF)), Flags::HALF_CARRY, (result & 0xF) < (s1.sp & 0xF)),
            Flags::ZERO,
            false,
        ),
        Flags::ADD_SUBTRACT,
        false,
    );
    (result, State { f, ..s1 }, m1)
}

/// A after decimal adjustment, and the flags: C set when 0x60 was applied (never cleared),
/// H clear, Z from the result.
pub open spec fn decimal_adjusted(s: State) -> State {
    let r = s.a as u16;
    let c0: u16 = if s.has(Flags::CARRY) { 0x60 } else { 0 };
    let c1: u16 = if s.has(Flags::HALF_CARRY) || (!s.has(Flags::ADD_SUBTRACT) && (r & 0x0F) > 9) {
        c0 | 0x06
    } else {
        c0
    };
    let c2: u16 = if s.has(Flags::CARRY) || (!s.has(Flags::ADD_SUBTRACT) && r > 0x99) { c1 | 0x60 } else { c1 };
    let r2 = if s.has(Flags::ADD_SUBTRACT) { r.wrapping_sub(c2) } else { r.wrapping_add(c2) };
    let f1 = if ((c2 << 2u16) & 0x100) != 0 { with_flag(s.f, Flags::CARRY, true) } else { s.f };
    State {
        a: (r2 & 0xFF) as u8,
        f: with_flag(with_flag(f1, Flags::HALF_CARRY, false), Flags::ZERO, (r2 & 0xFF) == 0),
        ..s
    }
}

/// HL after adding a 16-bit register: H on a carry out of bit 11, C out of bit 15, N clear,
/// Z kept.
pub open spec fn hl_added(s: State, r: Register16) -> State {
    let hl = s.reg16(Register16::HL);
    let v = s.reg16(r);
    let result = (hl as u32 + v as u32) as u32;
    let low = (result & 0xFFFF) as u16;
    let s1 = State {
        f: with_flag(
            with_flag(with_flag(s.f, Flags::HALF_CARRY, ((hl ^ v ^ low) & 0x1000) != 0), Flags::CARRY, result > 0xFFFF),
            Flags::ADD_SUBTRACT,
            false,
        ),
        ..s
    };
    s1.with_reg16(Register16::HL, low)
}

/// The machine after a read-modify-write of an operand to `r` with flags `f`.
pub open spec fn modified<B: Bus>(o: Operand8, s: State, m: B::Model, f: u8, r: u8) -> (State, B::Model) {
    operand_written::<B>(o, State { f, ..s }, m, r)
}

/// Whether `execute` carries out `op`: it is defined, and a bit number is below 8.
pub open spec fn executable(op: Operation) -> bool {
    match op {
        Operation::Undefined(_) => false,
        Operation::BitTest(b, _) | Operation::BitSet(b, _) | Operation::BitReset(b, _) => b < 8,
        _ => true,
    }
}

/// The machine after the control-flow operations (jumps, calls, returns, resets).
pub open spec fn branched<B: Bus>(op: Operation, s: State, m: B::Model) -> (State, B::Model) {
    match op {
        Operation::JumpRelative(c) => if s.holds(c) {
            let (e, s1, m1) = fetch8::<B>(s, m);
            (s1.at(offset_by(s1.pc, e)), m1)
        } else {
            (s.at(s.pc.wrapping_add(1)), m)
        },
        Operation::Jump(c, a) => if s.holds(c) {
            let (address, s1, m1) = address_of::<B>(a, s, m);
            (s1.at(address), m1)
        } else if a == Address::Direct {
            (s.at(s.pc.wrapping_add(2)), m)
        } else {
            (s, m)
        },
        Operation::Call(c) => if s.holds(c) {
            let (address, s1, m1) = fetch16::<B>(s, m);
            let (s2, m2) = pushed::<B>(s1, m1, s1.pc);
            (s2.at(address), m2)
        } else {
            (s.at(s.pc.wrapping_add(2)), m)
        },
        Operation::Return(c) => if s.holds(c) {
            let (address, s1, m1) = popped::<B>(s, m);
            (s1.at(address), m1)
        } else {
            (s, m)
        },
        Operation::ReturnAndEnableInterrupts => {
            let (address, s1, m1) = popped::<B>(s, m);
            (s1.at(address), m1)
        },
        Operation::Reset(address) => {
            let (s1, m1) = pushed::<B>(s, m, s.pc);
            (s1.at(address as u16), m1)
        },
        _ => (s, m),
    }
}

/// The machine after the 8-bit read-modify-write operations (increments, decrements,
/// rotations, shifts, bit set/reset) and BIT.
pub open spec fn modified_by<B: Bus>(op: Operation, s: State, m: B::Model) -> (State, B::Model) {
    match op {
        Operation::Increment8(o) => {
            let (v, s1, m1) = operand_value::<B>(o, s, m);
            let r = v.wrapping_add(1);
            modified::<B>(o, s1, m1, inc_flags(s1.f, r), r)
        },
        Operation::Decrement8(o) => {
            let (v, s1, m1) = operand_value::<B>(o, s, m);
            let r = v.wrapping_sub(1);
            modified::<B>(o, s1, m1, dec_flags(s1.f, r), r)
        },
        Operation::RotateLeft(o) => shifted::<B>(ShiftKind::Rl, o, s, m),
        Operation::RotateLeftCircular(o) => shifted::<B>(ShiftKind::Rlc, o, s, m),
        Operation::RotateRight(o) => shifted::<B>(ShiftKind::Rr, o, s, m),
        Operation::RotateRightCircular(o) => shifted::<B>(ShiftKind::Rrc, o, s, m),
        Operation::ByteSwap(o) => shifted::<B>(ShiftKind::Swap, o, s, m),
        Operation::ShiftLeftA(o) => shifted::<B>(ShiftKind::Sla, o, s, m),
        Operation::ShiftRightA(o) => shifted::<B>(ShiftKind::Sra, o, s, m),
        Operation::ShiftRightL(o) => shifted::<B>(ShiftKind::Srl, o, s, m),
        Operation::RotateLeftAccumulator => accumulator_shifted::<B>(ShiftKind::Rl, s, m),
        Operation::RotateLeftCircularAccumulator => accumulator_shifted::<B>(ShiftKind::Rlc, s, m),
        Operation::RotateRightAccumulator => accumulator_shifted::<B>(ShiftKind::Rr, s, m),
        Operation::RotateRightCircularAccumulator => accumulator_shifted::<B>(ShiftKind::Rrc, s, m),
        Operation::BitTest(b, o) => {
            let (v, s1, m1) = operand_value::<B>(o, s, m);
            let f = with_flag(
                with_flag(with_flag(s1.f, Flags::ZERO, v & (1u8 << b) == 0), Flags::ADD_SUBTRACT, false),
                Flags::HALF_CARRY,
                true,
            );
            (State { f, ..s1 }, m1)
        },
        Operation::BitSet(b, o) => {
            let (v, s1, m1) = operand_value::<B>(o, s, m);
            operand_written::<B>(o, s1, m1, v | (1u8 << b))
        },
        Operation::BitReset(b, o) => {
            let (v, s1, m1) = operand_value::<B>(o, s, m);
            operand_written::<B>(o, s1, m1, v & !(1u8 << b))
        },
        _ => (s, m),
    }
}

/// The machine after loads, 16-bit operations and the flag/accumulator operations.
pub open spec fn moved<B: Bus>(op: Operation, s: State, m: B::Model) -> (State, B::Model) {
    match op {
        Operation::Load8(dst, src) => {
            let (v, s1, m1) = operand_value::<B>(src, s, m);
            operand_written::<B>(dst, s1, m1, v)
        },
        Operation::Load16Immediate(r) => {
            let (v, s1, m1) = fetch16::<B>(s, m);
            (s1.with_reg16(r, v), m1)
        },
        Operation::Increment16(r) => (s.with_reg16(r, s.reg16(r).wrapping_add(1)), m),
        Operation::Decrement16(r) => (s.with_reg16(r, s.reg16(r).wrapping_sub(1)), m),
        Operation::Push16(r) => pushed::<B>(s, m, s.reg16(r)),
        Operation::Pop16(r) => {
            let (v, s1, m1) = popped::<B>(s, m);
            (s1.with_reg16(r, v), m1)
        },
        Operation::Complement => (
            State {
                a: s.a ^ 0xFF,
                f: with_flag(with_flag(s.f, Flags::ADD_SUBTRACT, true), Flags::HALF_CARRY, true),
                ..s
            },
            m,
        ),
        Operation::ComplementCarry => (
            State {
                f: with_flag(with_flag(s.f, Flags::ADD_SUBTRACT, false), Flags::HALF_CARRY, false) ^ Flags::CARRY,
                ..s
            },
            m,
        ),
        Operation::SetCarry => (
            State {
                f: with_flag(
                    with_flag(with_flag(s.f, Flags::ADD_SUBTRACT, false), Flags::HALF_CARRY, false),
                    Flags::CARRY,
                    true,
                ),
                ..s
            },
            m,
        ),
        Operation::DecimalAdjust => (decimal_adjusted(s), m),
        Operation::AddToHl(r) => (hl_added(s, r), m),
        Operation::AddToSp => {
            let (v, s1, m1) = sp_offset::<B>(s, m);
            (State { sp: v, ..s1 }, m1)
        },
        Operation::LoadHlSpOffset => {
            let (v, s1, m1) = sp_offset::<B>(s, m);
            (s1.with_reg16(Register16::HL, v), m1)
        },
        _ => (s, m),
    }
}

/// The machine after `op` executes.
pub open spec fn executed<B: Bus>(op: Operation, s: State, m: B::Model) -> (State, B::Model) {
    if is_alu(op) {
        let (v, s1, m1) = operand_value::<B>(alu_operand(op), s, m);
        (alu(op, s1, v), m1)
    } else {
        match op {
            Operation::JumpRelative(_) | Operation::Jump(_, _) | Operation::Call(_) | Operation::Return(_)
            | Operation::ReturnAndEnableInterrupts | Operation::Reset(_) => branched::<B>(op, s, m),
            Operation::Increment8(_) | Operation::Decrement8(_) | Operation::RotateLeft(_)
            | Operation::RotateLeftCircular(_) | Operation::RotateRight(_) | Operation::RotateRightCircular(_)
            | Operation::ByteSwap(_) | Operation::ShiftLeftA(_) | Operation::ShiftRightA(_)
            | Operation::ShiftRightL(_) | Operation::RotateLeftAccumulator
            | Operation::RotateLeftCircularAccumulator | Operation::RotateRightAccumulator
            | Operation::RotateRightCircularAccumulator | Operation::BitTest(_, _) | Operation::BitSet(_, _)
            | Operation::BitReset(_, _) => modified_by::<B>(op, s, m),
            _ => moved::<B>(op, s, m),
        }
    }
}

/// The CPU register file together with the bus it drives.
pub struct Executor<B: Bus> {
    pub state: State,
    pub bus: B,
}

/// The operand of an ALU operation (see `alu_operand`).
fn alu_operand_of(op: Operation) -> (o: Operand8)
    ensures
        o == alu_operand(op),
{
    match op {
        Operation::Add(o) | Operation::AddWithCarry(o) | Operation::Sub(o) | Operation::SubWithCarry(o)
        | Operation::Compare(o) | Operation::And(o) | Operation::Or(o) | Operation::Xor(o) => o,
        _ => Operand8::Register(Register8::A),
    }
}

impl<B: Bus> Executor<B> {
    /// The result of a rotation or shift, and the carry out (see `shift_result`).
    fn shift_value(kind: ShiftKind, v: u8, carry: bool) -> (r: (u8, bool))
        ensures
            r == shift_result(kind, v, carry),
    {
        let c: u8 = if carry { 1 } else { 0 };
        match kind {
            ShiftKind::Rl => ((v << 1) | c, v & 0x80 != 0),
            ShiftKind::Rlc => ((v << 1) | (v >> 7), v & 0x80 != 0),
            ShiftKind::Rr => ((v >> 1) | (c << 7), v & 0x01 != 0),
            ShiftKind::Rrc => ((v >> 1) | (v << 7), v & 0x01 != 0),
            ShiftKind::Swap => ((v >> 4) | ((v << 4) & 0xF0), false),
            ShiftKind::Sla => (v << 1, v & 0x80 != 0),
            ShiftKind::Sra => (if v & 0x80 != 0 { (v >> 1) | 0x80 } else { v >> 1 }, v & 0x01 != 0),
            ShiftKind::Srl => (v >> 1, v & 0x01 != 0),
        }
    }

    /// Rotate or shift an operand.
    fn shift(&mut self, kind: ShiftKind, o: Operand8)
        ensures
            (final(self).state, final(self).bus.model()) == shifted::<B>(kind, o, old(self).state, old(self).bus.model()),
    {
        let v = self.state.read_operand(&mut self.bus, o);
        let (r, c) = Self::shift_value(kind, v, self.state.f & Flags::CARRY != 0);
        self.state.f = set_flag(self.state.f, Flags::ZERO, r == 0);
        self.state.f = set_flag(self.state.f, Flags::ADD_SUBTRACT, false);
        self.state.f = set_flag(self.state.f, Flags::HALF_CARRY, false);
        self.state.f = set_flag(self.state.f, Flags::CARRY, c);
        self.state.write_operand(&mut self.bus, o, r);
    }

    /// Rotate A; Z is always cleared.
    fn shift_accumulator(&mut self, kind: ShiftKind)
        ensures
            (final(self).state, final(self).bus.model()) == accumulator_shifted::<B>(kind, old(self).state, old(self).bus.model()),
    {
        self.shift(kind, Operand8::Register(Register8::A));
        self.state.f = set_flag(self.state.f, Flags::ZERO, false);
    }

    /// A plus `v` plus `carry`.
    fn add8(&mut self, v: u8, carry: u8)
        requires
            carry <= 1,
        ensures
            final(self).state == added(old(self).state, v, carry),
            final(self).bus == old(self).bus,
    {
        let a = self.state.a as u16;
        let result = a + v as u16 + carry as u16;
        self.state.f = set_flag(self.state.f, Flags::ZERO, result % 256 == 0);
        self.state.f = set_flag(self.state.f, Flags::ADD_SUBTRACT, false);
        self.state.f = set_flag(self.state.f, Flags::CARRY, result > 0xFF);
        self.state.f = set_flag(self.state.f, Flags::HALF_CARRY, (a % 16) + (v as u16 % 16) + carry as u16 > 0x0F);
        self.state.a = (result % 256) as u8;
    }

    /// The flags of A minus `v` minus `carry`.
    fn subtract_flags(&mut self, v: u8, carry: u8)
        requires
            carry <= 1,
        ensures
            final(self).state == (State { f: subtract_flags(old(self).state, v, carry), ..old(self).state }),
            final(self).bus == old(self).bus,
    {
        let a = self.state.a;
        self.state.f = set_flag(self.state.f, Flags::CARRY, (a as u16) < v as u16 + carry as u16);
        self.state.f = set_flag(self.state.f, Flags::ZERO, a.wrapping_sub(v).wrapping_sub(carry) == 0);
        self.state.f = set_flag(self.state.f, Flags::ADD_SUBTRACT, true);
        self.state.f = set_flag(self.state.f, Flags::HALF_CARRY, a % 16 < v % 16 + carry);
    }

    /// A bitwise result into A.
    fn logic(&mut self, r: u8, half: bool)
        ensures
            final(self).state == logic(old(self).state, r, half),
            final(self).bus == old(self).bus,
    {
        self.state.f = set_flag(self.state.f, Flags::ZERO, r == 0);
        self.state.f = set_flag(self.state.f, Flags::ADD_SUBTRACT, false);
        self.state.f = set_flag(self.state.f, Flags::HALF_CARRY, half);
        self.state.f = set_flag(self.state.f, Flags::CARRY, false);
        self.state.a = r;
    }

    /// The ALU operations on A.
    fn alu(&mut self, op: Operation)
        requires
            is_alu(op),
        ensures
            (final(self).state, final(self).bus.model()) == executed::<B>(op, old(self).state, old(self).bus.model()),
    {
        let v = self.state.read_operand(&mut self.bus, alu_operand_of(op));
        let carry: u8 = if self.state.f & Flags::CARRY != 0 { 1 } else { 0 };
        match op {
            Operation::Add(_) => self.add8(v, 0),
            Operation::AddWithCarry(_) => self.add8(v, carry),
            Operation::Sub(_) => {
                let a = self.state.a;
                self.subtract_flags(v, 0);
                self.state.a = a.wrapping_sub(v);
            },
            Operation::SubWithCarry(_) => {
                let a = self.state.a;
                self.subtract_flags(v, carry);
                self.state.a = a.wrapping_sub(v).wrapping_sub(carry);
            },
            Operation::Compare(_) => self.subtract_flags(v, 0),
            Operation::And(_) => {
                let r = self.state.a & v;
                self.logic(r, true);
            },
            Operation::Or(_) => {
                let r = self.state.a | v;
                self.logic(r, false);
            },
            _ => {
                let r = self.state.a ^ v;
                self.logic(r, false);
            },
        }
    }

    /// Jumps, calls, returns and resets.
    fn branch(&mut self, op: Operation)
        ensures
            (final(self).state, final(self).bus.model()) == branched::<B>(op, old(self).state, old(self).bus.model()),
    {
        match op {
            Operation::JumpRelative(c) => {
                if self.state.check(c) {
                    // Take the signed 8-bit immediate value and add it to PC
                    let e = self.state.next8(&mut self.bus);
                    self.state.pc = self.state.pc.wrapping_add_signed((e as i8) as i16);
                } else {
                    self.state.pc = self.state.pc.wrapping_add(1);
                }
            },
            Operation::Jump(c, a) => {
                if self.state.check(c) {
                    let address = self.state.indirect(&mut self.bus, a);
                    self.state.pc = address;
                } else {
                    match a {
                        Address::Direct => self.state.pc = self.state.pc.wrapping_add(2),
                        _ => {},
                    }
                }
            },
            Operation::Call(c) => {
                if self.state.check(c) {
                    let address = self.state.next16(&mut self.bus);
                    let pc = self.state.pc;
                    self.state.push16(&mut self.bus, pc);
                    self.state.pc = address;
                } else {
                    self.state.pc = self.state.pc.wrapping_add(2);
                }
            },
            Operation::Return(c) => {
                if self.state.check(c) {
                    let address = self.state.pop16(&mut self.bus);
                    self.state.pc = address;
                }
            },
            Operation::ReturnAndEnableInterrupts => {
                // Interrupts are not modelled: enabling them does nothing yet
                let address = self.state.pop16(&mut self.bus);
                self.state.pc = address;
            },
            Operation::Reset(address) => {
                let pc = self.state.pc;
                self.state.push16(&mut self.bus, pc);
                self.state.pc = address as u16;
            },
            _ => {},
        }
    }

    /// Read-modify-write operations on an 8-bit operand, and BIT.
    fn modify(&mut self, op: Operation)
        requires
            executable(op),
        ensures
            (final(self).state, final(self).bus.model()) == modified_by::<B>(op, old(self).state, old(self).bus.model()),
    {
        match op {
            Operation::Increment8(o) => {
                let r = self.state.read_operand(&mut self.bus, o).wrapping_add(1);
                self.state.f = set_flag(self.state.f, Flags::ZERO, r == 0);
                self.state.f = set_flag(self.state.f, Flags::ADD_SUBTRACT, false);
                self.state.f = set_flag(self.state.f, Flags::HALF_CARRY, r % 16 == 0);
                self.state.write_operand(&mut self.bus, o, r);
            },
            Operation::Decrement8(o) => {
                let r = self.state.read_operand(&mut self.bus, o).wrapping_sub(1);
                self.state.f = set_flag(self.state.f, Flags::ZERO, r == 0);
                self.state.f = set_flag(self.state.f, Flags::ADD_SUBTRACT, true);
                self.state.f = set_flag(self.state.f, Flags::HALF_CARRY, r % 16 == 15);
                self.state.write_operand(&mut self.bus, o, r);
            },
            Operation::RotateLeft(o) => self.shift(ShiftKind::Rl, o),
            Operation::RotateLeftCircular(o) => self.shift(ShiftKind::Rlc, o),
            Operation::RotateRight(o) => self.shift(ShiftKind::Rr, o),
            Operation::RotateRightCircular(o) => self.shift(ShiftKind::Rrc, o),
            Operation::ByteSwap(o) => self.shift(ShiftKind::Swap, o),
            Operation::ShiftLeftA(o) => self.shift(ShiftKind::Sla, o),
            Operation::ShiftRightA(o) => self.shift(ShiftKind::Sra, o),
            Operation::ShiftRightL(o) => self.shift(ShiftKind::Srl, o),
            Operation::RotateLeftAccumulator => self.shift_accumulator(ShiftKind::Rl),
            Operation::RotateLeftCircularAccumulator => self.shift_accumulator(ShiftKind::Rlc),
            Operation::RotateRightAccumulator => self.shift_accumulator(ShiftKind::Rr),
            Operation::RotateRightCircularAccumulator => self.shift_accumulator(ShiftKind::Rrc),
            Operation::BitTest(b, o) => {
                let v = self.state.read_operand(&mut self.bus, o);
                self.state.f = set_flag(self.state.f, Flags::ZERO, v & (1u8 << b) == 0);
                self.state.f = set_flag(self.state.f, Flags::ADD_SUBTRACT, false);
                self.state.f = set_flag(self.state.f, Flags::HALF_CARRY, true);
            },
            Operation::BitSet(b, o) => {
                let v = self.state.read_operand(&mut self.bus, o);
                self.state.write_operand(&mut self.bus, o, v | (1u8 << b));
            },
            Operation::BitReset(b, o) => {
                let v = self.state.read_operand(&mut self.bus, o);
                self.state.write_operand(&mut self.bus, o, v & !(1u8 << b));
            },
            _ => {},
        }
    }

    /// Decimal-adjust A (see `decimal_adjusted`).
    fn daa(&mut self)
        ensures
            final(self).state == decimal_adjusted(old(self).state),
            final(self).bus == old(self).bus,
    {
        // If the low digit is above 9 (after an addition) or H is set, 0x06 is applied; if
        // the value is above 0x99 (after an addition) or C is set, 0x60 is applied. After a
        // subtraction (N set) the correction is subtracted instead of added.
        let mut r = self.state.a as u16;
        let mut correction: u16 = if self.state.f & Flags::CARRY != 0 { 0x60 } else { 0x00 };
        if self.state.f & Flags::HALF_CARRY != 0 || (self.state.f & Flags::ADD_SUBTRACT == 0 && (r & 0x0F) > 9) {
            correction = correction | 0x06;
        }
        if self.state.f & Flags::CARRY != 0 || (self.state.f & Flags::ADD_SUBTRACT == 0 && r > 0x99) {
            correction = correction | 0x60;
        }
        if self.state.f & Flags::ADD_SUBTRACT != 0 {
            r = r.wrapping_sub(correction);
        } else {
            r = r.wrapping_add(correction);
        }
        if ((correction << 2) & 0x100) != 0 {
            self.state.f = set_flag(self.state.f, Flags::CARRY, true);
        }
        // Half-carry is always unset (unlike a Z-80)
        self.state.f = set_flag(self.state.f, Flags::HALF_CARRY, false);
        self.state.f = set_flag(self.state.f, Flags::ZERO, (r & 0xFF) == 0);
        self.state.a = (r & 0xFF) as u8;
    }

    /// Add a 16-bit register to HL (see `hl_added`).
    fn add16_hl(&mut self, r: Register16)
        ensures
            final(self).state == hl_added(old(self).state, r),
            final(self).bus == old(self).bus,
    {
        let hl = self.state.read16(Register16::HL);
        let v = self.state.read16(r);
        let result: u32 = hl as u32 + v as u32;
        let low = (result & 0xFFFF) as u16;
        self.state.f = set_flag(self.state.f, Flags::HALF_CARRY, ((hl ^ v ^ low) & 0x1000) != 0);
        self.state.f = set_flag(self.state.f, Flags::CARRY, result > 0xFFFF);
        self.state.f = set_flag(self.state.f, Flags::ADD_SUBTRACT, false);
        self.state.write16(Register16::HL, low);
    }

    /// SP plus the signed immediate, with the flags (see `sp_offset`).
    fn add16_sp_e(&mut self) -> (r: u16)
        ensures
            (r, final(self).state, final(self).bus.model()) == sp_offset::<B>(old(self).state, old(self).bus.model()),
    {
        let e = self.state.next8(&mut self.bus);
        let sp = self.state.sp;
        let result = sp.wrapping_add_signed((e as i8) as i16);
        self.state.f = set_flag(self.state.f, Flags::CARRY, (result & 0xFF) < (sp & 0xFF));
        self.state.f = set_flag(self.state.f, Flags::HALF_CARRY, (result & 0xF) < (sp & 0xF));
        self.state.f = set_flag(self.state.f, Flags::ZERO, false);
        self.state.f = set_flag(self.state.f, Flags::ADD_SUBTRACT, false);
        result
    }

    /// Loads, 16-bit operations, and the operations on A and the carry flag.
    fn moves(&mut self, op: Operation)
        ensures
            (final(self).state, final(self).bus.model()) == moved::<B>(op, old(self).state, old(self).bus.model()),
    {
        match op {
            Operation::Load8(dst, src) => {
                let v = self.state.read_operand(&mut self.bus, src);
                self.state.write_operand(&mut self.bus, dst, v);
            },
            Operation::Load16Immediate(r) => {
                let v = self.state.next16(&mut self.bus);
                self.state.write16(r, v);
            },
            Operation::Increment16(r) => {
                let v = self.state.read16(r).wrapping_add(1);
                self.state.write16(r, v);
            },
            Operation::Decrement16(r) => {
                let v = self.state.read16(r).wrapping_sub(1);
                self.state.write16(r, v);
            },
            Operation::Push16(r) => {
                let v = self.state.read16(r);
                self.state.push16(&mut self.bus, v);
            },
            Operation::Pop16(r) => {
                let v = self.state.pop16(&mut self.bus);
                self.state.write16(r, v);
            },
            Operation::Complement => {
                self.state.a = self.state.a ^ 0xFF;
                self.state.f = set_flag(self.state.f, Flags::ADD_SUBTRACT, true);
                self.state.f = set_flag(self.state.f, Flags::HALF_CARRY, true);
            },
            Operation::ComplementCarry => {
                self.state.f = set_flag(self.state.f, Flags::ADD_SUBTRACT, false);
                self.state.f = set_flag(self.state.f, Flags::HALF_CARRY, false);
                self.state.f = self.state.f ^ Flags::CARRY;
            },
            Operation::SetCarry => {
                self.state.f = set_flag(self.state.f, Flags::ADD_SUBTRACT, false);
                self.state.f = set_flag(self.state.f, Flags::HALF_CARRY, false);
                self.state.f = set_flag(self.state.f, Flags::CARRY, true);
            },
            Operation::DecimalAdjust => self.daa(),
            Operation::AddToHl(r) => self.add16_hl(r),
            Operation::AddToSp => {
                let v = self.add16_sp_e();
                self.state.sp = v;
            },
            Operation::LoadHlSpOffset => {
                let v = self.add16_sp_e();
                self.state.write16(Register16::HL, v);
            },
            _ => {},
        }
    }

    /// A CPU with all registers clear, on `bus`.
    pub fn new(bus: B) -> (c: Self)
        ensures
            c.state == State::new_spec(),
            c.bus == bus,
    {
        Executor { state: State::new(), bus }
    }

    /// Reset: execution starts at 0x100 (where the boot ROM leaves it).
    pub fn reset(&mut self)
        ensures
            final(self).state == old(self).state.at(0x100),
            final(self).bus == old(self).bus,
    {
        self.state.pc = 0x100;
    }

    /// Execute an operation.
    pub fn execute(&mut self, op: Operation)
        requires
            executable(op),
        ensures
            (final(self).state, final(self).bus.model()) == executed::<B>(op, old(self).state, old(self).bus.model()),
    {
        match op {
            Operation::Add(_) | Operation::AddWithCarry(_) | Operation::Sub(_) | Operation::SubWithCarry(_)
            | Operation::Compare(_) | Operation::And(_) | Operation::Or(_) | Operation::Xor(_) => self.alu(op),
            Operation::JumpRelative(_) | Operation::Jump(_, _) | Operation::Call(_) | Operation::Return(_)
            | Operation::ReturnAndEnableInterrupts | Operation::Reset(_) => self.branch(op),
            Operation::Increment8(_) | Operation::Decrement8(_) | Operation::RotateLeft(_)
            | Operation::RotateLeftCircular(_) | Operation::RotateRight(_) | Operation::RotateRightCircular(_)
            | Operation::ByteSwap(_) | Operation::ShiftLeftA(_) | Operation::ShiftRightA(_)
            | Operation::ShiftRightL(_) | Operation::RotateLeftAccumulator
            | Operation::RotateLeftCircularAccumulator | Operation::RotateRightAccumulator
            | Operation::RotateRightCircularAccumulator | Operation::BitTest(_, _) | Operation::BitSet(_, _)
            | Operation::BitReset(_, _) => self.modify(op),
            // Interrupts are not modelled: EI and DI do nothing yet
            _ => self.moves(op),
        }
    }

    /// Fetch the opcode at PC and execute the operation it decodes to.
    pub fn run_next(&mut self)
        requires
            executable(visited(B::value_at(old(self).bus.model(), old(self).state.pc))),
        ensures
            ({
                let (opcode, s1, m1) = fetch8::<B>(old(self).state, old(self).bus.model());
                (final(self).state, final(self).bus.model()) == executed::<B>(visited(opcode), s1, m1)
            }),
    {
        let opcode = self.state.next8(&mut self.bus);
        self.execute(visit(opcode));
    }
}

} // verus!
