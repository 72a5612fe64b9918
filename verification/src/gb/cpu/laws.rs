//! Properties of the LR35902 operations that hold across the decoder and the executor.

use vstd::prelude::*;
use super::executor::{decimal_adjusted, executable, executed, shift_result, shifted, ShiftKind};
use super::operands::{Address, Condition, Operand8, Register16, Register8};
use super::operations::{visited, visited_cb, Operation};
use super::state::{popped, pushed, with_flag, Bus, Flags, Ram, State};

verus! {

/// Every 0xCB-prefixed opcode decodes to an operation the executor carries out: the
/// prefixed table has no undefined entry, and its bit numbers are below 8.
pub proof fn law_cb_opcodes_executable(op: u8)
    ensures
        executable(visited_cb(op)),
{
}

/// CP is SUB without storing the difference: the same flags and bus, A unchanged.
pub proof fn law_compare_is_sub_without_result<B: Bus>(o: Operand8, s: State, m: B::Model)
    ensures
        ({
            let (sc, mc) = executed::<B>(Operation::Compare(o), s, m);
            let (ss, ms) = executed::<B>(Operation::Sub(o), s, m);
            sc == (State { a: s.a, ..ss }) && mc == ms
        }),
{
}

/// RETI returns as an unconditional RET does (interrupts are not modelled).
pub proof fn law_reti_returns<B: Bus>(s: State, m: B::Model)
    ensures
        executed::<B>(Operation::ReturnAndEnableInterrupts, s, m) == executed::<B>(
            Operation::Return(Condition::Always),
            s,
            m,
        ),
{
}

/// RLA, RLCA, RRA and RRCA are RL A, RLC A, RR A and RRC A with Z always cleared.
pub proof fn law_accumulator_rotations<B: Bus>(s: State, m: B::Model)
    ensures
        ({
            let a = Operand8::Register(Register8::A);
            let cleared = |r: (State, B::Model)| (State { f: with_flag(r.0.f, Flags::ZERO, false), ..r.0 }, r.1);
            &&& executed::<B>(Operation::RotateLeftAccumulator, s, m) == cleared(shifted::<B>(ShiftKind::Rl, a, s, m))
            &&& executed::<B>(Operation::RotateLeftCircularAccumulator, s, m) == cleared(
                shifted::<B>(ShiftKind::Rlc, a, s, m),
            )
            &&& executed::<B>(Operation::RotateRightAccumulator, s, m) == cleared(shifted::<B>(ShiftKind::Rr, a, s, m))
            &&& executed::<B>(Operation::RotateRightCircularAccumulator, s, m) == cleared(
                shifted::<B>(ShiftKind::Rrc, a, s, m),
            )
        }),
{
}

/// DAA always leaves the half-carry flag clear (unlike a Z-80).
pub proof fn law_daa_clears_half_carry(s: State)
    ensures
        !decimal_adjusted(s).has(Flags::HALF_CARRY),
{
    let f = decimal_adjusted(s).f;
    assert(forall|x: u8| #![auto] (x & !0x20u8) & !0x80u8 & 0x20u8 == 0 && ((x & !0x20u8) | 0x80u8)
        & 0x20u8 == 0) by (bit_vector);
}

/// POP AF keeps only the flag bits of F: its low nibble is always clear.
pub proof fn law_pop_af_keeps_flag_bits<B: Bus>(s: State, m: B::Model)
    ensures
        executed::<B>(Operation::Pop16(Register16::AF), s, m).0.f & 0x0F == 0,
{
    assert(forall|x: u8| #![auto] (x & 0xF0u8) & 0x0Fu8 == 0) by (bit_vector);
}

/// Swapping the nibbles twice gives back the value, and a swap never carries.
pub proof fn law_swap_twice(v: u8, carry: bool)
    ensures
        shift_result(ShiftKind::Swap, shift_result(ShiftKind::Swap, v, carry).0, carry).0 == v,
        !shift_result(ShiftKind::Swap, v, carry).1,
{
    assert(((((v >> 4u8) | ((v << 4u8) & 0xF0u8)) >> 4u8) | ((((v >> 4u8) | ((v << 4u8) & 0xF0u8)) << 4u8) & 0xF0u8))
        == v) by (bit_vector);
}

/// On plain memory, a popped word is the word last pushed, and SP is back where it was.
pub proof fn law_push_pop_roundtrip(s: State, m: Seq<u8>, v: u16)
    requires
        m.len() == 0x10000,
    ensures
        ({
            let (s1, m1) = pushed::<Ram>(s, m, v);
            let (w, s2, m2) = popped::<Ram>(s1, m1);
            w == v && s2 == s
        }),
{
    let sp1 = s.sp.wrapping_sub(1);
    let sp2 = sp1.wrapping_sub(1);
    assert(sp2.wrapping_add(1) == sp1);
    assert(sp1.wrapping_add(1) == s.sp);
}

/// A 16-bit register reads back as written; AF keeps only the flag bits of its low byte.
pub proof fn law_register16_roundtrip(s: State, r: Register16, v: u16)
    ensures
        r != Register16::AF ==> s.with_reg16(r, v).reg16(r) == v,
        r == Register16::AF ==> s.with_reg16(r, v).reg16(r) == (v / 256) * 256 + ((v % 256) as u8 & 0xF0),
{
}

/// A conditional RET whose condition fails (NZ with Z set, Z with Z clear, NC with C set,
/// C with C clear) changes nothing: PC, SP, the other registers and the bus stay as they
/// were. One whose condition holds pops PC: the low byte at SP, the high byte at SP + 1,
/// and SP goes up by 2, the other registers unchanged. Opcodes 0xC0, 0xC8, 0xD0 and 0xD8
/// are RET NZ, RET Z, RET NC and RET C.
pub proof fn law_conditional_return<B: Bus>(c: Condition, s: State, m: B::Model)
    ensures
        visited(0xC0) == Operation::Return(Condition::NotZero),
        visited(0xC8) == Operation::Return(Condition::Zero),
        visited(0xD0) == Operation::Return(Condition::NotCarry),
        visited(0xD8) == Operation::Return(Condition::Carry),
        ({
            let fails = (c == Condition::NotZero && s.f & 0x80 != 0) || (c == Condition::Zero && s.f
                & 0x80 == 0) || (c == Condition::NotCarry && s.f & 0x10 != 0) || (c == Condition::Carry
                && s.f & 0x10 == 0);
            let (s2, m2) = executed::<B>(Operation::Return(c), s, m);
            let lo = B::value_at(m, s.sp);
            let hi = B::value_at(B::read_from(m, s.sp), s.sp.wrapping_add(1));
            &&& fails ==> s2 == s && m2 == m
            &&& !fails ==> s2.pc == hi * 256 + lo && s2.sp == (s.sp + 2) % 0x10000 && s2 == (State {
                pc: s2.pc,
                sp: s2.sp,
                ..s
            })
        }),
{
}

/// A conditional JR, JP nn or CALL nn whose condition fails (NZ with Z set, Z with Z clear,
/// NC with C set, C with C clear) only steps PC over its operand (one byte for JR, two for
/// JP and CALL): SP, the other registers and the bus stay as they were. A CALL whose
/// condition holds jumps to the word after the opcode (low byte first) and pushes the
/// address past that word, high byte at SP - 1 and low byte at SP - 2, SP going down by 2.
pub proof fn law_conditional_branches<B: Bus>(c: Condition, s: State, m: B::Model)
    ensures
        ({
            let fails = (c == Condition::NotZero && s.f & 0x80 != 0) || (c == Condition::Zero && s.f
                & 0x80 == 0) || (c == Condition::NotCarry && s.f & 0x10 != 0) || (c == Condition::Carry
                && s.f & 0x10 == 0);
            &&& fails ==> executed::<B>(Operation::JumpRelative(c), s, m) == (State {
                pc: ((s.pc + 1) % 0x10000) as u16,
                ..s
            }, m)
            &&& fails ==> executed::<B>(Operation::Jump(c, Address::Direct), s, m) == (State {
                pc: ((s.pc + 2) % 0x10000) as u16,
                ..s
            }, m)
            &&& fails ==> executed::<B>(Operation::Call(c), s, m) == (State {
                pc: ((s.pc + 2) % 0x10000) as u16,
                ..s
            }, m)
        }),
        ({
            let holds = !((c == Condition::NotZero && s.f & 0x80 != 0) || (c == Condition::Zero && s.f
                & 0x80 == 0) || (c == Condition::NotCarry && s.f & 0x10 != 0) || (c
                == Condition::Carry && s.f & 0x10 == 0));
            let (s2, m2) = executed::<B>(Operation::Call(c), s, m);
            let lo = B::value_at(m, s.pc);
            let m1 = B::read_from(m, s.pc);
            let pc1 = ((s.pc + 1) % 0x10000) as u16;
            let hi = B::value_at(m1, pc1);
            let m3 = B::read_from(m1, pc1);
            let ret = ((s.pc + 2) % 0x10000) as u16;
            let sp1 = ((s.sp + 0xFFFF) % 0x10000) as u16;
            let sp2 = ((s.sp + 0xFFFE) % 0x10000) as u16;
            holds ==> s2 == (State { pc: (hi * 256 + lo) as u16, sp: sp2, ..s }) && m2 == B::written_at(
                B::written_at(m3, sp1, (ret / 256) as u8),
                sp2,
                (ret % 256) as u8,
            )
        }),
{
}

} // verus!
