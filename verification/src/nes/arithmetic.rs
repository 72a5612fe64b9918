//! Arithmetic operations: addition, subtraction, increment, decrement, and comparison.
//! `ADC` and `SBC` update `C` and `V` in addition to `Z` and `N`.

use vstd::prelude::*;
use super::operation::{Cpu, Operand, Register};
use super::state::{lemma_contains_carry, law_flag_independent, law_flag_roundtrip, CpuState, CpuStatus};

verus! {

/// The state after `ADC` with operand `data`: A + data + C into A; Z and N from the result,
/// C when it exceeds 0xFF, V when the operands have the same sign and the result's differs.
pub open spec fn adc_spec(s: CpuState, data: u8) -> CpuState {
    let result = s.a + data + (if s.p.has(CpuStatus(CpuStatus::C)) { 1int } else { 0 });
    let r8 = result as u8;
    CpuState {
        a: r8,
        p: s.p.with_zn(r8).with(CpuStatus(CpuStatus::C), result > 0xFF).with(
            CpuStatus(CpuStatus::V),
            (!(s.a ^ data) & (s.a ^ r8)) & 0x80 != 0,
        ),
        ..s
    }
}

/// The flags after comparing `value` with `data`: C when `value >= data`, Z and N from the
/// difference.
pub open spec fn compare_spec(p: CpuStatus, value: u8, data: u8) -> CpuStatus {
    p.with(CpuStatus(CpuStatus::C), value >= data).with_zn(value.wrapping_sub(data))
}

/// Adds the accumulator, a byte from the effective address, and the carry flag (`ADC`).
pub struct ADC;

impl ADC {
    pub fn apply(&self, cpu: &mut Cpu) -> (w: Option<(u16, u8)>)
        ensures
            *final(cpu) == (Cpu { state: adc_spec(old(cpu).state, old(cpu).data), ..*old(cpu) }),
            w is None,
    {
        proof {
            lemma_contains_carry(cpu.state.p);
        }
        let carry: u16 = if cpu.state.p.contains(CpuStatus(CpuStatus::C)) { 1 } else { 0 };
        let result: u16 = cpu.state.a as u16 + cpu.data as u16 + carry;
        let a = cpu.state.a;
        let data = cpu.data;
        cpu.state.p.update_zn(result as u8);
        cpu.state.p.set(CpuStatus(CpuStatus::C), result > 0xFF);
        cpu.state.p.set(CpuStatus(CpuStatus::V), (!(a ^ data) & (a ^ result as u8)) & 0x80 != 0);
        cpu.state.a = result as u8;
        None
    }
}

/// Subtracts the byte at the effective address from register `register` without storing
/// the result (`CMP`, `CPX`, `CPY`).
pub struct COMPARE {
    pub register: Register,
}

impl COMPARE {
    pub fn apply(&self, cpu: &mut Cpu) -> (w: Option<(u16, u8)>)
        ensures
            *final(cpu) == (Cpu {
                state: CpuState {
                    p: compare_spec(old(cpu).state.p, old(cpu).state.reg(self.register), old(cpu).data),
                    ..old(cpu).state
                },
                ..*old(cpu)
            }),
            w is None,
    {
        let value = self.register.get(&cpu.state);
        let result = value.wrapping_sub(cpu.data);
        cpu.state.p.set(CpuStatus(CpuStatus::C), value >= cpu.data);
        cpu.state.p.update_zn(result);
        None
    }
}

/// Decrement memory by one, then compare the result with the accumulator (`DCP`).
pub struct DCP;

impl DCP {
    pub fn apply(&self, cpu: &mut Cpu) -> (w: Option<(u16, u8)>)
        ensures
            *final(cpu) == (Cpu {
                state: CpuState {
                    p: compare_spec(old(cpu).state.p, old(cpu).state.a, old(cpu).data.wrapping_sub(1)),
                    ..old(cpu).state
                },
                ..*old(cpu)
            }),
            w == Some((old(cpu).address, old(cpu).data.wrapping_sub(1))),
    {
        let value = cpu.data.wrapping_sub(1);
        let w = Some((cpu.address, value));
        cpu.state.p.set(CpuStatus(CpuStatus::C), cpu.state.a >= value);
        cpu.state.p.update_zn(cpu.state.a.wrapping_sub(value));
        w
    }
}

/// Decrements operand `operand` by one (`DEC`, `DEX`, `DEY`). Updates `Z` and `N`.
pub struct DECREMENT {
    pub operand: Operand,
}

impl DECREMENT {
    pub fn apply(&self, cpu: &mut Cpu) -> (w: Option<(u16, u8)>)
        ensures
            ({
                let v = self.operand.value(*old(cpu)).wrapping_sub(1);
                let c = self.operand.written_cpu(*old(cpu), v);
                &&& *final(cpu) == (Cpu { state: CpuState { p: c.state.p.with_zn(v), ..c.state }, ..c })
                &&& w == self.operand.bus_write(*old(cpu), v)
            }),
    {
        let value = self.operand.read(cpu).wrapping_sub(1);
        let w = self.operand.write(cpu, value);
        cpu.state.p.update_zn(value);
        w
    }
}

/// Increments operand `operand` by one (`INC`, `INX`, `INY`). Updates `Z` and `N`.
pub struct INCREMENT {
    pub operand: Operand,
}

impl INCREMENT {
    pub fn apply(&self, cpu: &mut Cpu) -> (w: Option<(u16, u8)>)
        ensures
            ({
                let v = self.operand.value(*old(cpu)).wrapping_add(1);
                let c = self.operand.written_cpu(*old(cpu), v);
                &&& *final(cpu) == (Cpu { state: CpuState { p: c.state.p.with_zn(v), ..c.state }, ..c })
                &&& w == self.operand.bus_write(*old(cpu), v)
            }),
    {
        let value = self.operand.read(cpu).wrapping_add(1);
        let w = self.operand.write(cpu, value);
        cpu.state.p.update_zn(value);
        w
    }
}

/// Increment memory by one, then subtract the result from the accumulator (`ISC`): the
/// incremented byte is written back, and A - value - (1 - C) goes through `ADC` as A +
/// !value + C.
pub struct ISC;

impl ISC {
    pub fn apply(&self, cpu: &mut Cpu) -> (w: Option<(u16, u8)>)
        ensures
            ({
                let v = old(cpu).data.wrapping_add(1);
                &&& *final(cpu) == (Cpu { state: adc_spec(old(cpu).state, !v), data: !v, ..*old(cpu) })
                &&& w == Some((old(cpu).address, v))
            }),
    {
        let value = cpu.data.wrapping_add(1);
        let w = Some((cpu.address, value));
        // Invert the operand and forward to ADC (same as SBC)
        cpu.data = !value;
        ADC.apply(cpu);
        w
    }
}

/// Subtracts a byte at the effective address and the borrow from the accumulator (`SBC`):
/// A - M - (1 - C) is computed as A + !M + C by `ADC`.
pub struct SBC;

impl SBC {
    pub fn apply(&self, cpu: &mut Cpu) -> (w: Option<(u16, u8)>)
        ensures
            *final(cpu) == (Cpu { state: adc_spec(old(cpu).state, !old(cpu).data), data: !old(cpu).data, ..*old(cpu) }),
            w is None,
    {
        cpu.data = !cpu.data;
        ADC.apply(cpu)
    }
}

/// ANDs the accumulator with `X`, subtracts the byte at the effective address, and stores
/// the result in `X` (`SBX`). Does not affect `V`.
pub struct SBX;

impl SBX {
    pub fn apply(&self, cpu: &mut Cpu) -> (w: Option<(u16, u8)>)
        ensures
            ({
                let value = old(cpu).state.a & old(cpu).state.x;
                *final(cpu) == (Cpu {
                    state: CpuState {
                        p: compare_spec(old(cpu).state.p, value, old(cpu).data),
                        x: value.wrapping_sub(old(cpu).data),
                        ..old(cpu).state
                    },
                    ..*old(cpu)
                })
            }),
            w is None,
    {
        let value = cpu.state.a & cpu.state.x;
        let result = value.wrapping_sub(cpu.data);
        cpu.state.p.set(CpuStatus(CpuStatus::C), value >= cpu.data);
        cpu.state.p.update_zn(result);
        cpu.state.x = result;
        None
    }
}

/// `SBC` subtracts: A becomes A - M - (1 - C) modulo 256, and C is set exactly when that
/// difference does not borrow (is not negative).
pub proof fn law_sbc_subtracts(s: CpuState, m: u8)
    ensures
        ({
            let borrow: int = if s.p.has(CpuStatus(CpuStatus::C)) { 0 } else { 1 };
            let diff = s.a - m - borrow;
            &&& adc_spec(s, !m).a == (diff + 256) % 256
            &&& adc_spec(s, !m).p.has(CpuStatus(CpuStatus::C)) == (diff >= 0)
        }),
{
    assert(!m == 255 - m) by (bit_vector);
    let c: int = if s.p.has(CpuStatus(CpuStatus::C)) { 1 } else { 0 };
    let result = s.a + (!m) + c;
    let r16 = result as u16;
    assert(r16 == result);
    assert(r16 as u8 == r16 % 256) by (bit_vector);
    let r8 = result as u8;
    let p1 = s.p.with_zn(r8);
    let p2 = p1.with(CpuStatus(CpuStatus::C), result > 0xFF);
    law_flag_roundtrip(p1, CpuStatus(CpuStatus::C), result > 0xFF);
    law_flag_independent(
        p2,
        CpuStatus(CpuStatus::V),
        CpuStatus(CpuStatus::C),
        (!(s.a ^ !m) & (s.a ^ r8)) & 0x80 != 0,
    );
}

/// A compare sets C exactly when the register is at least the operand, and Z exactly when
/// they are equal.
pub proof fn law_compare_flags(p: CpuStatus, value: u8, data: u8)
    ensures
        compare_spec(p, value, data).has(CpuStatus(CpuStatus::C)) == (value >= data),
        compare_spec(p, value, data).has(CpuStatus(CpuStatus::Z)) == (value == data),
{
    let p1 = p.with(CpuStatus(CpuStatus::C), value >= data);
    let r = value.wrapping_sub(data);
    let p2 = p1.with(CpuStatus(CpuStatus::Z), r == 0);
    law_flag_roundtrip(p, CpuStatus(CpuStatus::C), value >= data);
    law_flag_independent(p1, CpuStatus(CpuStatus::Z), CpuStatus(CpuStatus::C), r == 0);
    law_flag_independent(p2, CpuStatus(CpuStatus::N), CpuStatus(CpuStatus::C), r & 0x80 != 0);
    law_flag_roundtrip(p1, CpuStatus(CpuStatus::Z), r == 0);
    law_flag_independent(p2, CpuStatus(CpuStatus::N), CpuStatus(CpuStatus::Z), r & 0x80 != 0);
}

} // verus!
