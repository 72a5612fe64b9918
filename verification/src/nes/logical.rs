//! Bitwise operations: `AND`, `EOR`, `ORA`, `BIT`, and the shifts and rotates `ASL`,
//! `LSR`, `ROL`, `ROR`. No overflow is produced; shifts and rotates move a bit into C.

use vstd::prelude::*;
use super::operation::{Cpu, Operand};
use super::state::{lemma_contains_carry, CpuState, CpuStatus};

verus! {

/// The CPU after a shift or rotate of `operand` produced `result` from `value`: the result
/// written back, Z and N from it, and C from the bit shifted out.
pub open spec fn shifted_cpu(operand: Operand, cpu: Cpu, result: u8, carry: bool) -> Cpu {
    let c = operand.written_cpu(cpu, result);
    Cpu {
        state: CpuState { p: c.state.p.with_zn(result).with(CpuStatus(CpuStatus::C), carry), ..c.state },
        ..c
    }
}

/// The CPU after `A` is set to `result`, with Z and N from it.
pub open spec fn with_a(cpu: Cpu, result: u8) -> Cpu {
    Cpu { state: CpuState { a: result, p: cpu.state.p.with_zn(result), ..cpu.state }, ..cpu }
}

/// The carry flag as a bit.
pub open spec fn carry_bit(p: CpuStatus) -> u8 {
    if p.has(CpuStatus(CpuStatus::C)) { 1 } else { 0 }
}

/// Shifts operand `operand` one bit left, filling bit 0 with zero (`ASL`).
pub struct ASL {
    pub operand: Operand,
}

impl ASL {
    pub fn apply(&self, cpu: &mut Cpu) -> (w: Option<(u16, u8)>)
        ensures
            ({
                let v = self.operand.value(*old(cpu));
                let r = v << 1u8;
                &&& *final(cpu) == shifted_cpu(self.operand, *old(cpu), r, v & 0x80 != 0)
                &&& w == self.operand.bus_write(*old(cpu), r)
            }),
    {
        let value = self.operand.read(cpu);
        let result = value << 1;
        let w = self.operand.write(cpu, result);
        cpu.state.p.update_zn(result);
        cpu.state.p.set(CpuStatus(CpuStatus::C), value & 0x80 != 0);
        w
    }
}

/// Bitwise AND of the accumulator with a byte from the effective address (`AND`).
pub struct AND;

impl AND {
    pub fn apply(&self, cpu: &mut Cpu) -> (w: Option<(u16, u8)>)
        ensures
            *final(cpu) == with_a(*old(cpu), old(cpu).state.a & old(cpu).data),
            w is None,
    {
        let result = cpu.state.a & cpu.data;
        cpu.state.a = result;
        cpu.state.p.update_zn(result);
        None
    }
}

/// Tests bits in memory against the accumulator (`BIT`): Z from A & data, N from bit 7 and
/// V from bit 6 of the data. A is not modified.
pub struct BIT;

impl BIT {
    pub fn apply(&self, cpu: &mut Cpu) -> (w: Option<(u16, u8)>)
        ensures
            *final(cpu) == (Cpu {
                state: CpuState {
                    p: old(cpu).state.p.with(CpuStatus(CpuStatus::Z), old(cpu).state.a & old(cpu).data == 0).with(
                        CpuStatus(CpuStatus::N),
                        old(cpu).data & 0x80 != 0,
                    ).with(CpuStatus(CpuStatus::V), old(cpu).data & 0x40 != 0),
                    ..old(cpu).state
                },
                ..*old(cpu)
            }),
            w is None,
    {
        cpu.state.p.update_z(cpu.state.a & cpu.data);
        cpu.state.p.set(CpuStatus(CpuStatus::N), cpu.data & 0x80 != 0);
        cpu.state.p.set(CpuStatus(CpuStatus::V), cpu.data & 0x40 != 0);
        None
    }
}

/// Bitwise exclusive OR of the accumulator with a byte from the effective address (`EOR`).
pub struct EOR;

impl EOR {
    pub fn apply(&self, cpu: &mut Cpu) -> (w: Option<(u16, u8)>)
        ensures
            *final(cpu) == with_a(*old(cpu), old(cpu).state.a ^ old(cpu).data),
            w is None,
    {
        let result = cpu.state.a ^ cpu.data;
        cpu.state.a = result;
        cpu.state.p.update_zn(result);
        None
    }
}

/// Shifts operand `operand` one bit right, filling bit 7 with zero (`LSR`).
pub struct LSR {
    pub operand: Operand,
}

impl LSR {
    pub fn apply(&self, cpu: &mut Cpu) -> (w: Option<(u16, u8)>)
        ensures
            ({
                let v = self.operand.value(*old(cpu));
                let r = v >> 1u8;
                &&& *final(cpu) == shifted_cpu(self.operand, *old(cpu), r, v & 0x01 != 0)
                &&& w == self.operand.bus_write(*old(cpu), r)
            }),
    {
        let value = self.operand.read(cpu);
        let result = value >> 1;
        let w = self.operand.write(cpu, result);
        cpu.state.p.update_zn(result);
        cpu.state.p.set(CpuStatus(CpuStatus::C), value & 0x01 != 0);
        w
    }
}

/// Bitwise OR of the accumulator with a byte from the effective address (`ORA`).
pub struct ORA;

impl ORA {
    pub fn apply(&self, cpu: &mut Cpu) -> (w: Option<(u16, u8)>)
        ensures
            *final(cpu) == with_a(*old(cpu), old(cpu).state.a | old(cpu).data),
            w is None,
    {
        let result = cpu.state.a | cpu.data;
        cpu.state.a = result;
        cpu.state.p.update_zn(result);
        None
    }
}

/// Rotates operand `operand` one bit left through the carry flag (`ROL`).
pub struct ROL {
    pub operand: Operand,
}

impl ROL {
    pub fn apply(&self, cpu: &mut Cpu) -> (w: Option<(u16, u8)>)
        ensures
            ({
                let v = self.operand.value(*old(cpu));
                let r = (v << 1u8) | carry_bit(old(cpu).state.p);
                &&& *final(cpu) == shifted_cpu(self.operand, *old(cpu), r, v & 0x80 != 0)
                &&& w == self.operand.bus_write(*old(cpu), r)
            }),
    {
        let value = self.operand.read(cpu);
        proof {
            lemma_contains_carry(cpu.state.p);
        }
        let c: u8 = if cpu.state.p.contains(CpuStatus(CpuStatus::C)) { 1 } else { 0 };
        let result = (value << 1) | c;
        let w = self.operand.write(cpu, result);
        cpu.state.p.update_zn(result);
        cpu.state.p.set(CpuStatus(CpuStatus::C), value & 0x80 != 0);
        w
    }
}

/// Rotates operand `operand` one bit right through the carry flag (`ROR`).
pub struct ROR {
    pub operand: Operand,
}

impl ROR {
    pub fn apply(&self, cpu: &mut Cpu) -> (w: Option<(u16, u8)>)
        ensures
            ({
                let v = self.operand.value(*old(cpu));
                let r = (v >> 1u8) | (carry_bit(old(cpu).state.p) << 7u8);
                &&& *final(cpu) == shifted_cpu(self.operand, *old(cpu), r, v & 0x01 != 0)
                &&& w == self.operand.bus_write(*old(cpu), r)
            }),
    {
        let value = self.operand.read(cpu);
        proof {
            lemma_contains_carry(cpu.state.p);
        }
        let c: u8 = if cpu.state.p.contains(CpuStatus(CpuStatus::C)) { 1 } else { 0 };
        let result = (value >> 1) | (c << 7);
        let w = self.operand.write(cpu, result);
        cpu.state.p.update_zn(result);
        cpu.state.p.set(CpuStatus(CpuStatus::C), value & 0x01 != 0);
        w
    }
}

/// Rotating left then right through the carry gives the operand back, with the carry as
/// it was.
pub proof fn law_rotate_roundtrip(v: u8, c: u8)
    requires
        c <= 1,
    ensures
        ({
            let r1 = (v << 1u8) | c;
            let c1: u8 = if v & 0x80 != 0 { 1 } else { 0 };
            let r2 = (r1 >> 1u8) | (c1 << 7u8);
            let c2: u8 = if r1 & 0x01 != 0 { 1 } else { 0 };
            r2 == v && c2 == c
        }),
{
    assert(c <= 1 ==> ((((v << 1u8) | c) >> 1u8) | ((if v & 0x80 != 0 { 1u8 } else { 0u8 }) << 7u8)) == v
        && ((((v << 1u8) | c) & 0x01 != 0) == (c == 1))) by (bit_vector);
}

} // verus!
