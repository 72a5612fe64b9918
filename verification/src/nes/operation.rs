//! What an operation works on: the CPU registers, the effective address resolved by the
//! addressing mode, and the data latch holding the operand read from it. An operation
//! that writes memory returns the write for the bus to perform.

use vstd::prelude::*;
pub use super::state::Register;
use super::state::{CpuState, CpuStatus};

verus! {

/// Classifies how an operation accesses memory, driving the addressing-mode pipeline.
#[derive(Debug, Clone, Copy, PartialEq, Eq, Structural)]
pub enum MemoryAccess {
    Read,
    Write,
    ReadModifyWrite,
}

/// The CPU core an instruction runs on.
#[derive(Debug, Clone, Copy, PartialEq, Eq, Structural)]
pub struct Cpu {
    /// Architectural register state (A, X, Y, S, P, PC)
    pub state: CpuState,
    /// Which micro-operation cycle the current instruction is on
    pub cycle: u8,
    /// Scratch register for indirect addressing
    pub ptr: u8,
    /// Effective address being assembled across addressing cycles
    pub address: u16,
    /// Data latch: the operand read from the effective address
    pub data: u8,
    /// Whether the in-flight instruction's addressing has resolved
    pub executing: bool,
}

impl Cpu {
    /// A CPU at power-on.
    pub fn new() -> (c: Cpu)
        ensures
            c == (Cpu {
                state: CpuState { a: 0, x: 0, y: 0, pc: 0, sp: 0xFD, p: CpuStatus(CpuStatus::I) },
                cycle: 0,
                ptr: 0,
                address: 0,
                data: 0,
                executing: false,
            }),
    {
        Cpu { state: CpuState::new(), cycle: 0, ptr: 0, address: 0, data: 0, executing: false }
    }

    /// Starts execution at the `/RESET` vector, whose low byte `lo` and high byte `hi` the
    /// bus holds at `$fffc` and `$fffd`; nothing else changes.
    pub fn reset(&mut self, lo: u8, hi: u8)
        ensures
            final(self).state.pc == hi * 256 + lo,
            *final(self) == (Cpu {
                state: CpuState { pc: final(self).state.pc, ..old(self).state },
                ..*old(self)
            }),
    {
        let pc = ((hi as u16) << 8u16) | (lo as u16);
        assert(pc == hi * 256 + lo) by (bit_vector)
            requires
                pc == ((hi as u16) << 8u16) | (lo as u16),
        ;
        self.state.pc = pc;
    }
}

impl Register {
    /// Reads the value of this register.
    pub fn get(self, cpu: &CpuState) -> (v: u8)
        ensures
            v == cpu.reg(self),
    {
        cpu.get(self)
    }

    /// Writes `value` to this register.
    pub fn set(self, cpu: &mut CpuState, value: u8)
        ensures
            *final(cpu) == old(cpu).with_reg(self, value),
    {
        cpu.set(self, value)
    }
}

/// The source or destination of an operation's data: a CPU register or the memory at the
/// effective address.
#[derive(Debug, Clone, Copy, PartialEq, Eq, Structural)]
pub enum Operand {
    /// A CPU register (`A`, `X`, `Y`, or `SP`).
    Register(Register),
    /// The effective address resolved by the addressing mode.
    Memory,
}

impl Operand {
    /// The value of this operand: the register, or the data latch for memory.
    pub open spec fn value(self, cpu: Cpu) -> u8 {
        match self {
            Operand::Register(r) => cpu.state.reg(r),
            Operand::Memory => cpu.data,
        }
    }

    /// The CPU after `value` is written to this operand (a memory operand leaves it alone:
    /// the write goes to the bus).
    pub open spec fn written_cpu(self, cpu: Cpu, value: u8) -> Cpu {
        match self {
            Operand::Register(r) => Cpu { state: cpu.state.with_reg(r, value), ..cpu },
            Operand::Memory => cpu,
        }
    }

    /// The bus write a write of `value` to this operand performs.
    pub open spec fn bus_write(self, cpu: Cpu, value: u8) -> Option<(u16, u8)> {
        match self {
            Operand::Register(_) => None,
            Operand::Memory => Some((cpu.address, value)),
        }
    }

    /// Returns `Some(access)` for memory operands, `None` for register operands.
    pub fn access(self, access: MemoryAccess) -> (r: Option<MemoryAccess>)
        ensures
            r == (match self {
                Operand::Register(_) => None,
                Operand::Memory => Some(access),
            }),
    {
        match self {
            Operand::Register(_) => None,
            Operand::Memory => Some(access),
        }
    }

    /// Reads the current value of this operand.
    pub fn read(self, cpu: &Cpu) -> (v: u8)
        ensures
            v == self.value(*cpu),
    {
        match self {
            Operand::Register(r) => r.get(&cpu.state),
            Operand::Memory => cpu.data,
        }
    }

    /// Writes `value` to this operand; returns the bus write for a memory operand.
    pub fn write(self, cpu: &mut Cpu, value: u8) -> (w: Option<(u16, u8)>)
        ensures
            *final(cpu) == self.written_cpu(*old(cpu), value),
            w == self.bus_write(*old(cpu), value),
    {
        match self {
            Operand::Register(r) => {
                r.set(&mut cpu.state, value);
                None
            },
            Operand::Memory => Some((cpu.address, value)),
        }
    }
}

} // verus!
