//! Status flag manipulation (`CLC`, `SEC`, `CLI`, `SEI`, `CLD`, `SED`, `CLV`) and the
//! no-op (`NOP`). Nothing here touches general-purpose registers or memory.

use vstd::prelude::*;
use super::operation::Cpu;
use super::state::{CpuState, CpuStatus};

verus! {

/// Clears status flag `flag` unconditionally (`CLC`, `CLI`, `CLD`, `CLV`).
pub struct CLEAR {
    pub flag: CpuStatus,
}

impl CLEAR {
    pub fn apply(&self, cpu: &mut Cpu) -> (w: Option<(u16, u8)>)
        ensures
            *final(cpu) == (Cpu {
                state: CpuState { p: CpuStatus(old(cpu).state.p.0 & !self.flag.0), ..old(cpu).state },
                ..*old(cpu)
            }),
            w is None,
    {
        cpu.state.p.remove(self.flag);
        None
    }
}

/// No operation: all registers and flags are left unchanged.
pub struct NOP;

impl NOP {
    pub fn apply(&self, cpu: &mut Cpu) -> (w: Option<(u16, u8)>)
        ensures
            *final(cpu) == *old(cpu),
            w is None,
    {
        None
    }
}

/// Sets status flag `flag` unconditionally (`SEC`, `SEI`, `SED`).
pub struct SET {
    pub flag: CpuStatus,
}

impl SET {
    pub fn apply(&self, cpu: &mut Cpu) -> (w: Option<(u16, u8)>)
        ensures
            *final(cpu) == (Cpu {
                state: CpuState { p: CpuStatus(old(cpu).state.p.0 | self.flag.0), ..old(cpu).state },
                ..*old(cpu)
            }),
            w is None,
    {
        cpu.state.p.insert(self.flag);
        None
    }
}

} // verus!
