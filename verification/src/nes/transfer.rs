//! Data movement between registers and memory: the value is copied verbatim.

use vstd::prelude::*;
use super::operation::{Cpu, Register};
use super::state::CpuState;

verus! {

/// Loads the byte read from the effective address into the register (`LDA`, `LDX`,
/// `LDY`). Updates `Z` and `N`.
pub struct LOAD {
    pub register: Register,
}

impl LOAD {
    pub fn apply(&self, cpu: &mut Cpu) -> (w: Option<(u16, u8)>)
        ensures
            ({
                let s = old(cpu).state.with_reg(self.register, old(cpu).data);
                *final(cpu) == (Cpu { state: CpuState { p: s.p.with_zn(old(cpu).data), ..s }, ..*old(cpu) })
            }),
            w is None,
    {
        self.register.set(&mut cpu.state, cpu.data);
        cpu.state.p.update_zn(cpu.data);
        None
    }
}

/// Stores the register into memory at the effective address (`STA`, `STX`, `STY`). No
/// flags are modified.
pub struct STORE {
    pub register: Register,
}

impl STORE {
    pub fn apply(&self, cpu: &mut Cpu) -> (w: Option<(u16, u8)>)
        ensures
            *final(cpu) == *old(cpu),
            w == Some((old(cpu).address, old(cpu).state.reg(self.register))),
    {
        let value = self.register.get(&cpu.state);
        Some((cpu.address, value))
    }
}

/// Copies register `src` into register `dst` (`TAX`, `TAY`, `TSX`, `TXA`, `TYA`, `TXS`).
/// Updates `Z` and `N` when the destination is `A`, `X`, or `Y`; `TXS` leaves the flags.
pub struct TRANSFER {
    pub src: Register,
    pub dst: Register,
}

impl TRANSFER {
    pub fn apply(&self, cpu: &mut Cpu) -> (w: Option<(u16, u8)>)
        ensures
            ({
                let v = old(cpu).state.reg(self.src);
                let s = old(cpu).state.with_reg(self.dst, v);
                *final(cpu) == (Cpu {
                    state: if self.dst != Register::SP { CpuState { p: s.p.with_zn(v), ..s } } else { s },
                    ..*old(cpu)
                })
            }),
            w is None,
    {
        let value = self.src.get(&cpu.state);
        self.dst.set(&mut cpu.state, value);
        if self.dst != Register::SP {
            cpu.state.p.update_zn(value);
        }
        None
    }
}

} // verus!
