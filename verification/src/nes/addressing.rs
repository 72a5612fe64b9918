//! Addressing modes: how an instruction locates its operand, one cycle at a time. The
//! bus reads are done by the caller; a mode that consumes an instruction byte is handed
//! the byte read at PC.

use vstd::prelude::*;
use super::operation::Cpu;
use super::state::CpuState;

verus! {

/// The operand is encoded in the opcode itself (e.g. `CLC`, `TAX`). The spurious read of
/// the next byte is the caller's.
pub struct Implied;

impl Implied {
    /// Ready at once; nothing changes.
    pub fn resolve(cpu: &mut Cpu) -> (ready: bool)
        ensures
            *final(cpu) == *old(cpu),
            ready,
    {
        true
    }
}

/// The operand is the byte following the opcode (e.g. `LDA #$FF`).
pub struct Immediate;

impl Immediate {
    /// The effective address is PC, and PC moves past the operand byte.
    pub fn resolve(cpu: &mut Cpu) -> (ready: bool)
        ensures
            *final(cpu) == (Cpu {
                address: old(cpu).state.pc,
                state: CpuState { pc: old(cpu).state.pc.wrapping_add(1), ..old(cpu).state },
                ..*old(cpu)
            }),
            ready,
    {
        cpu.address = cpu.state.pc;
        cpu.state.pc = cpu.state.pc.wrapping_add(1);
        true
    }
}

/// The operand is in page zero, at the address given by the byte after the opcode.
pub struct ZeroPage;

impl ZeroPage {
    /// On cycle 1 the byte at PC (`pc_byte`) is fetched as the address and PC advances;
    /// ready from cycle 2 on.
    pub fn resolve(cpu: &mut Cpu, pc_byte: u8) -> (ready: bool)
        ensures
            old(cpu).cycle == 1 ==> *final(cpu) == (Cpu {
                address: pc_byte as u16,
                state: CpuState { pc: old(cpu).state.pc.wrapping_add(1), ..old(cpu).state },
                ..*old(cpu)
            }) && !ready,
            old(cpu).cycle != 1 ==> *final(cpu) == *old(cpu) && ready,
    {
        if cpu.cycle == 1 {
            cpu.address = pc_byte as u16;
            cpu.state.pc = cpu.state.pc.wrapping_add(1);
            false
        } else {
            true
        }
    }
}

/// The operand is in page zero, at the byte after the opcode plus X (wrapping within the
/// page).
pub struct ZeroPageX;

impl ZeroPageX {
    /// Cycle 1 as `ZeroPage`; on cycle 2 (after a dummy read) X is added within page zero;
    /// ready from cycle 3 on.
    pub fn resolve(cpu: &mut Cpu, pc_byte: u8) -> (ready: bool)
        ensures
            old(cpu).cycle == 1 ==> *final(cpu) == (Cpu {
                address: pc_byte as u16,
                state: CpuState { pc: old(cpu).state.pc.wrapping_add(1), ..old(cpu).state },
                ..*old(cpu)
            }) && !ready,
            old(cpu).cycle == 2 ==> *final(cpu) == (Cpu {
                address: ((old(cpu).address as u8).wrapping_add(old(cpu).state.x)) as u16,
                ..*old(cpu)
            }) && !ready,
            old(cpu).cycle != 1 && old(cpu).cycle != 2 ==> *final(cpu) == *old(cpu) && ready,
    {
        if cpu.cycle == 1 {
            ZeroPage::resolve(cpu, pc_byte)
        } else if cpu.cycle == 2 {
            cpu.address = (cpu.address as u8).wrapping_add(cpu.state.x) as u16;
            false
        } else {
            true
        }
    }
}

} // verus!
