//! The ARM register file: sixteen general registers (R13 the stack pointer, R14 the link
//! register, R15 the program counter) and the current program status register.

use vstd::prelude::*;

verus! {

/// CPSR bit 31: negative
pub const CPSR_N_FLAG: u32 = 0x8000_0000;

/// CPSR bit 30: zero
pub const CPSR_Z_FLAG: u32 = 0x4000_0000;

/// CPSR bit 29: carry
pub const CPSR_C_FLAG: u32 = 0x2000_0000;

/// CPSR bit 28: overflow
pub const CPSR_V_FLAG: u32 = 0x1000_0000;

/// The register state of the CPU.
pub struct State {
    /// R0 - R15
    pub r: [u32; 16],
    /// Current program status register
    pub cpsr: u32,
    /// Set by a branch: the prefetched instructions are stale
    pub needs_pipeline_flush: bool,
}

/// The register state as values: the registers as a sequence.
pub struct StateView {
    pub r: Seq<u32>,
    pub cpsr: u32,
    pub needs_pipeline_flush: bool,
}

impl View for State {
    type V = StateView;

    open spec fn view(&self) -> StateView {
        StateView { r: self.r@, cpsr: self.cpsr, needs_pipeline_flush: self.needs_pipeline_flush }
    }
}

impl StateView {
    /// This state with register `i` set to `v`.
    pub open spec fn with_r(self, i: int, v: u32) -> StateView {
        StateView { r: self.r.update(i, v), ..self }
    }
}

/// `value` with the bits of `mask` set when `on`, cleared otherwise.
pub open spec fn with_mask(value: u32, mask: u32, on: bool) -> u32 {
    if on { value | mask } else { value & !mask }
}

/// Set or clear the bits of `mask` in `value`.
pub fn set_mask_from(value: u32, mask: u32, on: bool) -> (r: u32)
    ensures
        r == with_mask(value, mask, on),
{
    if on {
        value | mask
    } else {
        value & !mask
    }
}

/// Whether bit `n` of `value` is set.
pub open spec fn bit_of(value: u32, n: u32) -> bool {
    (value >> n) & 1 == 1
}

/// Test bit `n` of `value`.
pub fn bit(value: u32, n: u32) -> (r: bool)
    requires
        n < 32,
    ensures
        r == bit_of(value, n),
{
    (value >> n) & 1 == 1
}

impl State {
    /// All registers and flags clear.
    pub fn new() -> (s: State)
        ensures
            s@ == (StateView { r: Seq::new(16, |i: int| 0u32), cpsr: 0, needs_pipeline_flush: false }),
    {
        let s = State { r: [0u32; 16], cpsr: 0, needs_pipeline_flush: false };
        assert(s@.r =~= Seq::new(16, |i: int| 0u32));
        s
    }

    /// Register `i`.
    pub fn r(&self, i: usize) -> (v: u32)
        requires
            i < 16,
        ensures
            v == self@.r[i as int],
    {
        self.r[i]
    }

    /// Set register `i`.
    pub fn set_r(&mut self, i: usize, v: u32)
        requires
            i < 16,
        ensures
            final(self)@ == old(self)@.with_r(i as int, v),
    {
        self.r[i] = v;
    }
}

} // verus!
