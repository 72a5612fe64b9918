//! Architectural register state of the 6502: A, X, Y, S, P and PC.

use vstd::prelude::*;

verus! {

/// A CPU register.
#[derive(Debug, Clone, Copy, PartialEq, Eq, Structural)]
pub enum Register {
    A,
    X,
    Y,
    SP,
}

/// Processor status register (P) flags for the 6502 CPU.
#[derive(Debug, Clone, Copy, PartialEq, Eq, Structural)]
pub struct CpuStatus(pub u8);

/// Bit 4 is not stored in the CPU, it has no physical register counterpart.
/// OR'd into P only when pushing to the stack: set by `PHP`/`BRK`, clear for `IRQ`/`NMI`.
pub const STATUS_B: u8 = 0b0001_0000;

/// Bit 5 is unused and hardwired on the physical chip.
/// Must be OR'd into P whenever it is pushed to the stack or exposed on the bus.
pub const STATUS_U: u8 = 0b0010_0000;

impl CpuStatus {
    /// Carry: the last operation carried out of bit 7 (or did not borrow into it).
    pub const C: u8 = 0b0000_0001;

    /// Zero: the result of the last operation was zero.
    pub const Z: u8 = 0b0000_0010;

    /// Interrupt disable: IRQ cannot be triggered.
    pub const I: u8 = 0b0000_0100;

    /// Decimal (ignored in the NES 2A03).
    pub const D: u8 = 0b0000_1000;

    /// Bit 4, only OR'd into P when it is pushed (see `STATUS_B`).
    pub const B: u8 = STATUS_B;

    /// Bit 5, hardwired on (see `STATUS_U`).
    pub const U: u8 = STATUS_U;

    /// Overflow: the last operation produced a signed overflow.
    pub const V: u8 = 0b0100_0000;

    /// Negative: bit 7 of the result is set.
    pub const N: u8 = 0b1000_0000;

    /// Whether any bit of `flag` is set.
    pub open spec fn has(self, flag: CpuStatus) -> bool {
        self.0 & flag.0 != 0
    }

    /// These flags with those of `flag` set when `value`, cleared otherwise.
    pub open spec fn with(self, flag: CpuStatus, value: bool) -> CpuStatus {
        if value { CpuStatus(self.0 | flag.0) } else { CpuStatus(self.0 & !flag.0) }
    }

    /// These flags with Z and N set from `result`.
    pub open spec fn with_zn(self, result: u8) -> CpuStatus {
        self.with(CpuStatus(CpuStatus::Z), result == 0).with(CpuStatus(CpuStatus::N), result & 0x80 != 0)
    }

    /// Constructs a `CpuStatus` from a raw byte, dropping bits that are not stored
    /// in the physical register (`B` and `U`).
    pub fn new(bits: u8) -> (r: Self)
        ensures
            r.0 == bits & !STATUS_B & !STATUS_U,
    {
        CpuStatus(bits & !STATUS_B & !STATUS_U)
    }

    /// Returns `true` if all bits in `flag` are set.
    pub fn contains(&self, flag: CpuStatus) -> (r: bool)
        ensures
            r == (self.0 & flag.0 == flag.0),
    {
        self.0 & flag.0 == flag.0
    }

    /// Sets or clears `flag` based on `value`.
    pub fn set(&mut self, flag: CpuStatus, value: bool)
        ensures
            *final(self) == old(self).with(flag, value),
    {
        if value {
            self.insert(flag);
        } else {
            self.remove(flag);
        }
    }

    /// Sets `flag`.
    pub fn insert(&mut self, flag: CpuStatus)
        ensures
            *final(self) == CpuStatus(old(self).0 | flag.0),
    {
        self.0 |= flag.0;
    }

    /// Clears `flag`.
    pub fn remove(&mut self, flag: CpuStatus)
        ensures
            *final(self) == CpuStatus(old(self).0 & !flag.0),
    {
        self.0 &= !flag.0;
    }

    /// Sets or clears Z based on whether `result` is zero.
    pub fn update_z(&mut self, result: u8)
        ensures
            *final(self) == old(self).with(CpuStatus(CpuStatus::Z), result == 0),
    {
        self.set(CpuStatus(CpuStatus::Z), result == 0);
    }

    /// Sets or clears N from bit 7 of `result`.
    pub fn update_n(&mut self, result: u8)
        ensures
            *final(self) == old(self).with(CpuStatus(CpuStatus::N), result & 0x80 != 0),
    {
        self.set(CpuStatus(CpuStatus::N), result & 0x80 != 0);
    }

    /// Sets or clears Z and N from `result`.
    pub fn update_zn(&mut self, result: u8)
        ensures
            *final(self) == old(self).with_zn(result),
    {
        self.update_z(result);
        self.update_n(result);
    }
}

/// Snapshot of all 6502 CPU registers.
#[derive(Debug, Clone, Copy, PartialEq, Eq, Structural)]
pub struct CpuState {
    /// Accumulator (A)
    pub a: u8,
    /// X index register
    pub x: u8,
    /// Y index register
    pub y: u8,
    /// Program counter (PC)
    pub pc: u16,
    /// Stack pointer (SP): offset into the stack page $0100 - $01FF
    pub sp: u8,
    /// Processor (P) status register
    pub p: CpuStatus,
}

impl CpuState {
    /// The value of register `r`.
    pub open spec fn reg(self, r: Register) -> u8 {
        match r {
            Register::A => self.a,
            Register::X => self.x,
            Register::Y => self.y,
            Register::SP => self.sp,
        }
    }

    /// This state with register `r` set to `value`.
    pub open spec fn with_reg(self, r: Register, value: u8) -> CpuState {
        match r {
            Register::A => CpuState { a: value, ..self },
            Register::X => CpuState { x: value, ..self },
            Register::Y => CpuState { y: value, ..self },
            Register::SP => CpuState { sp: value, ..self },
        }
    }

    /// Returns the CPU register state at power-on: S at 0xFD (after the three phantom
    /// pushes of the reset sequence) and I set.
    pub fn new() -> (s: Self)
        ensures
            s == (CpuState { a: 0, x: 0, y: 0, pc: 0, sp: 0xFD, p: CpuStatus(CpuStatus::I) }),
    {
        CpuState { a: 0, x: 0, y: 0, pc: 0, sp: 0xFD, p: CpuStatus(CpuStatus::I) }
    }

    /// Writes `value` to register `r`.
    pub fn set(&mut self, r: Register, value: u8)
        ensures
            *final(self) == old(self).with_reg(r, value),
    {
        match r {
            Register::A => {
                self.a = value;
            },
            Register::X => {
                self.x = value;
            },
            Register::Y => {
                self.y = value;
            },
            Register::SP => {
                self.sp = value;
            },
        }
    }

    /// Reads the value of register `r`.
    pub fn get(&self, r: Register) -> (v: u8)
        ensures
            v == self.reg(r),
    {
        match r {
            Register::A => self.a,
            Register::X => self.x,
            Register::Y => self.y,
            Register::SP => self.sp,
        }
    }

    /// Returns the full 16-bit address of the current stack top: `$0100 | SP`.
    pub fn stack_address(&self) -> (r: u16)
        ensures
            r == 0x0100 + self.sp,
    {
        proof {
            let sp = self.sp;
            assert(0x0100u16 | (sp as u16) == 0x0100 + sp) by (bit_vector);
        }
        0x0100 | self.sp as u16
    }
}

impl Default for CpuState {
    fn default() -> (s: Self)
        ensures
            s == (CpuState { a: 0, x: 0, y: 0, pc: 0, sp: 0xFD, p: CpuStatus(CpuStatus::I) }),
    {
        Self::new()
    }
}

/// For the carry flag, "all of its bits set" and "any of its bits set" agree.
pub proof fn lemma_contains_carry(p: CpuStatus)
    ensures
        (p.0 & CpuStatus::C == CpuStatus::C) == p.has(CpuStatus(CpuStatus::C)),
{
    let b = p.0;
    assert((b & 1 == 1) == (b & 1 != 0)) by (bit_vector);
}

/// Setting a flag and reading it back: it is set exactly when it was set to true (for a
/// single-bit flag).
pub proof fn law_flag_roundtrip(p: CpuStatus, flag: CpuStatus, value: bool)
    requires
        flag.0 == CpuStatus::C || flag.0 == CpuStatus::Z || flag.0 == CpuStatus::I || flag.0
            == CpuStatus::D || flag.0 == CpuStatus::V || flag.0 == CpuStatus::N,
    ensures
        p.with(flag, value).has(flag) == value,
{
    let b = p.0;
    let f = flag.0;
    assert(f == 1 || f == 2 || f == 4 || f == 8 || f == 0x40 || f == 0x80 ==> ((b | f) & f != 0)
        && ((b & !f) & f == 0)) by (bit_vector);
}

/// Setting one flag leaves the others as they were.
pub proof fn law_flag_independent(p: CpuStatus, flag: CpuStatus, other: CpuStatus, value: bool)
    requires
        flag.0 == CpuStatus::C || flag.0 == CpuStatus::Z || flag.0 == CpuStatus::I || flag.0
            == CpuStatus::D || flag.0 == CpuStatus::V || flag.0 == CpuStatus::N,
        other.0 == CpuStatus::C || other.0 == CpuStatus::Z || other.0 == CpuStatus::I || other.0
            == CpuStatus::D || other.0 == CpuStatus::V || other.0 == CpuStatus::N,
        flag != other,
    ensures
        p.with(flag, value).has(other) == p.has(other),
{
    let b = p.0;
    let f = flag.0;
    let o = other.0;
    assert((f == 1 || f == 2 || f == 4 || f == 8 || f == 0x40 || f == 0x80) && (o == 1 || o == 2
        || o == 4 || o == 8 || o == 0x40 || o == 0x80) && f != o ==> ((b | f) & o != 0) == (b & o
        != 0) && ((b & !f) & o != 0) == (b & o != 0)) by (bit_vector);
}

/// Reading a register after writing it gives the value written; the other registers keep
/// theirs.
pub proof fn law_register_roundtrip(s: CpuState, r: Register, other: Register, value: u8)
    ensures
        s.with_reg(r, value).reg(r) == value,
        other != r ==> s.with_reg(r, value).reg(other) == s.reg(other),
{
}

} // verus!
