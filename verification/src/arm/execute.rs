//! Executing ARM and THUMB instructions on the register file and memory. Only the
//! instructions the core implements so far are accepted.

use vstd::prelude::*;
use super::decode::Instruction;
use super::instruction::{ArmInstruction, DataProcessingOperation, Operand2, Shift, ShiftType, ThumbInstruction, Unit};
use super::intr::{bextr16, field16, lemma_field16_bounds};
use super::memory::{Memory, MemoryView};
use super::state::{bit, bit_of, set_mask_from, with_mask, State, StateView, CPSR_C_FLAG, CPSR_N_FLAG, CPSR_Z_FLAG};

verus! {

/// `value` rotated right by `amount` bits.
pub open spec fn rotr(value: u32, amount: u32) -> u32 {
    let k = amount % 32;
    if k == 0 { value } else { (value >> k) | (value << ((32 - k) as u32)) }
}

/// Rotate right (as `u32::rotate_right`).
fn rotate_right(value: u32, amount: u32) -> (r: u32)
    ensures
        r == rotr(value, amount),
{
    let k = amount % 32;
    if k == 0 {
        value
    } else {
        (value >> k) | (value << (32 - k))
    }
}

/// The amount of a shift: the immediate, or the value of the amount register.
pub open spec fn shift_amount(shift: Shift, s: StateView) -> u32 {
    match shift {
        Shift::Immediate { amount, .. } => amount as u32,
        Shift::Register { s: reg, .. } => s.r[reg.index() as int],
    }
}

/// The type of a shift.
pub open spec fn shift_kind(shift: Shift) -> ShiftType {
    match shift {
        Shift::Immediate { type_, .. } => type_,
        Shift::Register { type_, .. } => type_,
    }
}

/// Whether a shift can be applied: the amount of a shift other than a rotation is below 32.
pub open spec fn shift_ok(shift: Shift, s: StateView) -> bool {
    shift_kind(shift) != ShiftType::RotateRight ==> shift_amount(shift, s) < 32
}

/// `value` shifted as `shift` says.
pub open spec fn shifted(shift: Shift, s: StateView, value: u32) -> u32 {
    let amount = shift_amount(shift, s);
    match shift_kind(shift) {
        ShiftType::LogicalLeft => value << amount,
        ShiftType::ArithmeticRight => ((value as i32) >> amount) as u32,
        ShiftType::LogicalRight => value >> amount,
        ShiftType::RotateRight => rotr(value, amount),
    }
}

/// Whether a second operand can be evaluated.
pub open spec fn operand_ok(o: Operand2, s: StateView) -> bool {
    match o {
        Operand2::Immediate { .. } => true,
        Operand2::Register { shift, .. } => shift_ok(shift, s),
    }
}

/// The value of a second operand: the immediate rotated right by twice `rotate`, or the
/// register shifted.
pub open spec fn operand_value(o: Operand2, s: StateView) -> u32 {
    match o {
        Operand2::Immediate { rotate, value } => rotr(value as u32, ((rotate as u32) * 2) as u32),
        Operand2::Register { shift, m } => shifted(shift, s, s.r[m.index() as int]),
    }
}

impl Shift {
    /// Apply the shift to `value`.
    pub fn apply(self, state: &State, value: u32) -> (r: u32)
        requires
            shift_ok(self, state@),
        ensures
            r == shifted(self, state@, value),
    {
        let (amount, type_) = match self {
            Shift::Immediate { amount, type_ } => (amount as u32, type_),
            Shift::Register { s, type_ } => (state.r(s.number()), type_),
        };
        match type_ {
            ShiftType::LogicalLeft => value << amount,
            ShiftType::ArithmeticRight => ((value as i32) >> amount) as u32,
            ShiftType::LogicalRight => value >> amount,
            ShiftType::RotateRight => rotate_right(value, amount),
        }
    }
}

impl Operand2 {
    /// The value of the operand.
    pub fn value(self, state: &State) -> (r: u32)
        requires
            operand_ok(self, state@),
        ensures
            r == operand_value(self, state@),
    {
        match self {
            Operand2::Immediate { rotate, value } => rotate_right(value as u32, (rotate as u32) * 2),
            Operand2::Register { shift, m } => shift.apply(state, state.r(m.number())),
        }
    }
}

/// The address a single data transfer accesses: the base register plus or minus the
/// offset when pre-indexed, the base itself when post-indexed; and the updated base.
pub open spec fn transfer_addresses(s: StateView, up_down: bool, pre: bool, n: int, offset: u32) -> (u32, u32) {
    let base = s.r[n];
    let address = if up_down { base.wrapping_add(offset) } else { base.wrapping_sub(offset) };
    (if pre { address } else { base }, address)
}

/// Whether `execute` handles `ix` in this state: branches; MOV and MVN; MSR; and word
/// transfers whose four bytes are mapped.
pub open spec fn executable(ix: Instruction, s: StateView, m: MemoryView) -> bool {
    match ix {
        Instruction::Branch { .. } => true,
        Instruction::DataProcessing { op, o, .. } => (op == DataProcessingOperation::Move || op
            == DataProcessingOperation::MoveNegative) && operand_ok(o, s),
        Instruction::StatusTransferFrom { o, .. } => operand_ok(o, s),
        Instruction::SingleDataTransfer { unit, up_down, pre_post_indexing, n, offset, .. } => {
            &&& unit == Unit::Word
            &&& operand_ok(offset, s)
            &&& m.mapped32(
                transfer_addresses(s, up_down, pre_post_indexing, n.index() as int, operand_value(offset, s)).0,
            )
        },
        _ => false,
    }
}

/// The state and memory after `ix` executes (conditions are not checked yet).
pub open spec fn executed(ix: Instruction, s: StateView, m: MemoryView) -> (StateView, MemoryView) {
    match ix {
        Instruction::Branch { offset, .. } => (
            StateView { needs_pipeline_flush: true, ..s }.with_r(15, s.r[15].wrapping_add(offset)),
            m,
        ),
        Instruction::DataProcessing { op, d, o, .. } => {
            let v = operand_value(o, s);
            (s.with_r(d.index() as int, if op == DataProcessingOperation::Move { v } else { 0xffff_ffff ^ v }), m)
        },
        Instruction::StatusTransferFrom { write_flags, o, .. } => {
            let v = operand_value(o, s);
            if write_flags {
                (StateView { cpsr: (s.cpsr ^ !0xF800_0000u32) | (v & 0xF800_0000), ..s }, m)
            } else {
                (s, m)
            }
        },
        Instruction::SingleDataTransfer { write_back, pre_post_indexing, store_load, up_down, offset, d, n, .. } => {
            let (transfer, address) = transfer_addresses(
                s,
                up_down,
                pre_post_indexing,
                n.index() as int,
                operand_value(offset, s),
            );
            let (s1, m1) = if store_load {
                (s.with_r(d.index() as int, m.word(transfer)), m)
            } else {
                (s, m.with_word(transfer, s.r[d.index() as int]))
            };
            (if write_back { s1.with_r(n.index() as int, address) } else { s1 }, m1)
        },
        _ => (s, m),
    }
}

/// Execute a decoded ARM instruction.
pub fn execute(ix: Instruction, state: &mut State, mem: &mut Memory)
    requires
        old(mem)@.wf(),
        executable(ix, old(state)@, old(mem)@),
    ensures
        (final(state)@, final(mem)@) == executed(ix, old(state)@, old(mem)@),
        final(mem)@.wf(),
{
    match ix {
        Instruction::Branch { cond, link, offset } => {
            // The condition field and the link bit are not evaluated.
            let pc = state.r(15);
            state.set_r(15, pc.wrapping_add(offset));
            state.needs_pipeline_flush = true;
        },
        Instruction::DataProcessing { cond, set_cond, op, n, d, o } => {
            // The condition field and the S bit are not evaluated.
            let v = o.value(state);
            if op == DataProcessingOperation::Move {
                state.set_r(d.number(), v);
            } else {
                state.set_r(d.number(), 0xffff_ffff ^ v);
            }
        },
        Instruction::StatusTransferFrom { cond, current, write_flags, write_control, o } => {
            // The condition field and the control-field mask are not evaluated.
            let value = o.value(state);
            if write_flags {
                state.cpsr ^= !0xF800_0000u32;
                state.cpsr |= value & 0xF800_0000;
            }
        },
        Instruction::SingleDataTransfer {
            cond,
            unit,
            signed,
            write_back,
            pre_post_indexing,
            store_load,
            up_down,
            offset,
            d,
            n,
        } => {
            // The condition field is not evaluated, and R15 as a write-back base is not refused.
            let base = state.r(n.number());
            let offset = offset.value(state);
            let address = if up_down {
                base.wrapping_add(offset)
            } else {
                base.wrapping_sub(offset)
            };
            let transfer_address = if pre_post_indexing {
                address
            } else {
                base
            };
            if store_load {
                // Load from memory
                let v = mem.read_u32(transfer_address);
                state.set_r(d.number(), v);
            } else {
                // Store to memory
                mem.write_u32(transfer_address, state.r(d.number()));
            }
            if write_back {
                state.set_r(n.number(), address);
            }
        },
        _ => {},
    }
}

/// The target of B/BL at `pc`: the 24-bit offset shifted left by 2, sign-extended from
/// bit 25, added to the PC.
pub open spec fn branch_target(pc: u32, opcode: u32) -> u32 {
    let offset = (opcode & 0xffffff) << 2u32;
    let offset = if bit_of(offset, 25) { offset | 0xfc00_0000 } else { offset };
    pc.wrapping_add(offset)
}

impl ArmInstruction {
    /// Execute an ARM instruction of this class; only B/BL is implemented. BL puts the
    /// address of the instruction following the branch (the PC minus 4, as the PC runs two
    /// instructions ahead) into the link register.
    pub fn execute(self, state: &mut State, opcode: u32)
        requires
            self == ArmInstruction::BranchLink,
        ensures
            final(state)@ == ({
                let target = branch_target(old(state)@.r[15], opcode);
                let s = if bit_of(opcode, 24) {
                    old(state)@.with_r(14, old(state)@.r[15].wrapping_sub(4))
                } else {
                    old(state)@
                };
                s.with_r(15, target)
            }),
    {
        self.exec_branch_link(state, opcode)
    }

    fn exec_branch_link(self, state: &mut State, opcode: u32)
        ensures
            final(state)@ == ({
                let target = branch_target(old(state)@.r[15], opcode);
                let s = if bit_of(opcode, 24) {
                    old(state)@.with_r(14, old(state)@.r[15].wrapping_sub(4))
                } else {
                    old(state)@
                };
                s.with_r(15, target)
            }),
    {
        // [Bits 0 - 23] Offset
        let mut offset = opcode & 0xffffff;
        // A signed 2's complement 24-bit offset, shifted left two bits and sign extended
        offset <<= 2;
        if bit(offset, 25) {
            offset |= 0xfc_00_00_00;
        }
        let pc = state.r(15);
        let address = pc.wrapping_add(offset);
        // [Bit 24] Link
        let is_link = bit(opcode, 24);
        if is_link {
            // BL writes the address of the instruction following the branch to the link
            // register
            state.set_r(14, pc.wrapping_sub(4));
        }
        state.set_r(15, address);
    }
}

/// The result of "move shifted register" (THUMB format 1) on a state: the shifted value
/// in Rd and the Z, N and C flags.
pub open spec fn move_shifted(s: StateView, opcode: u16) -> StateView {
    let dst = (opcode & 0b111) as int;
    let src = s.r[field16(opcode, 3, 3) as int];
    let offset = field16(opcode, 6, 5) as u32;
    let op = field16(opcode, 11, 2);
    let (value, carry) = if op == 0 {
        (src << offset, bit_of(src, 31))
    } else if op == 1 {
        (src >> offset, bit_of(src, 0))
    } else {
        (((src as i32) >> offset) as u32, bit_of(src, 0))
    };
    let s1 = s.with_r(dst, value);
    StateView {
        cpsr: with_mask(with_mask(with_mask(s1.cpsr, CPSR_Z_FLAG, value == 0), CPSR_N_FLAG, bit_of(value, 31)), CPSR_C_FLAG, carry),
        ..s1
    }
}

impl ThumbInstruction {
    /// Execute a THUMB instruction of this class; only "move shifted register" with a shift
    /// opcode other than 0b11 is implemented.
    pub fn execute(self, state: &mut State, opcode: u16)
        requires
            self == ThumbInstruction::MoveShiftedRegister,
            field16(opcode, 11, 2) != 0b11,
        ensures
            final(state)@ == move_shifted(old(state)@, opcode),
    {
        self.exec_move_shifted_register(state, opcode)
    }

    fn exec_move_shifted_register(self, state: &mut State, opcode: u16)
        requires
            field16(opcode, 11, 2) != 0b11,
        ensures
            final(state)@ == move_shifted(old(state)@, opcode),
    {
        proof {
            lemma_field16_bounds(opcode, 3);
            lemma_field16_bounds(opcode, 6);
            lemma_field16_bounds(opcode, 11);
            assert(opcode & 0b111 <= 7) by (bit_vector);
        }
        // [Bits 0-2] Destination register
        let dst = (opcode & 0b111) as usize;
        // [Bits 3-5] Source register
        let src = state.r(bextr16(opcode, 3, 3) as usize);
        // [Bits 6-10] Shift offset
        let offset = bextr16(opcode, 6, 5) as u32;
        // [Bits 11-12] Shift opcode
        let op = bextr16(opcode, 11, 2);
        let (value, carry) = if op == 0b00 {
            // Logical shift left (LSL)
            (src << offset, bit(src, 31))
        } else if op == 0b01 {
            // Logical shift right (LSR)
            (src >> offset, bit(src, 0))
        } else {
            // Arithmetic shift right (ASR)
            (((src as i32) >> offset) as u32, bit(src, 0))
        };
        state.set_r(dst, value);
        state.cpsr = set_mask_from(state.cpsr, CPSR_Z_FLAG, value == 0);
        state.cpsr = set_mask_from(state.cpsr, CPSR_N_FLAG, bit(value, 31));
        state.cpsr = set_mask_from(state.cpsr, CPSR_C_FLAG, carry);
    }
}

/// A single data transfer accesses memory at the base register's value when post-indexed
/// (P bit clear) and at the base plus the offset (U bit set) or minus it (U bit clear) when
/// pre-indexed; the offset otherwise only updates the base, which is written back when the
/// W bit is set. A load puts the word at that address into Rd (unless the write-back
/// targets the same register); a store writes Rd there; nothing else changes.
pub proof fn law_transfer_address(ix: Instruction, s: StateView, m: MemoryView)
    ensures
        (match ix {
            Instruction::SingleDataTransfer {
                pre_post_indexing,
                up_down,
                store_load,
                write_back,
                n,
                d,
                offset,
                ..
            } => {
                let (s2, m2) = executed(ix, s, m);
                let n = n.index() as int;
                let d = d.index() as int;
                let base = s.r[n];
                let off = operand_value(offset, s);
                let moved = if up_down { base.wrapping_add(off) } else { base.wrapping_sub(off) };
                let at = if pre_post_indexing { moved } else { base };
                let loaded = if store_load { s.with_r(d, m.word(at)) } else { s };
                &&& store_load ==> m2 == m
                &&& !store_load ==> m2 == m.with_word(at, s.r[d])
                &&& s2 == if write_back { loaded.with_r(n, moved) } else { loaded }
            },
            _ => true,
        }),
{
}

} // verus!
