//! ARM instruction decoding: a 32-bit opcode to the instruction it encodes.

use vstd::prelude::*;
use super::instruction::{
    condition_of, lemma_condition_of, lemma_operation_of, lemma_register_of, operand2_of,
    operation_of, register_of, shift_type_of, lemma_shift_type_of, Condition,
    DataProcessingOperation, Operand2, Register, Shift, ShiftType, Unit,
};
use super::intr::{bextr32, field32, lemma_field32_bounds, pext32, pext_spec};

verus! {

/// A decoded ARM instruction.
#[derive(Debug, Copy, Clone, PartialEq, Eq, Structural)]
pub enum Instruction {
    /// BX: branch to the address in `n`, switching to THUMB when its bit 0 is set.
    BranchExchange { cond: Condition, n: Register },
    /// MUL / MLA
    Multiply {
        cond: Condition,
        set_cond: bool,
        accumulate: bool,
        d: Register,
        n: Register,
        s: Register,
        m: Register,
    },
    /// UMULL / UMLAL / SMULL / SMLAL
    MultiplyLong {
        cond: Condition,
        set_cond: bool,
        accumulate: bool,
        signed: bool,
        dh: Register,
        dl: Register,
        s: Register,
        m: Register,
    },
    /// SWP / SWPB
    SingleDataSwap { cond: Condition, unit: Unit, d: Register, n: Register, m: Register },
    /// LDR / STR and the halfword and signed transfers
    SingleDataTransfer {
        cond: Condition,
        pre_post_indexing: bool,
        up_down: bool,
        signed: bool,
        store_load: bool,
        write_back: bool,
        unit: Unit,
        n: Register,
        d: Register,
        offset: Operand2,
    },
    /// MSR: write a status register from an operand
    StatusTransferFrom {
        cond: Condition,
        current: bool,
        write_flags: bool,
        write_control: bool,
        o: Operand2,
    },
    /// MRS: read a status register into `d`
    StatusTransferTo { cond: Condition, current: bool, d: Register },
    /// The ALU operations
    DataProcessing {
        cond: Condition,
        set_cond: bool,
        op: DataProcessingOperation,
        d: Register,
        n: Register,
        o: Operand2,
    },
    /// B / BL, with the offset already shifted and sign-extended
    Branch { cond: Condition, link: bool, offset: u32 },
}

/// Bit `i` of `op` is set.
pub open spec fn flag(op: u32, i: u32) -> bool {
    field32(op, i, 1) == 1
}

/// Whether `decode` handles `op`: the condition field is not 0b1111, and the opcode is not
/// an undefined instruction, a block transfer, a coprocessor instruction, a software
/// interrupt, or a multiply-class encoding with bits 23-24 both set.
pub open spec fn decodable(op: u32) -> bool {
    let class = field32(op, 25, 3);
    &&& field32(op, 28, 4) != 15
    &&& class == 0 ==> !(field32(op, 8, 20) != 0x12FFF && field32(op, 4, 4) == 0b1001 && field32(op, 23, 2) == 0b11)
    &&& class == 3 ==> !flag(op, 4)
    &&& class != 4 && class != 6 && class != 7
}

/// A data-processing instruction or, for TST/TEQ/CMP/CMN without the S bit, a status
/// register transfer (bit 21 chooses MSR over MRS, bit 22 the saved over the current PSR).
pub open spec fn data_proc_or_psr(cond: Condition, op: u32) -> Instruction {
    let set_cond = flag(op, 20);
    let immediate = flag(op, 25);
    if field32(op, 23, 2) == 0b10 && !set_cond {
        let current = field32(op, 22, 1) == 0;
        if flag(op, 21) {
            Instruction::StatusTransferFrom {
                cond,
                current,
                write_flags: flag(op, 19),
                write_control: flag(op, 16),
                o: operand2_of(op, immediate),
            }
        } else {
            Instruction::StatusTransferTo { cond, current, d: register_of(field32(op, 12, 4)) }
        }
    } else {
        Instruction::DataProcessing {
            cond,
            set_cond,
            op: operation_of(field32(op, 21, 4)),
            d: register_of(field32(op, 12, 4)),
            n: register_of(field32(op, 16, 4)),
            o: operand2_of(op, immediate),
        }
    }
}

/// Class 0b000: BX, the multiplies and swap (bits 4-7 = 0b1001), the halfword and signed
/// transfers (bits 4 and 7 set), else data processing / PSR transfer.
pub open spec fn class0(cond: Condition, op: u32) -> Instruction {
    if field32(op, 8, 20) == 0x12FFF {
        Instruction::BranchExchange { cond, n: register_of(field32(op, 0, 4)) }
    } else if field32(op, 4, 4) == 0b1001 {
        if field32(op, 23, 2) == 0b00 {
            Instruction::Multiply {
                cond,
                set_cond: flag(op, 20),
                accumulate: flag(op, 21),
                d: register_of(field32(op, 16, 4)),
                n: register_of(field32(op, 12, 4)),
                s: register_of(field32(op, 8, 4)),
                m: register_of(field32(op, 0, 4)),
            }
        } else if field32(op, 23, 2) == 0b01 {
            Instruction::MultiplyLong {
                cond,
                set_cond: flag(op, 20),
                accumulate: flag(op, 21),
                signed: flag(op, 22),
                dh: register_of(field32(op, 16, 4)),
                dl: register_of(field32(op, 12, 4)),
                s: register_of(field32(op, 8, 4)),
                m: register_of(field32(op, 0, 4)),
            }
        } else {
            Instruction::SingleDataSwap {
                cond,
                unit: if flag(op, 22) { Unit::Byte } else { Unit::Word },
                d: register_of(field32(op, 16, 4)),
                n: register_of(field32(op, 12, 4)),
                m: register_of(field32(op, 0, 4)),
            }
        }
    } else if pext_spec(op, 0b1001_0000) == 0b11 {
        let offset = if flag(op, 25) {
            Operand2::Immediate { rotate: 0, value: pext_spec(op, 0b1111_0000_1111) as u16 }
        } else {
            Operand2::Register {
                shift: Shift::Immediate { type_: ShiftType::LogicalLeft, amount: 0 },
                m: register_of(field32(op, 0, 4)),
            }
        };
        Instruction::SingleDataTransfer {
            cond,
            pre_post_indexing: flag(op, 24),
            up_down: flag(op, 23),
            signed: flag(op, 6),
            store_load: flag(op, 20),
            write_back: flag(op, 21),
            unit: if flag(op, 5) { Unit::HalfWord } else { Unit::Byte },
            n: register_of(field32(op, 16, 4)),
            d: register_of(field32(op, 12, 4)),
            offset,
        }
    } else {
        data_proc_or_psr(cond, op)
    }
}

/// Classes 0b010 and 0b011: LDR/STR with a 12-bit immediate offset or a register offset
/// shifted by an immediate.
pub open spec fn word_transfer(cond: Condition, op: u32) -> Instruction {
    let offset = if !flag(op, 25) {
        Operand2::Immediate { rotate: 0, value: field32(op, 0, 12) as u16 }
    } else {
        Operand2::Register {
            m: register_of(field32(op, 0, 4)),
            shift: Shift::Immediate {
                type_: shift_type_of(field32(op, 5, 2)),
                amount: field32(op, 7, 12) as u8,
            },
        }
    };
    Instruction::SingleDataTransfer {
        cond,
        pre_post_indexing: flag(op, 24),
        up_down: flag(op, 23),
        unit: if flag(op, 22) { Unit::Byte } else { Unit::Word },
        signed: false,
        write_back: flag(op, 21),
        store_load: flag(op, 20),
        n: register_of(field32(op, 16, 4)),
        d: register_of(field32(op, 12, 4)),
        offset,
    }
}

/// The branch offset: the 24-bit field shifted left by 2 and sign-extended from bit 25.
pub open spec fn branch_offset(op: u32) -> u32 {
    let offset = field32(op, 0, 24) << 2u32;
    if field32(offset, 25, 1) == 1 { offset | 0xfc00_0000 } else { offset }
}

/// The instruction `op` encodes (bits 28-31 the condition, bits 25-27 the class).
pub open spec fn decoded(op: u32) -> Instruction {
    let cond = condition_of(field32(op, 28, 4));
    let class = field32(op, 25, 3);
    if class == 0 {
        class0(cond, op)
    } else if class == 1 {
        data_proc_or_psr(cond, op)
    } else if class == 2 || class == 3 {
        word_transfer(cond, op)
    } else {
        Instruction::Branch { cond, link: flag(op, 24), offset: branch_offset(op) }
    }
}

#[inline]
fn decode_data_proc_or_psr(cond: Condition, opcode: u32) -> (r: Instruction)
    ensures
        r == data_proc_or_psr(cond, opcode),
{
    proof {
        lemma_field32_bounds(opcode, 12);
        lemma_field32_bounds(opcode, 16);
        lemma_field32_bounds(opcode, 21);
    }
    let set_cond = bextr32(opcode, 20, 1) == 1;
    let immediate = bextr32(opcode, 25, 1) == 1;
    if bextr32(opcode, 23, 2) == 0b10 && !set_cond {
        let current = bextr32(opcode, 22, 1) == 0;
        if bextr32(opcode, 21, 1) == 1 {
            Instruction::StatusTransferFrom {
                cond,
                current,
                write_flags: bextr32(opcode, 19, 1) == 1,
                write_control: bextr32(opcode, 16, 1) == 1,
                o: Operand2::decode(opcode, immediate),
            }
        } else {
            let d = Register::decode(bextr32(opcode, 12, 4));
            proof {
                lemma_register_of(d, field32(opcode, 12, 4));
            }
            Instruction::StatusTransferTo { cond, current, d }
        }
    } else {
        let op = DataProcessingOperation::decode(bextr32(opcode, 21, 4));
        let d = Register::decode(bextr32(opcode, 12, 4));
        let n = Register::decode(bextr32(opcode, 16, 4));
        proof {
            lemma_operation_of(op, field32(opcode, 21, 4));
            lemma_register_of(d, field32(opcode, 12, 4));
            lemma_register_of(n, field32(opcode, 16, 4));
        }
        Instruction::DataProcessing { cond, set_cond, op, d, n, o: Operand2::decode(opcode, immediate) }
    }
}

/// Decode the multiply and swap encodings (bits 4-7 = 0b1001 in class 0b000).
fn decode_multiply_or_swap(cond: Condition, opcode: u32) -> (r: Instruction)
    requires
        field32(opcode, 8, 20) != 0x12FFF,
        field32(opcode, 4, 4) == 0b1001,
        field32(opcode, 23, 2) != 0b11,
    ensures
        r == class0(cond, opcode),
{
    proof {
        lemma_field32_bounds(opcode, 0);
        lemma_field32_bounds(opcode, 8);
        lemma_field32_bounds(opcode, 12);
        lemma_field32_bounds(opcode, 16);
    }
    let d = Register::decode(bextr32(opcode, 16, 4));
    let n = Register::decode(bextr32(opcode, 12, 4));
    let s = Register::decode(bextr32(opcode, 8, 4));
    let m = Register::decode(bextr32(opcode, 0, 4));
    proof {
        lemma_register_of(d, field32(opcode, 16, 4));
        lemma_register_of(n, field32(opcode, 12, 4));
        lemma_register_of(s, field32(opcode, 8, 4));
        lemma_register_of(m, field32(opcode, 0, 4));
    }
    let kind = bextr32(opcode, 23, 2);
    if kind == 0b00 {
        Instruction::Multiply {
            cond,
            set_cond: bextr32(opcode, 20, 1) == 1,
            accumulate: bextr32(opcode, 21, 1) == 1,
            d,
            n,
            s,
            m,
        }
    } else if kind == 0b01 {
        Instruction::MultiplyLong {
            cond,
            set_cond: bextr32(opcode, 20, 1) == 1,
            accumulate: bextr32(opcode, 21, 1) == 1,
            signed: bextr32(opcode, 22, 1) == 1,
            dh: d,
            dl: n,
            s,
            m,
        }
    } else {
        Instruction::SingleDataSwap {
            cond,
            unit: if bextr32(opcode, 22, 1) == 1 { Unit::Byte } else { Unit::Word },
            d,
            n,
            m,
        }
    }
}

/// Decode the halfword and signed transfers (bits 4 and 7 set in class 0b000).
fn decode_halfword_transfer(cond: Condition, opcode: u32) -> (r: Instruction)
    requires
        field32(opcode, 8, 20) != 0x12FFF,
        field32(opcode, 4, 4) != 0b1001,
        pext_spec(opcode, 0b1001_0000) == 0b11,
    ensures
        r == class0(cond, opcode),
{
    proof {
        lemma_field32_bounds(opcode, 0);
        lemma_field32_bounds(opcode, 12);
        lemma_field32_bounds(opcode, 16);
    }
    let offset = if bextr32(opcode, 25, 1) == 1 {
        Operand2::Immediate { rotate: 0, value: pext32(opcode, 0b1111_0000_1111) as u16 }
    } else {
        let m = Register::decode(bextr32(opcode, 0, 4));
        proof {
            lemma_register_of(m, field32(opcode, 0, 4));
        }
        Operand2::Register { shift: Shift::Immediate { type_: ShiftType::LogicalLeft, amount: 0 }, m }
    };
    let n = Register::decode(bextr32(opcode, 16, 4));
    let d = Register::decode(bextr32(opcode, 12, 4));
    proof {
        lemma_register_of(n, field32(opcode, 16, 4));
        lemma_register_of(d, field32(opcode, 12, 4));
    }
    Instruction::SingleDataTransfer {
        cond,
        pre_post_indexing: bextr32(opcode, 24, 1) == 1,
        up_down: bextr32(opcode, 23, 1) == 1,
        signed: bextr32(opcode, 6, 1) == 1,
        store_load: bextr32(opcode, 20, 1) == 1,
        write_back: bextr32(opcode, 21, 1) == 1,
        unit: if bextr32(opcode, 5, 1) == 1 { Unit::HalfWord } else { Unit::Byte },
        n,
        d,
        offset,
    }
}

/// Decode class 0b000.
fn decode_class0(cond: Condition, opcode: u32) -> (r: Instruction)
    requires
        !(field32(opcode, 8, 20) != 0x12FFF && field32(opcode, 4, 4) == 0b1001 && field32(opcode, 23, 2) == 0b11),
    ensures
        r == class0(cond, opcode),
{
    proof {
        lemma_field32_bounds(opcode, 0);
    }
    if bextr32(opcode, 8, 20) == 0b0001_0010_1111_1111_1111 {
        let n = Register::decode(bextr32(opcode, 0, 4));
        proof {
            lemma_register_of(n, field32(opcode, 0, 4));
        }
        Instruction::BranchExchange { cond, n }
    } else if bextr32(opcode, 4, 4) == 0b1001 {
        decode_multiply_or_swap(cond, opcode)
    } else if pext32(opcode, 0b1001_0000) == 0b11 {
        decode_halfword_transfer(cond, opcode)
    } else {
        decode_data_proc_or_psr(cond, opcode)
    }
}

/// Decode a word/byte transfer (classes 0b010 and 0b011).
fn decode_word_transfer(cond: Condition, opcode: u32) -> (r: Instruction)
    ensures
        r == word_transfer(cond, opcode),
{
    proof {
        lemma_field32_bounds(opcode, 0);
        lemma_field32_bounds(opcode, 5);
        lemma_field32_bounds(opcode, 7);
        lemma_field32_bounds(opcode, 12);
        lemma_field32_bounds(opcode, 16);
        lemma_field32_bounds(opcode, 25);
    }
    let offset = if bextr32(opcode, 25, 1) == 0 {
        Operand2::Immediate { rotate: 0, value: bextr32(opcode, 0, 12) as u16 }
    } else {
        let m = Register::decode(bextr32(opcode, 0, 4));
        let type_ = ShiftType::decode(bextr32(opcode, 5, 2));
        proof {
            lemma_register_of(m, field32(opcode, 0, 4));
            lemma_shift_type_of(type_, field32(opcode, 5, 2));
        }
        Operand2::Register { m, shift: Shift::Immediate { type_, amount: bextr32(opcode, 7, 12) as u8 } }
    };
    let n = Register::decode(bextr32(opcode, 16, 4));
    let d = Register::decode(bextr32(opcode, 12, 4));
    proof {
        lemma_register_of(n, field32(opcode, 16, 4));
        lemma_register_of(d, field32(opcode, 12, 4));
    }
    Instruction::SingleDataTransfer {
        cond,
        pre_post_indexing: bextr32(opcode, 24, 1) == 1,
        up_down: bextr32(opcode, 23, 1) == 1,
        unit: if bextr32(opcode, 22, 1) == 1 { Unit::Byte } else { Unit::Word },
        signed: false,
        write_back: bextr32(opcode, 21, 1) == 1,
        store_load: bextr32(opcode, 20, 1) == 1,
        n,
        d,
        offset,
    }
}

/// Decode an ARM opcode.
pub fn decode(opcode: u32) -> (r: Instruction)
    requires
        decodable(opcode),
    ensures
        r == decoded(opcode),
{
    proof {
        lemma_field32_bounds(opcode, 25);
        lemma_field32_bounds(opcode, 28);
    }
    let cond = Condition::decode(bextr32(opcode, 28, 4));
    proof {
        lemma_condition_of(cond, field32(opcode, 28, 4));
    }
    let class = bextr32(opcode, 25, 3);
    if class == 0b000 {
        decode_class0(cond, opcode)
    } else if class == 0b001 {
        decode_data_proc_or_psr(cond, opcode)
    } else if class == 0b011 || class == 0b010 {
        decode_word_transfer(cond, opcode)
    } else {
        let mut offset = bextr32(opcode, 0, 24) << 2;
        if bextr32(offset, 25, 1) == 1 {
            // sign-extend to 32-bits if needed
            offset |= 0xfc_00_00_00;
        }
        Instruction::Branch { cond, link: bextr32(opcode, 24, 1) == 1, offset }
    }
}

} // verus!
