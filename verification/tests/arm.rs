use wadatsumi::arm::decode::{decode, Instruction};
use wadatsumi::arm::execute::execute;
use wadatsumi::arm::instruction::{
    ArmInstruction, Condition, DataProcessingOperation, Operand2, Register, Shift, ShiftType,
    ThumbInstruction, Unit,
};
use wadatsumi::arm::memory::Memory;
use wadatsumi::arm::state::{bit, set_mask_from, State, CPSR_C_FLAG, CPSR_N_FLAG};

fn memory() -> Memory {
    Memory::new(vec![0u8; 0x100])
}

#[test]
fn decode_branch() {
    assert_eq!(
        decode(0xEA00_0000),
        Instruction::Branch { cond: Condition::Always, link: false, offset: 0 }
    );
    assert_eq!(
        decode(0xEB00_0001),
        Instruction::Branch { cond: Condition::Always, link: true, offset: 4 }
    );
    assert_eq!(
        decode(0x0AFF_FFFE),
        Instruction::Branch { cond: Condition::Equal, link: false, offset: 0xFFFF_FFF8 }
    );
}

#[test]
fn decode_mov_immediate() {
    assert_eq!(
        decode(0xE3A0_0001),
        Instruction::DataProcessing {
            cond: Condition::Always,
            set_cond: false,
            op: DataProcessingOperation::Move,
            d: Register::R0,
            n: Register::R0,
            o: Operand2::Immediate { rotate: 0, value: 1 },
        }
    );
}

#[test]
fn decode_add_register_shifted() {
    // ADDS r3, r4, r5, LSL #2
    assert_eq!(
        decode(0xE094_3105),
        Instruction::DataProcessing {
            cond: Condition::Always,
            set_cond: true,
            op: DataProcessingOperation::Add,
            d: Register::R3,
            n: Register::R4,
            o: Operand2::Register {
                shift: Shift::Immediate { amount: 2, type_: ShiftType::LogicalLeft },
                m: Register::R5,
            },
        }
    );
}

#[test]
fn decode_branch_exchange() {
    assert_eq!(
        decode(0xE12F_FF1E),
        Instruction::BranchExchange { cond: Condition::Always, n: Register::R14 }
    );
}

#[test]
fn decode_load_word() {
    assert_eq!(
        decode(0xE592_1004),
        Instruction::SingleDataTransfer {
            cond: Condition::Always,
            pre_post_indexing: true,
            up_down: true,
            signed: false,
            store_load: true,
            write_back: false,
            unit: Unit::Word,
            n: Register::R2,
            d: Register::R1,
            offset: Operand2::Immediate { rotate: 0, value: 4 },
        }
    );
}

#[test]
fn decode_multiply() {
    assert_eq!(
        decode(0xE000_0291),
        Instruction::Multiply {
            cond: Condition::Always,
            set_cond: false,
            accumulate: false,
            d: Register::R0,
            n: Register::R0,
            s: Register::R2,
            m: Register::R1,
        }
    );
}

#[test]
fn decode_multiply_long_and_swap() {
    // UMULL r0, r1, r2, r3
    assert_eq!(
        decode(0xE081_0392),
        Instruction::MultiplyLong {
            cond: Condition::Always,
            set_cond: false,
            accumulate: false,
            signed: false,
            dh: Register::R1,
            dl: Register::R0,
            s: Register::R3,
            m: Register::R2,
        }
    );
    // SWPB r0, r1, [r2]
    assert_eq!(
        decode(0xE142_0091),
        Instruction::SingleDataSwap {
            cond: Condition::Always,
            unit: Unit::Byte,
            d: Register::R2,
            n: Register::R0,
            m: Register::R1,
        }
    );
}

#[test]
fn decode_halfword_transfer() {
    assert_eq!(
        decode(0xE1D1_00B2),
        Instruction::SingleDataTransfer {
            cond: Condition::Always,
            pre_post_indexing: true,
            up_down: true,
            signed: false,
            store_load: true,
            write_back: false,
            unit: Unit::HalfWord,
            n: Register::R1,
            d: Register::R0,
            offset: Operand2::Register {
                shift: Shift::Immediate { type_: ShiftType::LogicalLeft, amount: 0 },
                m: Register::R2,
            },
        }
    );
}

#[test]
fn decode_status_transfers() {
    assert_eq!(
        decode(0xE129_F000),
        Instruction::StatusTransferFrom {
            cond: Condition::Always,
            current: true,
            write_flags: true,
            write_control: true,
            o: Operand2::Register {
                shift: Shift::Immediate { type_: ShiftType::LogicalLeft, amount: 0 },
                m: Register::R0,
            },
        }
    );
    // MRS r0, SPSR
    assert_eq!(
        decode(0xE14F_0000),
        Instruction::StatusTransferTo { cond: Condition::Always, current: false, d: Register::R0 }
    );
}

#[test]
fn field_decoders() {
    assert_eq!(Condition::decode(0), Condition::Equal);
    assert_eq!(Condition::decode(14), Condition::Always);
    assert_eq!(DataProcessingOperation::decode(15), DataProcessingOperation::MoveNegative);
    assert_eq!(Register::decode(13), Register::R13);
    assert_eq!(Register::R13.number(), 13);
    assert_eq!(ShiftType::decode(3), ShiftType::RotateRight);
    assert_eq!(Shift::decode(0b0011_0001), Shift::Register { s: Register::R3, type_: ShiftType::LogicalLeft });
    assert_eq!(Shift::decode(0b0001_0010), Shift::Immediate { amount: 2, type_: ShiftType::LogicalRight });
    assert_eq!(Operand2::decode(0x0000_0412, true), Operand2::Immediate { rotate: 4, value: 0x12 });
}

#[test]
fn operand_values() {
    let mut state = State::new();
    state.set_r(3, 0x8000_0000);
    state.set_r(4, 4);
    assert_eq!(Operand2::Immediate { rotate: 4, value: 0xFF }.value(&state), 0xFF00_0000);
    let asr = Shift::Immediate { amount: 4, type_: ShiftType::ArithmeticRight };
    assert_eq!(asr.apply(&state, 0x8000_0000), 0xF800_0000);
    let lsr = Shift::Register { s: Register::R4, type_: ShiftType::LogicalRight };
    assert_eq!(lsr.apply(&state, 0x8000_0000), 0x0800_0000);
    let ror = Operand2::Register { shift: Shift::Immediate { amount: 1, type_: ShiftType::RotateRight }, m: Register::R0 };
    state.set_r(0, 1);
    assert_eq!(ror.value(&state), 0x8000_0000);
}

#[test]
fn state_helpers() {
    let s = State::new();
    assert_eq!(s.r(15), 0);
    assert!(bit(0x8000_0000, 31));
    assert!(!bit(0x8000_0000, 30));
    assert_eq!(set_mask_from(0, CPSR_N_FLAG, true), CPSR_N_FLAG);
    assert_eq!(set_mask_from(0xFFFF_FFFF, CPSR_C_FLAG, false), !CPSR_C_FLAG);
}

#[test]
fn memory_byte_word_roundtrip() {
    let mut m = memory();
    m.write_u8(0x0200_0010, 0xAB);
    assert_eq!(m.read_u8(0x0200_0010), 0xAB);
    m.write_u32(0x0300_0000, 0x1234_5678);
    assert_eq!(m.read_u32(0x0300_0000), 0x1234_5678);
    assert_eq!(m.read_u8(0x0300_0000), 0x78);
    assert_eq!(m.read_u8(0x0300_0003), 0x12);
}

#[test]
fn memory_mirror_of_last_page() {
    let mut m = memory();
    m.write_u8(0x03FF_FF00, 7);
    assert_eq!(m.read_u8(0x0300_7F00), 7);
    m.write_u8(0x0300_7FFF, 9);
    assert_eq!(m.read_u8(0x03FF_FFFF), 9);
}

#[test]
fn memory_rom_is_game_pak() {
    let mut rom = vec![0u8; 8];
    rom[4] = 0x55;
    let m = Memory::new(rom);
    assert_eq!(m.read_u8(0x0800_0004), 0x55);
    assert_eq!(m.read_u32(0x0800_0004), 0x55);
}

#[test]
fn execute_mov_and_mvn() {
    let mut s = State::new();
    let mut m = memory();
    execute(decode(0xE3A0_0001), &mut s, &mut m);
    assert_eq!(s.r(0), 1);
    // MVN r1, #0
    execute(decode(0xE3E0_1000), &mut s, &mut m);
    assert_eq!(s.r(1), 0xFFFF_FFFF);
}

#[test]
fn execute_branch() {
    let mut s = State::new();
    let mut m = memory();
    s.set_r(15, 0x100);
    execute(decode(0xEA00_0002), &mut s, &mut m);
    assert_eq!(s.r(15), 0x108);
    assert!(s.needs_pipeline_flush);
    execute(decode(0xEAFF_FFFE), &mut s, &mut m);
    assert_eq!(s.r(15), 0x100);
}

#[test]
fn execute_load_and_store() {
    let mut s = State::new();
    let mut m = memory();
    s.set_r(2, 0x0200_0000);
    m.write_u32(0x0200_0004, 0xDEAD_BEEF);
    // LDR r1, [r2, #4]
    execute(decode(0xE592_1004), &mut s, &mut m);
    assert_eq!(s.r(1), 0xDEAD_BEEF);
    assert_eq!(s.r(2), 0x0200_0000);
    // STR r1, [r2, #8]!
    execute(decode(0xE5A2_1008), &mut s, &mut m);
    assert_eq!(m.read_u32(0x0200_0008), 0xDEAD_BEEF);
    assert_eq!(s.r(2), 0x0200_0008);
}

#[test]
fn execute_msr_flags() {
    let mut s = State::new();
    let mut m = memory();
    s.set_r(0, 0xF000_0000);
    execute(decode(0xE129_F000), &mut s, &mut m);
    assert_eq!(s.cpsr & 0xF800_0000, 0xF000_0000);
}

#[test]
fn branch_with_link() {
    let mut s = State::new();
    s.set_r(15, 0x100);
    ArmInstruction::BranchLink.execute(&mut s, 0xEB00_0001);
    assert_eq!(s.r(15), 0x104);
    assert_eq!(s.r(14), 0xFC);
}

#[test]
fn branch_with_link_keeps_return_address() {
    let mut s = State::new();
    s.set_r(15, 0x1000);
    ArmInstruction::BranchLink.execute(&mut s, 0xEB00_0010);
    assert_eq!(s.r(15), 0x1040);
    assert_eq!(s.r(14), 0x0FFC);
}

#[test]
fn branch_without_link_keeps_lr() {
    let mut s = State::new();
    s.set_r(15, 0x1000);
    s.set_r(14, 0x1234);
    ArmInstruction::BranchLink.execute(&mut s, 0xEA00_0010);
    assert_eq!(s.r(15), 0x1040);
    assert_eq!(s.r(14), 0x1234);
}

#[test]
fn thumb_shift_left() {
    let mut s = State::new();
    s.set_r(1, 0x8000_0001);
    // LSL r0, r1, #2
    ThumbInstruction::MoveShiftedRegister.execute(&mut s, 0x0088);
    assert_eq!(s.r(0), 4);
    assert_eq!(s.cpsr, CPSR_C_FLAG);
}

#[test]
fn thumb_shift_right_sets_zero() {
    let mut s = State::new();
    s.set_r(1, 1);
    // LSR r2, r1, #1
    ThumbInstruction::MoveShiftedRegister.execute(&mut s, 0x084A);
    assert_eq!(s.r(2), 0);
    assert_eq!(s.cpsr, 0x4000_0000 | CPSR_C_FLAG);
}
