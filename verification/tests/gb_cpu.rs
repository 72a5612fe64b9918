use wadatsumi::gb::cpu::disassembler::{AddressData, Disassembler, IntoCondition, IntoOperand8, OperandData};
use wadatsumi::gb::cpu::executor::Executor;
use wadatsumi::gb::cpu::operands::{Address, Condition, Immediate8, Operand8, Register16, Register8};
use wadatsumi::gb::cpu::operations::{visit, visit_cb, Operation};
use wadatsumi::gb::cpu::state::{Bus, Flags, Ram, State};

const Z: u8 = Flags::ZERO;
const N: u8 = Flags::ADD_SUBTRACT;
const H: u8 = Flags::HALF_CARRY;
const C: u8 = Flags::CARRY;

/// A CPU at 0x100 with `program` loaded there and SP at 0xFFFE.
fn cpu(program: &[u8]) -> Executor<Ram> {
    let mut ram = Ram::new();
    for (i, &b) in program.iter().enumerate() {
        ram.write8(0x100 + i as u16, b);
    }
    let mut cpu = Executor::new(ram);
    cpu.reset();
    cpu.state.sp = 0xFFFE;
    cpu
}

fn reg(r: Register8) -> Operand8 {
    Operand8::Register(r)
}

#[test]
fn base_opcodes_follow_the_table() {
    for op in 0..=255u8 {
        assert_eq!(visit(op), base_table(op), "opcode {:02x}", op);
    }
}

#[test]
fn cb_opcodes_follow_the_table() {
    for op in 0..=255u8 {
        assert_eq!(visit_cb(op), cb_table(op), "opcode cb {:02x}", op);
    }
}

#[test]
fn state_registers() {
    let mut s = State::new();
    s.write16(Register16::BC, 0x1234);
    assert_eq!((s.b, s.c), (0x12, 0x34));
    assert_eq!(s.read16(Register16::BC), 0x1234);
    s.write16(Register16::AF, 0xABCD);
    assert_eq!((s.a, s.f), (0xAB, 0xC0));
    s.write8(Register8::L, 7);
    assert_eq!(s.read8(Register8::L), 7);
    assert!(s.check(Condition::Zero));
    assert!(!s.check(Condition::Carry));
    assert!(s.check(Condition::Always));
}

#[test]
fn load_immediate_and_registers() {
    // LD A, 0x42 ; LD B, A ; LD HL, 0xC000 ; LD (HL), B
    let mut c = cpu(&[0x3E, 0x42, 0x47, 0x21, 0x00, 0xC0, 0x70]);
    for _ in 0..4 {
        c.run_next();
    }
    assert_eq!(c.state.a, 0x42);
    assert_eq!(c.state.b, 0x42);
    assert_eq!(c.state.read16(Register16::HL), 0xC000);
    assert_eq!(c.bus.read8(0xC000), 0x42);
    assert_eq!(c.state.pc, 0x107);
}

#[test]
fn load_with_hl_increment_and_decrement() {
    let mut c = cpu(&[0x22, 0x3A]);
    c.state.write16(Register16::HL, 0xC010);
    c.state.a = 0x99;
    c.run_next();
    assert_eq!(c.bus.read8(0xC010), 0x99);
    assert_eq!(c.state.read16(Register16::HL), 0xC011);
    c.bus.write8(0xC011, 0x55);
    c.run_next();
    assert_eq!(c.state.a, 0x55);
    assert_eq!(c.state.read16(Register16::HL), 0xC010);
}

#[test]
fn high_page_loads() {
    // LDH (0x80), A ; LD C, 0x81 ; LD (C), A ; LD A, (0xC123)
    let mut c = cpu(&[0xE0, 0x80, 0x0E, 0x81, 0xE2, 0xFA, 0x23, 0xC1]);
    c.state.a = 0x7E;
    c.bus.write8(0xC123, 0x11);
    for _ in 0..4 {
        c.run_next();
    }
    assert_eq!(c.bus.read8(0xFF80), 0x7E);
    assert_eq!(c.bus.read8(0xFF81), 0x7E);
    assert_eq!(c.state.a, 0x11);
}

#[test]
fn add_sets_zero_half_and_carry() {
    let mut c = cpu(&[0x80]);
    c.state.a = 0x3A;
    c.state.b = 0xC6;
    c.run_next();
    assert_eq!(c.state.a, 0);
    assert_eq!(c.state.f, Z | H | C);
}

#[test]
fn adc_adds_carry() {
    let mut c = cpu(&[0xCE, 0x0F]);
    c.state.a = 0xE1;
    c.state.f = C;
    c.run_next();
    assert_eq!(c.state.a, 0xF1);
    assert_eq!(c.state.f, H);
}

#[test]
fn sub_and_compare() {
    let mut c = cpu(&[0x93, 0xD6, 0x40, 0xFE, 0x2F]);
    c.state.a = 0x3E;
    c.state.e = 0x3E;
    c.run_next();
    assert_eq!(c.state.a, 0);
    assert_eq!(c.state.f, Z | N);
    c.state.a = 0x3E;
    c.run_next();
    assert_eq!(c.state.a, 0xFE);
    assert_eq!(c.state.f, N | C);
    c.state.a = 0x3C;
    c.run_next();
    assert_eq!(c.state.a, 0x3C);
    assert_eq!(c.state.f, N | H);
}

#[test]
fn sbc_subtracts_carry() {
    let mut c = cpu(&[]);
    c.state.a = 0x3B;
    c.state.h = 0x2A;
    c.state.f = C;
    c.execute(Operation::SubWithCarry(reg(Register8::H)));
    assert_eq!(c.state.a, 0x10);
    assert_eq!(c.state.f, N);
}

#[test]
fn bitwise_operations() {
    let mut c = cpu(&[0xE6, 0x3F, 0xF6, 0x80, 0xAF]);
    c.state.a = 0x5A;
    c.run_next();
    assert_eq!(c.state.a, 0x1A);
    assert_eq!(c.state.f, H);
    c.run_next();
    assert_eq!(c.state.a, 0x9A);
    assert_eq!(c.state.f, 0);
    c.run_next();
    assert_eq!(c.state.a, 0);
    assert_eq!(c.state.f, Z);
}

#[test]
fn increment_and_decrement() {
    let mut c = cpu(&[0x3C, 0x05, 0x34, 0x03, 0x0B]);
    c.state.a = 0xFF;
    c.state.f = C;
    c.run_next();
    assert_eq!(c.state.a, 0);
    assert_eq!(c.state.f, Z | H | C);
    c.state.b = 1;
    c.run_next();
    assert_eq!(c.state.b, 0);
    assert_eq!(c.state.f, Z | N | C);
    c.state.write16(Register16::HL, 0xC000);
    c.bus.write8(0xC000, 0x0F);
    c.run_next();
    assert_eq!(c.bus.read8(0xC000), 0x10);
    assert_eq!(c.state.f, H | C);
    c.state.write16(Register16::BC, 0xFFFF);
    c.run_next();
    assert_eq!(c.state.read16(Register16::BC), 0);
    c.run_next();
    assert_eq!(c.state.read16(Register16::BC), 0xFFFF);
}

#[test]
fn push_and_pop() {
    // PUSH BC ; POP DE ; PUSH BC ; POP AF
    let mut c = cpu(&[0xC5, 0xD1, 0xC5, 0xF1]);
    c.state.write16(Register16::BC, 0x12FF);
    c.run_next();
    assert_eq!(c.state.sp, 0xFFFC);
    assert_eq!(c.bus.read8(0xFFFD), 0x12);
    assert_eq!(c.bus.read8(0xFFFC), 0xFF);
    c.run_next();
    assert_eq!(c.state.read16(Register16::DE), 0x12FF);
    assert_eq!(c.state.sp, 0xFFFE);
    c.run_next();
    c.run_next();
    // only the flag bits of F are kept
    assert_eq!(c.state.a, 0x12);
    assert_eq!(c.state.f, 0xF0);
}

#[test]
fn call_and_return() {
    let mut c = cpu(&[0xCD, 0x00, 0x02]);
    c.bus.write8(0x200, 0xC9);
    c.run_next();
    assert_eq!(c.state.pc, 0x200);
    assert_eq!(c.state.sp, 0xFFFC);
    c.run_next();
    assert_eq!(c.state.pc, 0x103);
    assert_eq!(c.state.sp, 0xFFFE);
}

#[test]
fn conditional_call_not_taken() {
    // CALL NZ with Z set skips the address
    let mut c = cpu(&[0xC4, 0x00, 0x02]);
    c.state.f = Z;
    c.run_next();
    assert_eq!(c.state.pc, 0x103);
    assert_eq!(c.state.sp, 0xFFFE);
}

#[test]
fn relative_jumps() {
    // JR -2 loops on itself
    let mut c = cpu(&[0x18, 0xFE]);
    c.run_next();
    assert_eq!(c.state.pc, 0x100);
    // JR Z, +5 not taken when Z clear
    let mut c = cpu(&[0x28, 0x05]);
    c.run_next();
    assert_eq!(c.state.pc, 0x102);
    c.state.pc = 0x100;
    c.state.f = Z;
    c.run_next();
    assert_eq!(c.state.pc, 0x107);
}

#[test]
fn absolute_jumps() {
    let mut c = cpu(&[0xC3, 0x34, 0x12]);
    c.run_next();
    assert_eq!(c.state.pc, 0x1234);
    let mut c = cpu(&[0xDA, 0x34, 0x12]);
    c.run_next();
    assert_eq!(c.state.pc, 0x103);
    let mut c = cpu(&[0xE9]);
    c.state.write16(Register16::HL, 0x4000);
    c.run_next();
    assert_eq!(c.state.pc, 0x4000);
}

#[test]
fn reset_instruction() {
    let mut c = cpu(&[0xFF]);
    c.run_next();
    assert_eq!(c.state.pc, 0x38);
    assert_eq!(c.bus.read8(0xFFFD), 0x01);
    assert_eq!(c.bus.read8(0xFFFC), 0x01);
}

#[test]
fn rotate_accumulator_clears_zero() {
    // RLA with A = 0x80, carry clear: A = 0, carry out, Z stays clear
    let mut c = cpu(&[0x17, 0x07]);
    c.state.a = 0x80;
    c.run_next();
    assert_eq!(c.state.a, 0);
    assert_eq!(c.state.f, C);
    c.state.a = 0x81;
    c.run_next();
    assert_eq!(c.state.a, 0x03);
    assert_eq!(c.state.f, C);
}

#[test]
fn cb_rotations_and_shifts() {
    let mut c = cpu(&[]);
    c.state.b = 0x85;
    c.execute(visit_cb(0x00));
    assert_eq!(c.state.b, 0x0B);
    assert_eq!(c.state.f, C);
    c.state.c = 0x01;
    c.state.f = 0;
    c.execute(visit_cb(0x19));
    assert_eq!(c.state.c, 0x00);
    assert_eq!(c.state.f, Z | C);
    c.state.d = 0x8A;
    c.execute(visit_cb(0x2A));
    assert_eq!(c.state.d, 0xC5);
    assert_eq!(c.state.f, 0);
    c.state.e = 0xF1;
    c.execute(visit_cb(0x33));
    assert_eq!(c.state.e, 0x1F);
    c.state.a = 0x81;
    c.execute(visit_cb(0x3F));
    assert_eq!(c.state.a, 0x40);
    assert_eq!(c.state.f, C);
    c.state.h = 0x80;
    c.execute(visit_cb(0x24));
    assert_eq!(c.state.h, 0x00);
    assert_eq!(c.state.f, Z | C);
}

#[test]
fn cb_bit_operations() {
    let mut c = cpu(&[]);
    c.state.h = 0x7F;
    c.state.f = 0;
    c.execute(visit_cb(0x7C));
    assert_eq!(c.state.f, Z | H);
    c.state.write16(Register16::HL, 0xC000);
    c.execute(visit_cb(0xFE));
    assert_eq!(c.bus.read8(0xC000), 0x80);
    c.execute(visit_cb(0x46));
    assert_eq!(c.state.f & Z, Z);
    c.execute(visit_cb(0xBE));
    assert_eq!(c.bus.read8(0xC000), 0x00);
}

#[test]
fn decimal_adjust_after_add_and_sub() {
    // 0x45 + 0x38 = 0x83 in BCD
    let mut c = cpu(&[0x80]);
    c.state.a = 0x45;
    c.state.b = 0x38;
    c.run_next();
    c.execute(Operation::DecimalAdjust);
    assert_eq!(c.state.a, 0x83);
    assert_eq!(c.state.f & (Z | C), 0);
    // 0x83 - 0x38 = 0x45 in BCD
    c.execute(Operation::Sub(reg(Register8::B)));
    c.execute(Operation::DecimalAdjust);
    assert_eq!(c.state.a, 0x45);
    // 0x99 + 0x01 = 0x00 carry 1 in BCD
    c.state.a = 0x99;
    c.state.b = 0x01;
    c.state.f = 0;
    c.execute(Operation::Add(reg(Register8::B)));
    c.execute(Operation::DecimalAdjust);
    assert_eq!(c.state.a, 0x00);
    assert_eq!(c.state.f, Z | C);
}

#[test]
fn complement_and_carry_flag() {
    let mut c = cpu(&[]);
    c.state.a = 0x35;
    c.execute(Operation::Complement);
    assert_eq!(c.state.a, 0xCA);
    assert_eq!(c.state.f, N | H);
    c.execute(Operation::SetCarry);
    assert_eq!(c.state.f, C);
    c.execute(Operation::ComplementCarry);
    assert_eq!(c.state.f, 0);
}

#[test]
fn sixteen_bit_additions() {
    let mut c = cpu(&[0xFE]);
    c.state.write16(Register16::HL, 0x8A23);
    c.state.write16(Register16::BC, 0x0605);
    c.execute(Operation::AddToHl(Register16::BC));
    assert_eq!(c.state.read16(Register16::HL), 0x9028);
    assert_eq!(c.state.f, H);
    c.execute(Operation::AddToHl(Register16::HL));
    assert_eq!(c.state.read16(Register16::HL), 0x2050);
    assert_eq!(c.state.f, C);
    c.state.sp = 0xFFF8;
    c.execute(Operation::LoadHlSpOffset);
    assert_eq!(c.state.read16(Register16::HL), 0xFFF6);
    assert_eq!(c.state.pc, 0x101);
    c.state.pc = 0x100;
    c.execute(Operation::AddToSp);
    assert_eq!(c.state.sp, 0xFFF6);
}

#[test]
fn undefined_opcodes() {
    for op in [0x08u8, 0x10, 0x27, 0x76, 0x98, 0x9F, 0xCB, 0xD3, 0xDE, 0xE8, 0xF8, 0xFD] {
        assert_eq!(visit(op), Operation::Undefined(op));
    }
    assert_eq!(visit(0x00), Operation::Nop);
    assert_eq!(visit(0xE9), Operation::Jump(Condition::Always, Address::HL));
}

fn base_table(op: u8) -> Operation {
    match op {
        0x00 => Operation::Nop,
        0x01 => Operation::Load16Immediate(Register16::BC),
        0x02 => Operation::Load8(Operand8::Memory(Address::BC), Operand8::Register(Register8::A)),
        0x03 => Operation::Increment16(Register16::BC),
        0x04 => Operation::Increment8(Operand8::Register(Register8::B)),
        0x05 => Operation::Decrement8(Operand8::Register(Register8::B)),
        0x06 => Operation::Load8(Operand8::Register(Register8::B), Operand8::Immediate(Immediate8)),
        0x07 => Operation::RotateLeftCircularAccumulator,
        0x0a => Operation::Load8(Operand8::Register(Register8::A), Operand8::Memory(Address::BC)),
        0x0b => Operation::Decrement16(Register16::BC),
        0x0c => Operation::Increment8(Operand8::Register(Register8::C)),
        0x0d => Operation::Decrement8(Operand8::Register(Register8::C)),
        0x0e => Operation::Load8(Operand8::Register(Register8::C), Operand8::Immediate(Immediate8)),
        0x0f => Operation::RotateRightCircularAccumulator,
        0x11 => Operation::Load16Immediate(Register16::DE),
        0x12 => Operation::Load8(Operand8::Memory(Address::DE), Operand8::Register(Register8::A)),
        0x13 => Operation::Increment16(Register16::DE),
        0x14 => Operation::Increment8(Operand8::Register(Register8::D)),
        0x15 => Operation::Decrement8(Operand8::Register(Register8::D)),
        0x16 => Operation::Load8(Operand8::Register(Register8::D), Operand8::Immediate(Immediate8)),
        0x17 => Operation::RotateLeftAccumulator,
        0x18 => Operation::JumpRelative(Condition::Always),
        0x1a => Operation::Load8(Operand8::Register(Register8::A), Operand8::Memory(Address::DE)),
        0x1b => Operation::Decrement16(Register16::DE),
        0x1c => Operation::Increment8(Operand8::Register(Register8::E)),
        0x1d => Operation::Decrement8(Operand8::Register(Register8::E)),
        0x1e => Operation::Load8(Operand8::Register(Register8::E), Operand8::Immediate(Immediate8)),
        0x1f => Operation::RotateRightAccumulator,
        0x20 => Operation::JumpRelative(Condition::NotZero),
        0x21 => Operation::Load16Immediate(Register16::HL),
        0x22 => Operation::Load8(Operand8::Memory(Address::HLI), Operand8::Register(Register8::A)),
        0x23 => Operation::Increment16(Register16::HL),
        0x24 => Operation::Increment8(Operand8::Register(Register8::H)),
        0x25 => Operation::Decrement8(Operand8::Register(Register8::H)),
        0x26 => Operation::Load8(Operand8::Register(Register8::H), Operand8::Immediate(Immediate8)),
        0x28 => Operation::JumpRelative(Condition::Zero),
        0x2a => Operation::Load8(Operand8::Register(Register8::A), Operand8::Memory(Address::HLI)),
        0x2b => Operation::Decrement16(Register16::HL),
        0x2c => Operation::Increment8(Operand8::Register(Register8::L)),
        0x2d => Operation::Decrement8(Operand8::Register(Register8::L)),
        0x2e => Operation::Load8(Operand8::Register(Register8::L), Operand8::Immediate(Immediate8)),
        0x30 => Operation::JumpRelative(Condition::NotCarry),
        0x31 => Operation::Load16Immediate(Register16::SP),
        0x32 => Operation::Load8(Operand8::Memory(Address::HLD), Operand8::Register(Register8::A)),
        0x33 => Operation::Increment16(Register16::SP),
        0x34 => Operation::Increment8(Operand8::Memory(Address::HL)),
        0x35 => Operation::Decrement8(Operand8::Memory(Address::HL)),
        0x36 => Operation::Load8(Operand8::Memory(Address::HL), Operand8::Immediate(Immediate8)),
        0x38 => Operation::JumpRelative(Condition::Carry),
        0x3a => Operation::Load8(Operand8::Register(Register8::A), Operand8::Memory(Address::HLD)),
        0x3b => Operation::Decrement16(Register16::SP),
        0x3c => Operation::Increment8(Operand8::Register(Register8::A)),
        0x3d => Operation::Decrement8(Operand8::Register(Register8::A)),
        0x3e => Operation::Load8(Operand8::Register(Register8::A), Operand8::Immediate(Immediate8)),
        0x40 => Operation::Load8(Operand8::Register(Register8::B), Operand8::Register(Register8::B)),
        0x41 => Operation::Load8(Operand8::Register(Register8::B), Operand8::Register(Register8::C)),
        0x42 => Operation::Load8(Operand8::Register(Register8::B), Operand8::Register(Register8::D)),
        0x43 => Operation::Load8(Operand8::Register(Register8::B), Operand8::Register(Register8::E)),
        0x44 => Operation::Load8(Operand8::Register(Register8::B), Operand8::Register(Register8::H)),
        0x45 => Operation::Load8(Operand8::Register(Register8::B), Operand8::Register(Register8::L)),
        0x46 => Operation::Load8(Operand8::Register(Register8::B), Operand8::Memory(Address::HL)),
        0x47 => Operation::Load8(Operand8::Register(Register8::B), Operand8::Register(Register8::A)),
        0x48 => Operation::Load8(Operand8::Register(Register8::C), Operand8::Register(Register8::B)),
        0x49 => Operation::Load8(Operand8::Register(Register8::C), Operand8::Register(Register8::C)),
        0x4a => Operation::Load8(Operand8::Register(Register8::C), Operand8::Register(Register8::D)),
        0x4b => Operation::Load8(Operand8::Register(Register8::C), Operand8::Register(Register8::E)),
        0x4c => Operation::Load8(Operand8::Register(Register8::C), Operand8::Register(Register8::H)),
        0x4d => Operation::Load8(Operand8::Register(Register8::C), Operand8::Register(Register8::L)),
        0x4e => Operation::Load8(Operand8::Register(Register8::C), Operand8::Memory(Address::HL)),
        0x4f => Operation::Load8(Operand8::Register(Register8::C), Operand8::Register(Register8::A)),
        0x50 => Operation::Load8(Operand8::Register(Register8::D), Operand8::Register(Register8::B)),
        0x51 => Operation::Load8(Operand8::Register(Register8::D), Operand8::Register(Register8::C)),
        0x52 => Operation::Load8(Operand8::Register(Register8::D), Operand8::Register(Register8::D)),
        0x53 => Operation::Load8(Operand8::Register(Register8::D), Operand8::Register(Register8::E)),
        0x54 => Operation::Load8(Operand8::Register(Register8::D), Operand8::Register(Register8::H)),
        0x55 => Operation::Load8(Operand8::Register(Register8::D), Operand8::Register(Register8::L)),
        0x56 => Operation::Load8(Operand8::Register(Register8::D), Operand8::Memory(Address::HL)),
        0x57 => Operation::Load8(Operand8::Register(Register8::D), Operand8::Register(Register8::A)),
        0x58 => Operation::Load8(Operand8::Register(Register8::E), Operand8::Register(Register8::B)),
        0x59 => Operation::Load8(Operand8::Register(Register8::E), Operand8::Register(Register8::C)),
        0x5a => Operation::Load8(Operand8::Register(Register8::E), Operand8::Register(Register8::D)),
        0x5b => Operation::Load8(Operand8::Register(Register8::E), Operand8::Register(Register8::E)),
        0x5c => Operation::Load8(Operand8::Register(Register8::E), Operand8::Register(Register8::H)),
        0x5d => Operation::Load8(Operand8::Register(Register8::E), Operand8::Register(Register8::L)),
        0x5e => Operation::Load8(Operand8::Register(Register8::E), Operand8::Memory(Address::HL)),
        0x5f => Operation::Load8(Operand8::Register(Register8::E), Operand8::Register(Register8::A)),
        0x60 => Operation::Load8(Operand8::Register(Register8::H), Operand8::Register(Register8::B)),
        0x61 => Operation::Load8(Operand8::Register(Register8::H), Operand8::Register(Register8::C)),
        0x62 => Operation::Load8(Operand8::Register(Register8::H), Operand8::Register(Register8::D)),
        0x63 => Operation::Load8(Operand8::Register(Register8::H), Operand8::Register(Register8::E)),
        0x64 => Operation::Load8(Operand8::Register(Register8::H), Operand8::Register(Register8::H)),
        0x65 => Operation::Load8(Operand8::Register(Register8::H), Operand8::Register(Register8::L)),
        0x66 => Operation::Load8(Operand8::Register(Register8::H), Operand8::Memory(Address::HL)),
        0x67 => Operation::Load8(Operand8::Register(Register8::H), Operand8::Register(Register8::A)),
        0x68 => Operation::Load8(Operand8::Register(Register8::L), Operand8::Register(Register8::B)),
        0x69 => Operation::Load8(Operand8::Register(Register8::L), Operand8::Register(Register8::C)),
        0x6a => Operation::Load8(Operand8::Register(Register8::L), Operand8::Register(Register8::D)),
        0x6b => Operation::Load8(Operand8::Register(Register8::L), Operand8::Register(Register8::E)),
        0x6c => Operation::Load8(Operand8::Register(Register8::L), Operand8::Register(Register8::H)),
        0x6d => Operation::Load8(Operand8::Register(Register8::L), Operand8::Register(Register8::L)),
        0x6e => Operation::Load8(Operand8::Register(Register8::L), Operand8::Memory(Address::HL)),
        0x6f => Operation::Load8(Operand8::Register(Register8::L), Operand8::Register(Register8::A)),
        0x70 => Operation::Load8(Operand8::Memory(Address::HL), Operand8::Register(Register8::B)),
        0x71 => Operation::Load8(Operand8::Memory(Address::HL), Operand8::Register(Register8::C)),
        0x72 => Operation::Load8(Operand8::Memory(Address::HL), Operand8::Register(Register8::D)),
        0x73 => Operation::Load8(Operand8::Memory(Address::HL), Operand8::Register(Register8::E)),
        0x74 => Operation::Load8(Operand8::Memory(Address::HL), Operand8::Register(Register8::H)),
        0x75 => Operation::Load8(Operand8::Memory(Address::HL), Operand8::Register(Register8::L)),
        0x77 => Operation::Load8(Operand8::Memory(Address::HL), Operand8::Register(Register8::A)),
        0x78 => Operation::Load8(Operand8::Register(Register8::A), Operand8::Register(Register8::B)),
        0x79 => Operation::Load8(Operand8::Register(Register8::A), Operand8::Register(Register8::C)),
        0x7a => Operation::Load8(Operand8::Register(Register8::A), Operand8::Register(Register8::D)),
        0x7b => Operation::Load8(Operand8::Register(Register8::A), Operand8::Register(Register8::E)),
        0x7c => Operation::Load8(Operand8::Register(Register8::A), Operand8::Register(Register8::H)),
        0x7d => Operation::Load8(Operand8::Register(Register8::A), Operand8::Register(Register8::L)),
        0x7e => Operation::Load8(Operand8::Register(Register8::A), Operand8::Memory(Address::HL)),
        0x7f => Operation::Load8(Operand8::Register(Register8::A), Operand8::Register(Register8::A)),
        0x80 => Operation::Add(Operand8::Register(Register8::B)),
        0x81 => Operation::Add(Operand8::Register(Register8::C)),
        0x82 => Operation::Add(Operand8::Register(Register8::D)),
        0x83 => Operation::Add(Operand8::Register(Register8::E)),
        0x84 => Operation::Add(Operand8::Register(Register8::H)),
        0x85 => Operation::Add(Operand8::Register(Register8::L)),
        0x86 => Operation::Add(Operand8::Memory(Address::HL)),
        0x87 => Operation::Add(Operand8::Register(Register8::A)),
        0x88 => Operation::AddWithCarry(Operand8::Register(Register8::B)),
        0x89 => Operation::AddWithCarry(Operand8::Register(Register8::C)),
        0x8a => Operation::AddWithCarry(Operand8::Register(Register8::D)),
        0x8b => Operation::AddWithCarry(Operand8::Register(Register8::E)),
        0x8c => Operation::AddWithCarry(Operand8::Register(Register8::H)),
        0x8d => Operation::AddWithCarry(Operand8::Register(Register8::L)),
        0x8e => Operation::AddWithCarry(Operand8::Memory(Address::HL)),
        0x8f => Operation::AddWithCarry(Operand8::Register(Register8::A)),
        0x90 => Operation::Sub(Operand8::Register(Register8::B)),
        0x91 => Operation::Sub(Operand8::Register(Register8::C)),
        0x92 => Operation::Sub(Operand8::Register(Register8::D)),
        0x93 => Operation::Sub(Operand8::Register(Register8::E)),
        0x94 => Operation::Sub(Operand8::Register(Register8::H)),
        0x95 => Operation::Sub(Operand8::Register(Register8::L)),
        0x96 => Operation::Sub(Operand8::Memory(Address::HL)),
        0x97 => Operation::Sub(Operand8::Register(Register8::A)),
        0xa0 => Operation::And(Operand8::Register(Register8::B)),
        0xa1 => Operation::And(Operand8::Register(Register8::C)),
        0xa2 => Operation::And(Operand8::Register(Register8::D)),
        0xa3 => Operation::And(Operand8::Register(Register8::E)),
        0xa4 => Operation::And(Operand8::Register(Register8::H)),
        0xa5 => Operation::And(Operand8::Register(Register8::L)),
        0xa6 => Operation::And(Operand8::Memory(Address::HL)),
        0xa7 => Operation::And(Operand8::Register(Register8::A)),
        0xa8 => Operation::Xor(Operand8::Register(Register8::B)),
        0xa9 => Operation::Xor(Operand8::Register(Register8::C)),
        0xaa => Operation::Xor(Operand8::Register(Register8::D)),
        0xab => Operation::Xor(Operand8::Register(Register8::E)),
        0xac => Operation::Xor(Operand8::Register(Register8::H)),
        0xad => Operation::Xor(Operand8::Register(Register8::L)),
        0xae => Operation::Xor(Operand8::Memory(Address::HL)),
        0xaf => Operation::Xor(Operand8::Register(Register8::A)),
        0xb0 => Operation::Or(Operand8::Register(Register8::B)),
        0xb1 => Operation::Or(Operand8::Register(Register8::C)),
        0xb2 => Operation::Or(Operand8::Register(Register8::D)),
        0xb3 => Operation::Or(Operand8::Register(Register8::E)),
        0xb4 => Operation::Or(Operand8::Register(Register8::H)),
        0xb5 => Operation::Or(Operand8::Register(Register8::L)),
        0xb6 => Operation::Or(Operand8::Memory(Address::HL)),
        0xb7 => Operation::Or(Operand8::Register(Register8::A)),
        0xb8 => Operation::Compare(Operand8::Register(Register8::B)),
        0xb9 => Operation::Compare(Operand8::Register(Register8::C)),
        0xba => Operation::Compare(Operand8::Register(Register8::D)),
        0xbb => Operation::Compare(Operand8::Register(Register8::E)),
        0xbc => Operation::Compare(Operand8::Register(Register8::H)),
        0xbd => Operation::Compare(Operand8::Register(Register8::L)),
        0xbe => Operation::Compare(Operand8::Memory(Address::HL)),
        0xbf => Operation::Compare(Operand8::Register(Register8::A)),
        0xc0 => Operation::Return(Condition::NotZero),
        0xc1 => Operation::Pop16(Register16::BC),
        0xc2 => Operation::Jump(Condition::NotZero, Address::Direct),
        0xc3 => Operation::Jump(Condition::Always, Address::Direct),
        0xc4 => Operation::Call(Condition::NotZero),
        0xc5 => Operation::Push16(Register16::BC),
        0xc6 => Operation::Add(Operand8::Immediate(Immediate8)),
        0xc7 => Operation::Reset(0x00),
        0xc8 => Operation::Return(Condition::Zero),
        0xc9 => Operation::Return(Condition::Always),
        0xca => Operation::Jump(Condition::Zero, Address::Direct),
        0xcc => Operation::Call(Condition::Zero),
        0xcd => Operation::Call(Condition::Always),
        0xce => Operation::AddWithCarry(Operand8::Immediate(Immediate8)),
        0xcf => Operation::Reset(0x08),
        0xd0 => Operation::Return(Condition::NotCarry),
        0xd1 => Operation::Pop16(Register16::DE),
        0xd2 => Operation::Jump(Condition::NotCarry, Address::Direct),
        0xd4 => Operation::Call(Condition::NotCarry),
        0xd5 => Operation::Push16(Register16::DE),
        0xd6 => Operation::Sub(Operand8::Immediate(Immediate8)),
        0xd7 => Operation::Reset(0x10),
        0xd8 => Operation::Return(Condition::Carry),
        0xd9 => Operation::ReturnAndEnableInterrupts,
        0xda => Operation::Jump(Condition::Carry, Address::Direct),
        0xdc => Operation::Call(Condition::Carry),
        0xdf => Operation::Reset(0x18),
        0xe0 => Operation::Load8(Operand8::Memory(Address::ZeroPage), Operand8::Register(Register8::A)),
        0xe1 => Operation::Pop16(Register16::HL),
        0xe2 => Operation::Load8(Operand8::Memory(Address::ZeroPageC), Operand8::Register(Register8::A)),
        0xe5 => Operation::Push16(Register16::HL),
        0xe6 => Operation::And(Operand8::Immediate(Immediate8)),
        0xe7 => Operation::Reset(0x20),
        0xe9 => Operation::Jump(Condition::Always, Address::HL),
        0xea => Operation::Load8(Operand8::Memory(Address::Direct), Operand8::Register(Register8::A)),
        0xee => Operation::Xor(Operand8::Immediate(Immediate8)),
        0xef => Operation::Reset(0x28),
        0xf0 => Operation::Load8(Operand8::Register(Register8::A), Operand8::Memory(Address::ZeroPage)),
        0xf1 => Operation::Pop16(Register16::AF),
        0xf2 => Operation::Load8(Operand8::Register(Register8::A), Operand8::Memory(Address::ZeroPageC)),
        0xf3 => Operation::DisableInterrupts,
        0xf5 => Operation::Push16(Register16::AF),
        0xf6 => Operation::Or(Operand8::Immediate(Immediate8)),
        0xf7 => Operation::Reset(0x30),
        0xfa => Operation::Load8(Operand8::Register(Register8::A), Operand8::Memory(Address::Direct)),
        0xfb => Operation::EnableInterrupts,
        0xfe => Operation::Compare(Operand8::Immediate(Immediate8)),
        0xff => Operation::Reset(0x38),
        _ => Operation::Undefined(op),
    }
}

fn cb_table(op: u8) -> Operation {
    match op {
        0x00 => Operation::RotateLeftCircular(Operand8::Register(Register8::B)),
        0x01 => Operation::RotateLeftCircular(Operand8::Register(Register8::C)),
        0x02 => Operation::RotateLeftCircular(Operand8::Register(Register8::D)),
        0x03 => Operation::RotateLeftCircular(Operand8::Register(Register8::E)),
        0x04 => Operation::RotateLeftCircular(Operand8::Register(Register8::H)),
        0x05 => Operation::RotateLeftCircular(Operand8::Register(Register8::L)),
        0x06 => Operation::RotateLeftCircular(Operand8::Memory(Address::HL)),
        0x07 => Operation::RotateLeftCircular(Operand8::Register(Register8::A)),
        0x08 => Operation::RotateRightCircular(Operand8::Register(Register8::B)),
        0x09 => Operation::RotateRightCircular(Operand8::Register(Register8::C)),
        0x0a => Operation::RotateRightCircular(Operand8::Register(Register8::D)),
        0x0b => Operation::RotateRightCircular(Operand8::Register(Register8::E)),
        0x0c => Operation::RotateRightCircular(Operand8::Register(Register8::H)),
        0x0d => Operation::RotateRightCircular(Operand8::Register(Register8::L)),
        0x0e => Operation::RotateRightCircular(Operand8::Memory(Address::HL)),
        0x0f => Operation::RotateRightCircular(Operand8::Register(Register8::A)),
        0x10 => Operation::RotateLeft(Operand8::Register(Register8::B)),
        0x11 => Operation::RotateLeft(Operand8::Register(Register8::C)),
        0x12 => Operation::RotateLeft(Operand8::Register(Register8::D)),
        0x13 => Operation::RotateLeft(Operand8::Register(Register8::E)),
        0x14 => Operation::RotateLeft(Operand8::Register(Register8::H)),
        0x15 => Operation::RotateLeft(Operand8::Register(Register8::L)),
        0x16 => Operation::RotateLeft(Operand8::Memory(Address::HL)),
        0x17 => Operation::RotateLeft(Operand8::Register(Register8::A)),
        0x18 => Operation::RotateRight(Operand8::Register(Register8::B)),
        0x19 => Operation::RotateRight(Operand8::Register(Register8::C)),
        0x1a => Operation::RotateRight(Operand8::Register(Register8::D)),
        0x1b => Operation::RotateRight(Operand8::Register(Register8::E)),
        0x1c => Operation::RotateRight(Operand8::Register(Register8::H)),
        0x1d => Operation::RotateRight(Operand8::Register(Register8::L)),
        0x1e => Operation::RotateRight(Operand8::Memory(Address::HL)),
        0x1f => Operation::RotateRight(Operand8::Register(Register8::A)),
        0x20 => Operation::ShiftLeftA(Operand8::Register(Register8::B)),
        0x21 => Operation::ShiftLeftA(Operand8::Register(Register8::C)),
        0x22 => Operation::ShiftLeftA(Operand8::Register(Register8::D)),
        0x23 => Operation::ShiftLeftA(Operand8::Register(Register8::E)),
        0x24 => Operation::ShiftLeftA(Operand8::Register(Register8::H)),
        0x25 => Operation::ShiftLeftA(Operand8::Register(Register8::L)),
        0x26 => Operation::ShiftLeftA(Operand8::Memory(Address::HL)),
        0x27 => Operation::ShiftLeftA(Operand8::Register(Register8::A)),
        0x28 => Operation::ShiftRightA(Operand8::Register(Register8::B)),
        0x29 => Operation::ShiftRightA(Operand8::Register(Register8::C)),
        0x2a => Operation::ShiftRightA(Operand8::Register(Register8::D)),
        0x2b => Operation::ShiftRightA(Operand8::Register(Register8::E)),
        0x2c => Operation::ShiftRightA(Operand8::Register(Register8::H)),
        0x2d => Operation::ShiftRightA(Operand8::Register(Register8::L)),
        0x2e => Operation::ShiftRightA(Operand8::Memory(Address::HL)),
        0x2f => Operation::ShiftRightA(Operand8::Register(Register8::A)),
        0x30 => Operation::ByteSwap(Operand8::Register(Register8::B)),
        0x31 => Operation::ByteSwap(Operand8::Register(Register8::C)),
        0x32 => Operation::ByteSwap(Operand8::Register(Register8::D)),
        0x33 => Operation::ByteSwap(Operand8::Register(Register8::E)),
        0x34 => Operation::ByteSwap(Operand8::Register(Register8::H)),
        0x35 => Operation::ByteSwap(Operand8::Register(Register8::L)),
        0x36 => Operation::ByteSwap(Operand8::Memory(Address::HL)),
        0x37 => Operation::ByteSwap(Operand8::Register(Register8::A)),
        0x38 => Operation::ShiftRightL(Operand8::Register(Register8::B)),
        0x39 => Operation::ShiftRightL(Operand8::Register(Register8::C)),
        0x3a => Operation::ShiftRightL(Operand8::Register(Register8::D)),
        0x3b => Operation::ShiftRightL(Operand8::Register(Register8::E)),
        0x3c => Operation::ShiftRightL(Operand8::Register(Register8::H)),
        0x3d => Operation::ShiftRightL(Operand8::Register(Register8::L)),
        0x3e => Operation::ShiftRightL(Operand8::Memory(Address::HL)),
        0x3f => Operation::ShiftRightL(Operand8::Register(Register8::A)),
        0x40 => Operation::BitTest(0, Operand8::Register(Register8::B)),
        0x41 => Operation::BitTest(0, Operand8::Register(Register8::C)),
        0x42 => Operation::BitTest(0, Operand8::Register(Register8::D)),
        0x43 => Operation::BitTest(0, Operand8::Register(Register8::E)),
        0x44 => Operation::BitTest(0, Operand8::Register(Register8::H)),
        0x45 => Operation::BitTest(0, Operand8::Register(Register8::L)),
        0x46 => Operation::BitTest(0, Operand8::Memory(Address::HL)),
        0x47 => Operation::BitTest(0, Operand8::Register(Register8::A)),
        0x48 => Operation::BitTest(1, Operand8::Register(Register8::B)),
        0x49 => Operation::BitTest(1, Operand8::Register(Register8::C)),
        0x4a => Operation::BitTest(1, Operand8::Register(Register8::D)),
        0x4b => Operation::BitTest(1, Operand8::Register(Register8::E)),
        0x4c => Operation::BitTest(1, Operand8::Register(Register8::H)),
        0x4d => Operation::BitTest(1, Operand8::Register(Register8::L)),
        0x4e => Operation::BitTest(1, Operand8::Memory(Address::HL)),
        0x4f => Operation::BitTest(1, Operand8::Register(Register8::A)),
        0x50 => Operation::BitTest(2, Operand8::Register(Register8::B)),
        0x51 => Operation::BitTest(2, Operand8::Register(Register8::C)),
        0x52 => Operation::BitTest(2, Operand8::Register(Register8::D)),
        0x53 => Operation::BitTest(2, Operand8::Register(Register8::E)),
        0x54 => Operation::BitTest(2, Operand8::Register(Register8::H)),
        0x55 => Operation::BitTest(2, Operand8::Register(Register8::L)),
        0x56 => Operation::BitTest(2, Operand8::Memory(Address::HL)),
        0x57 => Operation::BitTest(2, Operand8::Register(Register8::A)),
        0x58 => Operation::BitTest(3, Operand8::Register(Register8::B)),
        0x59 => Operation::BitTest(3, Operand8::Register(Register8::C)),
        0x5a => Operation::BitTest(3, Operand8::Register(Register8::D)),
        0x5b => Operation::BitTest(3, Operand8::Register(Register8::E)),
        0x5c => Operation::BitTest(3, Operand8::Register(Register8::H)),
        0x5d => Operation::BitTest(3, Operand8::Register(Register8::L)),
        0x5e => Operation::BitTest(3, Operand8::Memory(Address::HL)),
        0x5f => Operation::BitTest(3, Operand8::Register(Register8::A)),
        0x60 => Operation::BitTest(4, Operand8::Register(Register8::B)),
        0x61 => Operation::BitTest(4, Operand8::Register(Register8::C)),
        0x62 => Operation::BitTest(4, Operand8::Register(Register8::D)),
        0x63 => Operation::BitTest(4, Operand8::Register(Register8::E)),
        0x64 => Operation::BitTest(4, Operand8::Register(Register8::H)),
        0x65 => Operation::BitTest(4, Operand8::Register(Register8::L)),
        0x66 => Operation::BitTest(4, Operand8::Memory(Address::HL)),
        0x67 => Operation::BitTest(4, Operand8::Register(Register8::A)),
        0x68 => Operation::BitTest(5, Operand8::Register(Register8::B)),
        0x69 => Operation::BitTest(5, Operand8::Register(Register8::C)),
        0x6a => Operation::BitTest(5, Operand8::Register(Register8::D)),
        0x6b => Operation::BitTest(5, Operand8::Register(Register8::E)),
        0x6c => Operation::BitTest(5, Operand8::Register(Register8::H)),
        0x6d => Operation::BitTest(5, Operand8::Register(Register8::L)),
        0x6e => Operation::BitTest(5, Operand8::Memory(Address::HL)),
        0x6f => Operation::BitTest(5, Operand8::Register(Register8::A)),
        0x70 => Operation::BitTest(6, Operand8::Register(Register8::B)),
        0x71 => Operation::BitTest(6, Operand8::Register(Register8::C)),
        0x72 => Operation::BitTest(6, Operand8::Register(Register8::D)),
        0x73 => Operation::BitTest(6, Operand8::Register(Register8::E)),
        0x74 => Operation::BitTest(6, Operand8::Register(Register8::H)),
        0x75 => Operation::BitTest(6, Operand8::Register(Register8::L)),
        0x76 => Operation::BitTest(6, Operand8::Memory(Address::HL)),
        0x77 => Operation::BitTest(6, Operand8::Register(Register8::A)),
        0x78 => Operation::BitTest(7, Operand8::Register(Register8::B)),
        0x79 => Operation::BitTest(7, Operand8::Register(Register8::C)),
        0x7a => Operation::BitTest(7, Operand8::Register(Register8::D)),
        0x7b => Operation::BitTest(7, Operand8::Register(Register8::E)),
        0x7c => Operation::BitTest(7, Operand8::Register(Register8::H)),
        0x7d => Operation::BitTest(7, Operand8::Register(Register8::L)),
        0x7e => Operation::BitTest(7, Operand8::Memory(Address::HL)),
        0x7f => Operation::BitTest(7, Operand8::Register(Register8::A)),
        0x80 => Operation::BitReset(0, Operand8::Register(Register8::B)),
        0x81 => Operation::BitReset(0, Operand8::Register(Register8::C)),
        0x82 => Operation::BitReset(0, Operand8::Register(Register8::D)),
        0x83 => Operation::BitReset(0, Operand8::Register(Register8::E)),
        0x84 => Operation::BitReset(0, Operand8::Register(Register8::H)),
        0x85 => Operation::BitReset(0, Operand8::Register(Register8::L)),
        0x86 => Operation::BitReset(0, Operand8::Memory(Address::HL)),
        0x87 => Operation::BitReset(0, Operand8::Register(Register8::A)),
        0x88 => Operation::BitReset(1, Operand8::Register(Register8::B)),
        0x89 => Operation::BitReset(1, Operand8::Register(Register8::C)),
        0x8a => Operation::BitReset(1, Operand8::Register(Register8::D)),
        0x8b => Operation::BitReset(1, Operand8::Register(Register8::E)),
        0x8c => Operation::BitReset(1, Operand8::Register(Register8::H)),
        0x8d => Operation::BitReset(1, Operand8::Register(Register8::L)),
        0x8e => Operation::BitReset(1, Operand8::Memory(Address::HL)),
        0x8f => Operation::BitReset(1, Operand8::Register(Register8::A)),
        0x90 => Operation::BitReset(2, Operand8::Register(Register8::B)),
        0x91 => Operation::BitReset(2, Operand8::Register(Register8::C)),
        0x92 => Operation::BitReset(2, Operand8::Register(Register8::D)),
        0x93 => Operation::BitReset(2, Operand8::Register(Register8::E)),
        0x94 => Operation::BitReset(2, Operand8::Register(Register8::H)),
        0x95 => Operation::BitReset(2, Operand8::Register(Register8::L)),
        0x96 => Operation::BitReset(2, Operand8::Memory(Address::HL)),
        0x97 => Operation::BitReset(2, Operand8::Register(Register8::A)),
        0x98 => Operation::BitReset(3, Operand8::Register(Register8::B)),
        0x99 => Operation::BitReset(3, Operand8::Register(Register8::C)),
        0x9a => Operation::BitReset(3, Operand8::Register(Register8::D)),
        0x9b => Operation::BitReset(3, Operand8::Register(Register8::E)),
        0x9c => Operation::BitReset(3, Operand8::Register(Register8::H)),
        0x9d => Operation::BitReset(3, Operand8::Register(Register8::L)),
        0x9e => Operation::BitReset(3, Operand8::Memory(Address::HL)),
        0x9f => Operation::BitReset(3, Operand8::Register(Register8::A)),
        0xa0 => Operation::BitReset(4, Operand8::Register(Register8::B)),
        0xa1 => Operation::BitReset(4, Operand8::Register(Register8::C)),
        0xa2 => Operation::BitReset(4, Operand8::Register(Register8::D)),
        0xa3 => Operation::BitReset(4, Operand8::Register(Register8::E)),
        0xa4 => Operation::BitReset(4, Operand8::Register(Register8::H)),
        0xa5 => Operation::BitReset(4, Operand8::Register(Register8::L)),
        0xa6 => Operation::BitReset(4, Operand8::Memory(Address::HL)),
        0xa7 => Operation::BitReset(4, Operand8::Register(Register8::A)),
        0xa8 => Operation::BitReset(5, Operand8::Register(Register8::B)),
        0xa9 => Operation::BitReset(5, Operand8::Register(Register8::C)),
        0xaa => Operation::BitReset(5, Operand8::Register(Register8::D)),
        0xab => Operation::BitReset(5, Operand8::Register(Register8::E)),
        0xac => Operation::BitReset(5, Operand8::Register(Register8::H)),
        0xad => Operation::BitReset(5, Operand8::Register(Register8::L)),
        0xae => Operation::BitReset(5, Operand8::Memory(Address::HL)),
        0xaf => Operation::BitReset(5, Operand8::Register(Register8::A)),
        0xb0 => Operation::BitReset(6, Operand8::Register(Register8::B)),
        0xb1 => Operation::BitReset(6, Operand8::Register(Register8::C)),
        0xb2 => Operation::BitReset(6, Operand8::Register(Register8::D)),
        0xb3 => Operation::BitReset(6, Operand8::Register(Register8::E)),
        0xb4 => Operation::BitReset(6, Operand8::Register(Register8::H)),
        0xb5 => Operation::BitReset(6, Operand8::Register(Register8::L)),
        0xb6 => Operation::BitReset(6, Operand8::Memory(Address::HL)),
        0xb7 => Operation::BitReset(6, Operand8::Register(Register8::A)),
        0xb8 => Operation::BitReset(7, Operand8::Register(Register8::B)),
        0xb9 => Operation::BitReset(7, Operand8::Register(Register8::C)),
        0xba => Operation::BitReset(7, Operand8::Register(Register8::D)),
        0xbb => Operation::BitReset(7, Operand8::Register(Register8::E)),
        0xbc => Operation::BitReset(7, Operand8::Register(Register8::H)),
        0xbd => Operation::BitReset(7, Operand8::Register(Register8::L)),
        0xbe => Operation::BitReset(7, Operand8::Memory(Address::HL)),
        0xbf => Operation::BitReset(7, Operand8::Register(Register8::A)),
        0xc0 => Operation::BitSet(0, Operand8::Register(Register8::B)),
        0xc1 => Operation::BitSet(0, Operand8::Register(Register8::C)),
        0xc2 => Operation::BitSet(0, Operand8::Register(Register8::D)),
        0xc3 => Operation::BitSet(0, Operand8::Register(Register8::E)),
        0xc4 => Operation::BitSet(0, Operand8::Register(Register8::H)),
        0xc5 => Operation::BitSet(0, Operand8::Register(Register8::L)),
        0xc6 => Operation::BitSet(0, Operand8::Memory(Address::HL)),
        0xc7 => Operation::BitSet(0, Operand8::Register(Register8::A)),
        0xc8 => Operation::BitSet(1, Operand8::Register(Register8::B)),
        0xc9 => Operation::BitSet(1, Operand8::Register(Register8::C)),
        0xca => Operation::BitSet(1, Operand8::Register(Register8::D)),
        0xcb => Operation::BitSet(1, Operand8::Register(Register8::E)),
        0xcc => Operation::BitSet(1, Operand8::Register(Register8::H)),
        0xcd => Operation::BitSet(1, Operand8::Register(Register8::L)),
        0xce => Operation::BitSet(1, Operand8::Memory(Address::HL)),
        0xcf => Operation::BitSet(1, Operand8::Register(Register8::A)),
        0xd0 => Operation::BitSet(2, Operand8::Register(Register8::B)),
        0xd1 => Operation::BitSet(2, Operand8::Register(Register8::C)),
        0xd2 => Operation::BitSet(2, Operand8::Register(Register8::D)),
        0xd3 => Operation::BitSet(2, Operand8::Register(Register8::E)),
        0xd4 => Operation::BitSet(2, Operand8::Register(Register8::H)),
        0xd5 => Operation::BitSet(2, Operand8::Register(Register8::L)),
        0xd6 => Operation::BitSet(2, Operand8::Memory(Address::HL)),
        0xd7 => Operation::BitSet(2, Operand8::Register(Register8::A)),
        0xd8 => Operation::BitSet(3, Operand8::Register(Register8::B)),
        0xd9 => Operation::BitSet(3, Operand8::Register(Register8::C)),
        0xda => Operation::BitSet(3, Operand8::Register(Register8::D)),
        0xdb => Operation::BitSet(3, Operand8::Register(Register8::E)),
        0xdc => Operation::BitSet(3, Operand8::Register(Register8::H)),
        0xdd => Operation::BitSet(3, Operand8::Register(Register8::L)),
        0xde => Operation::BitSet(3, Operand8::Memory(Address::HL)),
        0xdf => Operation::BitSet(3, Operand8::Register(Register8::A)),
        0xe0 => Operation::BitSet(4, Operand8::Register(Register8::B)),
        0xe1 => Operation::BitSet(4, Operand8::Register(Register8::C)),
        0xe2 => Operation::BitSet(4, Operand8::Register(Register8::D)),
        0xe3 => Operation::BitSet(4, Operand8::Register(Register8::E)),
        0xe4 => Operation::BitSet(4, Operand8::Register(Register8::H)),
        0xe5 => Operation::BitSet(4, Operand8::Register(Register8::L)),
        0xe6 => Operation::BitSet(4, Operand8::Memory(Address::HL)),
        0xe7 => Operation::BitSet(4, Operand8::Register(Register8::A)),
        0xe8 => Operation::BitSet(5, Operand8::Register(Register8::B)),
        0xe9 => Operation::BitSet(5, Operand8::Register(Register8::C)),
        0xea => Operation::BitSet(5, Operand8::Register(Register8::D)),
        0xeb => Operation::BitSet(5, Operand8::Register(Register8::E)),
        0xec => Operation::BitSet(5, Operand8::Register(Register8::H)),
        0xed => Operation::BitSet(5, Operand8::Register(Register8::L)),
        0xee => Operation::BitSet(5, Operand8::Memory(Address::HL)),
        0xef => Operation::BitSet(5, Operand8::Register(Register8::A)),
        0xf0 => Operation::BitSet(6, Operand8::Register(Register8::B)),
        0xf1 => Operation::BitSet(6, Operand8::Register(Register8::C)),
        0xf2 => Operation::BitSet(6, Operand8::Register(Register8::D)),
        0xf3 => Operation::BitSet(6, Operand8::Register(Register8::E)),
        0xf4 => Operation::BitSet(6, Operand8::Register(Register8::H)),
        0xf5 => Operation::BitSet(6, Operand8::Register(Register8::L)),
        0xf6 => Operation::BitSet(6, Operand8::Memory(Address::HL)),
        0xf7 => Operation::BitSet(6, Operand8::Register(Register8::A)),
        0xf8 => Operation::BitSet(7, Operand8::Register(Register8::B)),
        0xf9 => Operation::BitSet(7, Operand8::Register(Register8::C)),
        0xfa => Operation::BitSet(7, Operand8::Register(Register8::D)),
        0xfb => Operation::BitSet(7, Operand8::Register(Register8::E)),
        0xfc => Operation::BitSet(7, Operand8::Register(Register8::H)),
        0xfd => Operation::BitSet(7, Operand8::Register(Register8::L)),
        0xfe => Operation::BitSet(7, Operand8::Memory(Address::HL)),
        0xff => Operation::BitSet(7, Operand8::Register(Register8::A)),
        _ => unreachable!(),
    }
}

#[test]
fn disassembler_reads_immediates() {
    let mut d = Disassembler::new(vec![0x34, 0x12, 0x80]);
    assert_eq!(Address::Direct.into_operand8(&mut d), OperandData::Memory(AddressData::Direct(0x1234)));
    assert_eq!(d.consumed(), 2);
    assert_eq!(Address::ZeroPage.into_operand8(&mut d), OperandData::Memory(AddressData::ZeroPage(0x80)));
    assert_eq!(Register8::B.into_operand8(&mut d), OperandData::Register(Register8::B));
    assert_eq!(Address::HLI.into_operand8(&mut d), OperandData::Memory(AddressData::HLI));
    assert_eq!(d.consumed(), 3);
    // past the end reads 0
    assert_eq!(Immediate8.into_operand8(&mut d), OperandData::Immediate(0));
    assert_eq!(Operand8::Register(Register8::A).into_operand8(&mut d), OperandData::Register(Register8::A));
    assert_eq!(Condition::Always.into_condition(), None);
    assert_eq!(Condition::Carry.into_condition(), Some(Condition::Carry));
    let mut d = Disassembler::new(vec![0xCD, 0xAB]);
    assert_eq!(d.next16(), 0xABCD);
    assert_eq!(d.next8(), 0);
}
