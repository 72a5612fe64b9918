use wadatsumi::chip8::{Chip8, Instruction, Opcode, UnknownOpcode, ENTRY_POINT, RAM_SIZE};

#[test]
fn opcode_fields() {
    let op = Opcode(0xA2F0);
    assert_eq!(op.digits(), (0xA, 0x2, 0xF, 0x0));
    assert_eq!(op.nnn(), 0x2F0);
    assert_eq!(op.kk(), 0xF0);
}

#[test]
fn opcode_fetch_is_big_endian() {
    let ram = vec![0x12, 0x34, 0x56];
    let mut pc = 1;
    assert_eq!(Opcode::fetch(&ram, &mut pc), Opcode(0x3456));
    assert_eq!(pc, 3);
}

#[test]
fn decode_known_opcodes() {
    assert_eq!(Instruction::decode(Opcode(0x00E0)), Ok(Instruction::ClearScreen));
    assert_eq!(Instruction::decode(Opcode(0x00EE)), Ok(Instruction::Return));
    assert_eq!(Instruction::decode(Opcode(0x1234)), Ok(Instruction::Jump { nnn: 0x234 }));
    assert_eq!(Instruction::decode(Opcode(0x2ABC)), Ok(Instruction::Call { nnn: 0xABC }));
    assert_eq!(Instruction::decode(Opcode(0x3A12)), Ok(Instruction::SkipIfEqualToValue { x: 0xA, kk: 0x12 }));
    assert_eq!(Instruction::decode(Opcode(0x4B34)), Ok(Instruction::SkipIfNotEqualToValue { x: 0xB, kk: 0x34 }));
    assert_eq!(Instruction::decode(Opcode(0x5120)), Ok(Instruction::SkipIfEqualToRegister { x: 1, y: 2 }));
    assert_eq!(Instruction::decode(Opcode(0x6C7F)), Ok(Instruction::LoadRegister { x: 0xC, kk: 0x7F }));
    assert_eq!(Instruction::decode(Opcode(0x7101)), Ok(Instruction::AddValue { x: 1, kk: 1 }));
    assert_eq!(Instruction::decode(Opcode(0x8125)), Ok(Instruction::Subtract { x: 1, y: 2 }));
}

#[test]
fn decode_unknown_opcodes() {
    for op in [0x0123u16, 0x8120, 0x9120, 0xA123, 0xD123, 0xFFFF] {
        assert_eq!(Instruction::decode(Opcode(op)), Err(UnknownOpcode(Opcode(op))));
    }
}

#[test]
fn new_machine() {
    let c = Chip8::new();
    assert_eq!(c.pc(), ENTRY_POINT);
    for x in 0..16 {
        assert_eq!(c.register(x), 0);
    }
}

#[test]
fn load_and_step() {
    let mut c = Chip8::new();
    // LD V1, 0x10; ADD V1, 0x05; SE V1, 0x15; LD V2, 0xFF; SNE V1, 0x15; LD V3, 0x01
    c.load(vec![0x61, 0x10, 0x71, 0x05, 0x31, 0x15, 0x62, 0xFF, 0x41, 0x15, 0x63, 0x01]);
    assert_eq!(c.step(), Ok(()));
    assert_eq!(c.register(1), 0x10);
    assert_eq!(c.pc(), ENTRY_POINT + 2);
    assert_eq!(c.step(), Ok(()));
    assert_eq!(c.register(1), 0x15);
    // equal: skips the load of V2
    assert_eq!(c.step(), Ok(()));
    assert_eq!(c.pc(), ENTRY_POINT + 8);
    assert_eq!(c.register(2), 0);
    // not not-equal: no skip
    assert_eq!(c.step(), Ok(()));
    assert_eq!(c.pc(), ENTRY_POINT + 10);
    assert_eq!(c.step(), Ok(()));
    assert_eq!(c.register(3), 1);
}

#[test]
fn skip_if_registers_equal() {
    let mut c = Chip8::new();
    // SE V4, V5 (both zero): skip
    c.load(vec![0x54, 0x50]);
    assert_eq!(c.step(), Ok(()));
    assert_eq!(c.pc(), ENTRY_POINT + 4);
}

#[test]
fn step_on_unknown_opcode_fails_after_fetch() {
    let mut c = Chip8::new();
    c.load(vec![0xF0, 0x0A]);
    assert_eq!(c.step(), Err(UnknownOpcode(Opcode(0xF00A))));
    assert_eq!(c.pc(), ENTRY_POINT + 2);
}

#[test]
fn reset_restores_program() {
    let mut c = Chip8::new();
    c.load(vec![0x6A, 0x42]);
    c.step().unwrap();
    assert_eq!(c.register(0xA), 0x42);
    c.reset();
    assert_eq!(c.register(0xA), 0);
    assert_eq!(c.pc(), ENTRY_POINT);
    c.step().unwrap();
    assert_eq!(c.register(0xA), 0x42);
    assert!(RAM_SIZE > ENTRY_POINT);
}

#[test]
fn can_step_refuses_overflow_and_empty_return() {
    let mut c = Chip8::new();
    // ADD V0, 0xFF twice: the second overflows
    c.load(vec![0x70, 0xFF, 0x70, 0xFF]);
    assert!(c.can_step());
    c.step().unwrap();
    assert!(!c.can_step());
    // RET with no subroutine running
    let mut c = Chip8::new();
    c.load(vec![0x00, 0xEE]);
    assert!(!c.can_step());
    let mut c = Chip8::new();
    c.load(vec![0x12, 0x00]);
    assert!(c.can_step());
    let mut c = Chip8::new();
    c.load(vec![0xF0, 0x0A]);
    assert!(c.can_step());
}

#[test]
fn chip8_jump_sets_pc() {
    let mut c = Chip8::new();
    // JP 0x234
    c.load(vec![0x12, 0x34]);
    assert_eq!(c.step(), Ok(()));
    assert_eq!(c.pc(), 0x234);
    for x in 0..16 {
        assert_eq!(c.register(x), 0);
    }
}

#[test]
fn chip8_call_and_return() {
    let mut c = Chip8::new();
    // 0x200: CALL 0x206; 0x202: LD V1, 0x22; 0x204: JP 0x204; 0x206: LD V2, 0x33; 0x208: RET
    c.load(vec![0x22, 0x06, 0x61, 0x22, 0x12, 0x04, 0x62, 0x33, 0x00, 0xEE]);
    assert_eq!(c.step(), Ok(()));
    assert_eq!(c.pc(), 0x206);
    assert_eq!(c.step(), Ok(()));
    assert_eq!(c.register(2), 0x33);
    assert!(c.can_step());
    assert_eq!(c.step(), Ok(()));
    assert_eq!(c.pc(), 0x202);
    assert_eq!(c.step(), Ok(()));
    assert_eq!(c.register(1), 0x22);
    // the stack is empty again: a second RET would be refused
    let mut d = Chip8::new();
    d.load(vec![0x00, 0xEE]);
    assert!(!d.can_step());
}

#[test]
fn chip8_subtract_registers() {
    let mut c = Chip8::new();
    // LD V1, 0x10; LD V2, 0x03; SUB V1, V2; SUB V2, V1
    c.load(vec![0x61, 0x10, 0x62, 0x03, 0x81, 0x25, 0x82, 0x15]);
    for _ in 0..3 {
        assert_eq!(c.step(), Ok(()));
    }
    assert_eq!(c.register(1), 0x0D);
    assert_eq!(c.step(), Ok(()));
    // 0x03 - 0x0D wraps
    assert_eq!(c.register(2), 0xF6);
}

#[test]
fn instruction_listings() {
    assert_eq!(Instruction::ClearScreen.to_text(), "CLS");
    assert_eq!(Instruction::Return.to_text(), "RET");
    assert_eq!(Instruction::Jump { nnn: 0x234 }.to_text(), "JP 234");
    assert_eq!(Instruction::Call { nnn: 0x00F }.to_text(), "CALL F");
    assert_eq!(Instruction::SkipIfEqualToValue { x: 0xA, kk: 0x12 }.to_text(), "SE VA 12");
    assert_eq!(Instruction::SkipIfNotEqualToValue { x: 0, kk: 0 }.to_text(), "SNE V0 0");
    assert_eq!(Instruction::SkipIfEqualToRegister { x: 1, y: 0xF }.to_text(), "SE V1 VF");
    assert_eq!(Instruction::LoadRegister { x: 0xC, kk: 0x7F }.to_text(), "LD VC, 7F");
    assert_eq!(Instruction::AddValue { x: 3, kk: 0xFF }.to_text(), "ADD V3, FF");
}
