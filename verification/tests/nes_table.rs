use wadatsumi::error::Error;
use wadatsumi::nes::operation::{Cpu, Operand, Register};
use wadatsumi::nes::table::{InstructionTable, Mnemonic, Mode};

#[test]
fn table_entries() {
    let t = InstructionTable::new();
    assert_eq!(t.get(0xA9), Some((Mnemonic::LDA, Mode::Immediate)));
    assert_eq!(t.get(0x0A), Some((Mnemonic::ASL(Operand::Register(Register::A)), Mode::Implied)));
    assert_eq!(t.get(0x0E), Some((Mnemonic::ASL(Operand::Memory), Mode::Absolute)));
    assert_eq!(t.get(0x6C), Some((Mnemonic::JMP, Mode::Indirect)));
    assert_eq!(t.get(0x96), Some((Mnemonic::STX, Mode::ZeroPageY)));
    assert_eq!(t.get(0x02), None);
    assert_eq!(t.get(0xF2), None);
}

#[test]
fn table_matches_every_opcode() {
    let t = InstructionTable::new();
    for op in 0..=255u8 {
        assert_eq!(t.get(op), expected(op), "opcode {:02x}", op);
    }
}

#[test]
fn decode_advances_pc_and_restarts_cycle() {
    let t = InstructionTable::new();
    let mut cpu = Cpu::new();
    cpu.state.pc = 0x8000;
    cpu.cycle = 5;
    assert_eq!(cpu.decode(&t, 0xEA).ok(), Some((Mnemonic::NOP, Mode::Implied)));
    assert_eq!(cpu.state.pc, 0x8001);
    assert_eq!(cpu.cycle, 0);
}

#[test]
fn decode_unknown_opcode_reports_its_address() {
    let t = InstructionTable::new();
    let mut cpu = Cpu::new();
    cpu.state.pc = 0xC123;
    match cpu.decode(&t, 0x02) {
        Err(Error::UnknownOpcode { opcode, pc }) => {
            assert_eq!(opcode, 0x02);
            assert_eq!(pc, 0xC123);
        }
        other => panic!("unexpected {:?}", other),
    }
    assert_eq!(cpu.state.pc, 0xC124);
}

#[test]
fn error_messages() {
    assert_eq!(Error::InvalidPak.message(), "invalid pak");
    assert_eq!(Error::UnsupportedMapper(4).message(), "unsupported mapper: 4");
    assert_eq!(Error::UnsupportedMapper(66).message(), "unsupported mapper: 66");
    assert_eq!(Error::UnsupportedMapper(255).message(), "unsupported mapper: 255");
    assert_eq!(Error::UnknownOpcode { opcode: 0x02, pc: 0xC0DE }.message(), "unknown opcode $02 at $C0DE");
    assert_eq!(Error::UnknownOpcode { opcode: 0xAB, pc: 0x000F }.message(), "unknown opcode $AB at $000F");
    let e = Error::Open(std::io::Error::new(std::io::ErrorKind::NotFound, "missing"));
    assert_eq!(e.message(), "open");
}

fn expected(op: u8) -> Option<(Mnemonic, Mode)> {
    match op {
        0x00 => Some((Mnemonic::BRK, Mode::Implied)),
        0x01 => Some((Mnemonic::ORA, Mode::IndirectX)),
        0x03 => Some((Mnemonic::SLO, Mode::IndirectX)),
        0x04 => Some((Mnemonic::NOP, Mode::ZeroPage)),
        0x05 => Some((Mnemonic::ORA, Mode::ZeroPage)),
        0x06 => Some((Mnemonic::ASL(Operand::Memory), Mode::ZeroPage)),
        0x07 => Some((Mnemonic::SLO, Mode::ZeroPage)),
        0x08 => Some((Mnemonic::PHP, Mode::Implied)),
        0x09 => Some((Mnemonic::ORA, Mode::Immediate)),
        0x0a => Some((Mnemonic::ASL(Operand::Register(Register::A)), Mode::Implied)),
        0x0b => Some((Mnemonic::ANC, Mode::Immediate)),
        0x0c => Some((Mnemonic::NOP, Mode::Absolute)),
        0x0d => Some((Mnemonic::ORA, Mode::Absolute)),
        0x0e => Some((Mnemonic::ASL(Operand::Memory), Mode::Absolute)),
        0x0f => Some((Mnemonic::SLO, Mode::Absolute)),
        0x10 => Some((Mnemonic::BPL, Mode::Relative)),
        0x11 => Some((Mnemonic::ORA, Mode::IndirectY)),
        0x13 => Some((Mnemonic::SLO, Mode::IndirectY)),
        0x14 => Some((Mnemonic::NOP, Mode::ZeroPageX)),
        0x15 => Some((Mnemonic::ORA, Mode::ZeroPageX)),
        0x16 => Some((Mnemonic::ASL(Operand::Memory), Mode::ZeroPageX)),
        0x17 => Some((Mnemonic::SLO, Mode::ZeroPageX)),
        0x18 => Some((Mnemonic::CLC, Mode::Implied)),
        0x19 => Some((Mnemonic::ORA, Mode::AbsoluteY)),
        0x1a => Some((Mnemonic::NOP, Mode::Implied)),
        0x1b => Some((Mnemonic::SLO, Mode::AbsoluteY)),
        0x1c => Some((Mnemonic::NOP, Mode::AbsoluteX)),
        0x1d => Some((Mnemonic::ORA, Mode::AbsoluteX)),
        0x1e => Some((Mnemonic::ASL(Operand::Memory), Mode::AbsoluteX)),
        0x1f => Some((Mnemonic::SLO, Mode::AbsoluteX)),
        0x20 => Some((Mnemonic::JSR, Mode::Implied)),
        0x21 => Some((Mnemonic::AND, Mode::IndirectX)),
        0x23 => Some((Mnemonic::RLA, Mode::IndirectX)),
        0x24 => Some((Mnemonic::BIT, Mode::ZeroPage)),
        0x25 => Some((Mnemonic::AND, Mode::ZeroPage)),
        0x26 => Some((Mnemonic::ROL(Operand::Memory), Mode::ZeroPage)),
        0x27 => Some((Mnemonic::RLA, Mode::ZeroPage)),
        0x28 => Some((Mnemonic::PLP, Mode::Implied)),
        0x29 => Some((Mnemonic::AND, Mode::Immediate)),
        0x2a => Some((Mnemonic::ROL(Operand::Register(Register::A)), Mode::Implied)),
        0x2b => Some((Mnemonic::ANC, Mode::Immediate)),
        0x2c => Some((Mnemonic::BIT, Mode::Absolute)),
        0x2d => Some((Mnemonic::AND, Mode::Absolute)),
        0x2e => Some((Mnemonic::ROL(Operand::Memory), Mode::Absolute)),
        0x2f => Some((Mnemonic::RLA, Mode::Absolute)),
        0x30 => Some((Mnemonic::BMI, Mode::Relative)),
        0x31 => Some((Mnemonic::AND, Mode::IndirectY)),
        0x33 => Some((Mnemonic::RLA, Mode::IndirectY)),
        0x34 => Some((Mnemonic::NOP, Mode::ZeroPageX)),
        0x35 => Some((Mnemonic::AND, Mode::ZeroPageX)),
        0x36 => Some((Mnemonic::ROL(Operand::Memory), Mode::ZeroPageX)),
        0x37 => Some((Mnemonic::RLA, Mode::ZeroPageX)),
        0x38 => Some((Mnemonic::SEC, Mode::Implied)),
        0x39 => Some((Mnemonic::AND, Mode::AbsoluteY)),
        0x3a => Some((Mnemonic::NOP, Mode::Implied)),
        0x3b => Some((Mnemonic::RLA, Mode::AbsoluteY)),
        0x3c => Some((Mnemonic::NOP, Mode::AbsoluteX)),
        0x3d => Some((Mnemonic::AND, Mode::AbsoluteX)),
        0x3e => Some((Mnemonic::ROL(Operand::Memory), Mode::AbsoluteX)),
        0x3f => Some((Mnemonic::RLA, Mode::AbsoluteX)),
        0x40 => Some((Mnemonic::RTI, Mode::Implied)),
        0x41 => Some((Mnemonic::EOR, Mode::IndirectX)),
        0x43 => Some((Mnemonic::SRE, Mode::IndirectX)),
        0x44 => Some((Mnemonic::NOP, Mode::ZeroPage)),
        0x45 => Some((Mnemonic::EOR, Mode::ZeroPage)),
        0x46 => Some((Mnemonic::LSR(Operand::Memory), Mode::ZeroPage)),
        0x47 => Some((Mnemonic::SRE, Mode::ZeroPage)),
        0x48 => Some((Mnemonic::PHA, Mode::Implied)),
        0x49 => Some((Mnemonic::EOR, Mode::Immediate)),
        0x4a => Some((Mnemonic::LSR(Operand::Register(Register::A)), Mode::Implied)),
        0x4b => Some((Mnemonic::ALR, Mode::Immediate)),
        0x4c => Some((Mnemonic::JMP, Mode::Absolute)),
        0x4d => Some((Mnemonic::EOR, Mode::Absolute)),
        0x4e => Some((Mnemonic::LSR(Operand::Memory), Mode::Absolute)),
        0x4f => Some((Mnemonic::SRE, Mode::Absolute)),
        0x50 => Some((Mnemonic::BVC, Mode::Relative)),
        0x51 => Some((Mnemonic::EOR, Mode::IndirectY)),
        0x53 => Some((Mnemonic::SRE, Mode::IndirectY)),
        0x54 => Some((Mnemonic::NOP, Mode::ZeroPageX)),
        0x55 => Some((Mnemonic::EOR, Mode::ZeroPageX)),
        0x56 => Some((Mnemonic::LSR(Operand::Memory), Mode::ZeroPageX)),
        0x57 => Some((Mnemonic::SRE, Mode::ZeroPageX)),
        0x58 => Some((Mnemonic::CLI, Mode::Implied)),
        0x59 => Some((Mnemonic::EOR, Mode::AbsoluteY)),
        0x5a => Some((Mnemonic::NOP, Mode::Implied)),
        0x5b => Some((Mnemonic::SRE, Mode::AbsoluteY)),
        0x5c => Some((Mnemonic::NOP, Mode::AbsoluteX)),
        0x5d => Some((Mnemonic::EOR, Mode::AbsoluteX)),
        0x5e => Some((Mnemonic::LSR(Operand::Memory), Mode::AbsoluteX)),
        0x5f => Some((Mnemonic::SRE, Mode::AbsoluteX)),
        0x60 => Some((Mnemonic::RTS, Mode::Implied)),
        0x61 => Some((Mnemonic::ADC, Mode::IndirectX)),
        0x63 => Some((Mnemonic::RRA, Mode::IndirectX)),
        0x64 => Some((Mnemonic::NOP, Mode::ZeroPage)),
        0x65 => Some((Mnemonic::ADC, Mode::ZeroPage)),
        0x66 => Some((Mnemonic::ROR(Operand::Memory), Mode::ZeroPage)),
        0x67 => Some((Mnemonic::RRA, Mode::ZeroPage)),
        0x68 => Some((Mnemonic::PLA, Mode::Implied)),
        0x69 => Some((Mnemonic::ADC, Mode::Immediate)),
        0x6a => Some((Mnemonic::ROR(Operand::Register(Register::A)), Mode::Implied)),
        0x6b => Some((Mnemonic::ARR, Mode::Immediate)),
        0x6c => Some((Mnemonic::JMP, Mode::Indirect)),
        0x6d => Some((Mnemonic::ADC, Mode::Absolute)),
        0x6e => Some((Mnemonic::ROR(Operand::Memory), Mode::Absolute)),
        0x6f => Some((Mnemonic::RRA, Mode::Absolute)),
        0x70 => Some((Mnemonic::BVS, Mode::Relative)),
        0x71 => Some((Mnemonic::ADC, Mode::IndirectY)),
        0x73 => Some((Mnemonic::RRA, Mode::IndirectY)),
        0x74 => Some((Mnemonic::NOP, Mode::ZeroPageX)),
        0x75 => Some((Mnemonic::ADC, Mode::ZeroPageX)),
        0x76 => Some((Mnemonic::ROR(Operand::Memory), Mode::ZeroPageX)),
        0x77 => Some((Mnemonic::RRA, Mode::ZeroPageX)),
        0x78 => Some((Mnemonic::SEI, Mode::Implied)),
        0x79 => Some((Mnemonic::ADC, Mode::AbsoluteY)),
        0x7a => Some((Mnemonic::NOP, Mode::Implied)),
        0x7b => Some((Mnemonic::RRA, Mode::AbsoluteY)),
        0x7c => Some((Mnemonic::NOP, Mode::AbsoluteX)),
        0x7d => Some((Mnemonic::ADC, Mode::AbsoluteX)),
        0x7e => Some((Mnemonic::ROR(Operand::Memory), Mode::AbsoluteX)),
        0x7f => Some((Mnemonic::RRA, Mode::AbsoluteX)),
        0x80 => Some((Mnemonic::NOP, Mode::Immediate)),
        0x81 => Some((Mnemonic::STA, Mode::IndirectX)),
        0x82 => Some((Mnemonic::NOP, Mode::Immediate)),
        0x83 => Some((Mnemonic::SAX, Mode::IndirectX)),
        0x84 => Some((Mnemonic::STY, Mode::ZeroPage)),
        0x85 => Some((Mnemonic::STA, Mode::ZeroPage)),
        0x86 => Some((Mnemonic::STX, Mode::ZeroPage)),
        0x87 => Some((Mnemonic::SAX, Mode::ZeroPage)),
        0x88 => Some((Mnemonic::DEY, Mode::Implied)),
        0x89 => Some((Mnemonic::NOP, Mode::Immediate)),
        0x8a => Some((Mnemonic::TXA, Mode::Implied)),
        0x8c => Some((Mnemonic::STY, Mode::Absolute)),
        0x8d => Some((Mnemonic::STA, Mode::Absolute)),
        0x8e => Some((Mnemonic::STX, Mode::Absolute)),
        0x8f => Some((Mnemonic::SAX, Mode::Absolute)),
        0x90 => Some((Mnemonic::BCC, Mode::Relative)),
        0x91 => Some((Mnemonic::STA, Mode::IndirectY)),
        0x93 => Some((Mnemonic::SHA, Mode::IndirectY)),
        0x94 => Some((Mnemonic::STY, Mode::ZeroPageX)),
        0x95 => Some((Mnemonic::STA, Mode::ZeroPageX)),
        0x96 => Some((Mnemonic::STX, Mode::ZeroPageY)),
        0x97 => Some((Mnemonic::SAX, Mode::ZeroPageY)),
        0x98 => Some((Mnemonic::TYA, Mode::Implied)),
        0x99 => Some((Mnemonic::STA, Mode::AbsoluteY)),
        0x9a => Some((Mnemonic::TXS, Mode::Implied)),
        0x9c => Some((Mnemonic::SHY, Mode::AbsoluteX)),
        0x9d => Some((Mnemonic::STA, Mode::AbsoluteX)),
        0x9e => Some((Mnemonic::SHX, Mode::AbsoluteY)),
        0x9f => Some((Mnemonic::SHA, Mode::AbsoluteY)),
        0xa0 => Some((Mnemonic::LDY, Mode::Immediate)),
        0xa1 => Some((Mnemonic::LDA, Mode::IndirectX)),
        0xa2 => Some((Mnemonic::LDX, Mode::Immediate)),
        0xa3 => Some((Mnemonic::LAX, Mode::IndirectX)),
        0xa4 => Some((Mnemonic::LDY, Mode::ZeroPage)),
        0xa5 => Some((Mnemonic::LDA, Mode::ZeroPage)),
        0xa6 => Some((Mnemonic::LDX, Mode::ZeroPage)),
        0xa7 => Some((Mnemonic::LAX, Mode::ZeroPage)),
        0xa8 => Some((Mnemonic::TAY, Mode::Implied)),
        0xa9 => Some((Mnemonic::LDA, Mode::Immediate)),
        0xaa => Some((Mnemonic::TAX, Mode::Implied)),
        0xab => Some((Mnemonic::LXA, Mode::Immediate)),
        0xac => Some((Mnemonic::LDY, Mode::Absolute)),
        0xad => Some((Mnemonic::LDA, Mode::Absolute)),
        0xae => Some((Mnemonic::LDX, Mode::Absolute)),
        0xaf => Some((Mnemonic::LAX, Mode::Absolute)),
        0xb0 => Some((Mnemonic::BCS, Mode::Relative)),
        0xb1 => Some((Mnemonic::LDA, Mode::IndirectY)),
        0xb3 => Some((Mnemonic::LAX, Mode::IndirectY)),
        0xb4 => Some((Mnemonic::LDY, Mode::ZeroPageX)),
        0xb5 => Some((Mnemonic::LDA, Mode::ZeroPageX)),
        0xb6 => Some((Mnemonic::LDX, Mode::ZeroPageY)),
        0xb7 => Some((Mnemonic::LAX, Mode::ZeroPageY)),
        0xb8 => Some((Mnemonic::CLV, Mode::Implied)),
        0xb9 => Some((Mnemonic::LDA, Mode::AbsoluteY)),
        0xba => Some((Mnemonic::TSX, Mode::Implied)),
        0xbc => Some((Mnemonic::LDY, Mode::AbsoluteX)),
        0xbd => Some((Mnemonic::LDA, Mode::AbsoluteX)),
        0xbe => Some((Mnemonic::LDX, Mode::AbsoluteY)),
        0xbf => Some((Mnemonic::LAX, Mode::AbsoluteY)),
        0xc0 => Some((Mnemonic::CPY, Mode::Immediate)),
        0xc1 => Some((Mnemonic::CMP, Mode::IndirectX)),
        0xc2 => Some((Mnemonic::NOP, Mode::Immediate)),
        0xc3 => Some((Mnemonic::DCP, Mode::IndirectX)),
        0xc4 => Some((Mnemonic::CPY, Mode::ZeroPage)),
        0xc5 => Some((Mnemonic::CMP, Mode::ZeroPage)),
        0xc6 => Some((Mnemonic::DEC, Mode::ZeroPage)),
        0xc7 => Some((Mnemonic::DCP, Mode::ZeroPage)),
        0xc8 => Some((Mnemonic::INY, Mode::Implied)),
        0xc9 => Some((Mnemonic::CMP, Mode::Immediate)),
        0xca => Some((Mnemonic::DEX, Mode::Implied)),
        0xcb => Some((Mnemonic::SBX, Mode::Immediate)),
        0xcc => Some((Mnemonic::CPY, Mode::Absolute)),
        0xcd => Some((Mnemonic::CMP, Mode::Absolute)),
        0xce => Some((Mnemonic::DEC, Mode::Absolute)),
        0xcf => Some((Mnemonic::DCP, Mode::Absolute)),
        0xd0 => Some((Mnemonic::BNE, Mode::Relative)),
        0xd1 => Some((Mnemonic::CMP, Mode::IndirectY)),
        0xd3 => Some((Mnemonic::DCP, Mode::IndirectY)),
        0xd4 => Some((Mnemonic::NOP, Mode::ZeroPageX)),
        0xd5 => Some((Mnemonic::CMP, Mode::ZeroPageX)),
        0xd6 => Some((Mnemonic::DEC, Mode::ZeroPageX)),
        0xd7 => Some((Mnemonic::DCP, Mode::ZeroPageX)),
        0xd8 => Some((Mnemonic::CLD, Mode::Implied)),
        0xd9 => Some((Mnemonic::CMP, Mode::AbsoluteY)),
        0xda => Some((Mnemonic::NOP, Mode::Implied)),
        0xdb => Some((Mnemonic::DCP, Mode::AbsoluteY)),
        0xdc => Some((Mnemonic::NOP, Mode::AbsoluteX)),
        0xdd => Some((Mnemonic::CMP, Mode::AbsoluteX)),
        0xde => Some((Mnemonic::DEC, Mode::AbsoluteX)),
        0xdf => Some((Mnemonic::DCP, Mode::AbsoluteX)),
        0xe0 => Some((Mnemonic::CPX, Mode::Immediate)),
        0xe1 => Some((Mnemonic::SBC, Mode::IndirectX)),
        0xe2 => Some((Mnemonic::NOP, Mode::Immediate)),
        0xe3 => Some((Mnemonic::ISC, Mode::IndirectX)),
        0xe4 => Some((Mnemonic::CPX, Mode::ZeroPage)),
        0xe5 => Some((Mnemonic::SBC, Mode::ZeroPage)),
        0xe6 => Some((Mnemonic::INC, Mode::ZeroPage)),
        0xe7 => Some((Mnemonic::ISC, Mode::ZeroPage)),
        0xe8 => Some((Mnemonic::INX, Mode::Implied)),
        0xe9 => Some((Mnemonic::SBC, Mode::Immediate)),
        0xea => Some((Mnemonic::NOP, Mode::Implied)),
        0xeb => Some((Mnemonic::SBC, Mode::Immediate)),
        0xec => Some((Mnemonic::CPX, Mode::Absolute)),
        0xed => Some((Mnemonic::SBC, Mode::Absolute)),
        0xee => Some((Mnemonic::INC, Mode::Absolute)),
        0xef => Some((Mnemonic::ISC, Mode::Absolute)),
        0xf0 => Some((Mnemonic::BEQ, Mode::Relative)),
        0xf1 => Some((Mnemonic::SBC, Mode::IndirectY)),
        0xf3 => Some((Mnemonic::ISC, Mode::IndirectY)),
        0xf4 => Some((Mnemonic::NOP, Mode::ZeroPageX)),
        0xf5 => Some((Mnemonic::SBC, Mode::ZeroPageX)),
        0xf6 => Some((Mnemonic::INC, Mode::ZeroPageX)),
        0xf7 => Some((Mnemonic::ISC, Mode::ZeroPageX)),
        0xf8 => Some((Mnemonic::SED, Mode::Implied)),
        0xf9 => Some((Mnemonic::SBC, Mode::AbsoluteY)),
        0xfa => Some((Mnemonic::NOP, Mode::Implied)),
        0xfb => Some((Mnemonic::ISC, Mode::AbsoluteY)),
        0xfc => Some((Mnemonic::NOP, Mode::AbsoluteX)),
        0xfd => Some((Mnemonic::SBC, Mode::AbsoluteX)),
        0xfe => Some((Mnemonic::INC, Mode::AbsoluteX)),
        0xff => Some((Mnemonic::ISC, Mode::AbsoluteX)),
        _ => None,
    }
}
