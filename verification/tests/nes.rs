use wadatsumi::nes::addressing::{Immediate, Implied, ZeroPage, ZeroPageX};
use wadatsumi::nes::arithmetic::{ADC, COMPARE, DCP, DECREMENT, INCREMENT, ISC, SBC, SBX};
use wadatsumi::nes::logical::{AND, ASL, BIT, EOR, LSR, ORA, ROL, ROR};
use wadatsumi::nes::operation::{Cpu, MemoryAccess, Operand, Register};
use wadatsumi::nes::state::{CpuState, CpuStatus};
use wadatsumi::nes::system::{CLEAR, NOP, SET};
use wadatsumi::nes::transfer::{LOAD, STORE, TRANSFER};

fn flag(f: u8) -> CpuStatus {
    CpuStatus(f)
}

fn cpu_with(a: u8, data: u8, p: u8) -> Cpu {
    let mut cpu = Cpu::new();
    cpu.state.a = a;
    cpu.data = data;
    cpu.state.p = CpuStatus(p);
    cpu
}

#[test]
fn status_new_drops_b_and_u() {
    assert_eq!(CpuStatus::new(0xFF), CpuStatus(0xCF));
    assert_eq!(CpuStatus::new(0x30), CpuStatus(0x00));
}

#[test]
fn status_contains_needs_all_bits() {
    assert!(!CpuStatus(0x01).contains(CpuStatus(0x03)));
    assert!(CpuStatus(0x03).contains(CpuStatus(0x03)));
    assert!(CpuStatus(0x83).contains(CpuStatus(0x01)));
    assert!(CpuStatus(0x00).contains(CpuStatus(0x00)));
}

#[test]
fn status_set_insert_remove() {
    let mut p = CpuStatus(0);
    p.insert(flag(CpuStatus::C));
    assert!(p.contains(flag(CpuStatus::C)));
    p.set(flag(CpuStatus::N), true);
    assert_eq!(p, CpuStatus(0x81));
    p.remove(flag(CpuStatus::C));
    assert_eq!(p, CpuStatus(0x80));
    p.set(flag(CpuStatus::N), false);
    assert_eq!(p, CpuStatus(0));
}

#[test]
fn status_update_zn() {
    let mut p = CpuStatus(0);
    p.update_zn(0);
    assert_eq!(p, CpuStatus(CpuStatus::Z));
    p.update_zn(0x80);
    assert_eq!(p, CpuStatus(CpuStatus::N));
    p.update_z(1);
    p.update_n(1);
    assert_eq!(p, CpuStatus(0));
}

#[test]
fn state_power_on_and_registers() {
    let mut s = CpuState::new();
    assert_eq!(s.sp, 0xFD);
    assert_eq!(s.p, CpuStatus(CpuStatus::I));
    assert_eq!(s.stack_address(), 0x01FD);
    s.set(wadatsumi::nes::state::Register::X, 7);
    assert_eq!(s.get(wadatsumi::nes::state::Register::X), 7);
    assert_eq!(s.get(wadatsumi::nes::state::Register::A), 0);
    let d: CpuState = Default::default();
    assert_eq!(d, CpuState::new());
}

#[test]
fn register_get_set() {
    let mut s = CpuState::new();
    Register::Y.set(&mut s, 0x42);
    assert_eq!(Register::Y.get(&s), 0x42);
    Register::SP.set(&mut s, 0x10);
    assert_eq!(s.stack_address(), 0x0110);
}

#[test]
fn operand_access_read_write() {
    assert_eq!(Operand::Register(Register::A).access(MemoryAccess::Read), None);
    assert_eq!(Operand::Memory.access(MemoryAccess::Write), Some(MemoryAccess::Write));
    let mut cpu = cpu_with(3, 9, 0);
    cpu.address = 0x1234;
    assert_eq!(Operand::Memory.read(&cpu), 9);
    assert_eq!(Operand::Register(Register::A).read(&cpu), 3);
    assert_eq!(Operand::Memory.write(&mut cpu, 5), Some((0x1234, 5)));
    assert_eq!(cpu.data, 9);
    assert_eq!(Operand::Register(Register::X).write(&mut cpu, 5), None);
    assert_eq!(cpu.state.x, 5);
}

#[test]
fn adc_signed_overflow() {
    let mut cpu = cpu_with(0x50, 0x50, 0);
    assert_eq!(ADC.apply(&mut cpu), None);
    assert_eq!(cpu.state.a, 0xA0);
    assert_eq!(cpu.state.p, CpuStatus(CpuStatus::N | CpuStatus::V));
}

#[test]
fn adc_carry_in_and_out() {
    let mut cpu = cpu_with(0xFF, 0x00, CpuStatus::C);
    ADC.apply(&mut cpu);
    assert_eq!(cpu.state.a, 0x00);
    assert_eq!(cpu.state.p, CpuStatus(CpuStatus::Z | CpuStatus::C));
}

#[test]
fn sbc_borrow() {
    // 0x50 - 0xF0 with carry set (no borrow): 0x60, borrow taken (C clear)
    let mut cpu = cpu_with(0x50, 0xF0, CpuStatus::C);
    SBC.apply(&mut cpu);
    assert_eq!(cpu.state.a, 0x60);
    assert!(!cpu.state.p.contains(flag(CpuStatus::C)));
    assert!(!cpu.state.p.contains(flag(CpuStatus::V)));
}

#[test]
fn sbc_subtracts_with_carry_set() {
    let mut cpu = cpu_with(0x10, 0x01, CpuStatus::C);
    SBC.apply(&mut cpu);
    assert_eq!(cpu.state.a, 0x0F);
    assert!(cpu.state.p.contains(flag(CpuStatus::C)));
}

#[test]
fn compare_sets_flags() {
    let mut cpu = cpu_with(0x40, 0x40, 0);
    COMPARE { register: Register::A }.apply(&mut cpu);
    assert_eq!(cpu.state.p, CpuStatus(CpuStatus::Z | CpuStatus::C));
    let mut cpu = cpu_with(0x10, 0x20, 0);
    COMPARE { register: Register::A }.apply(&mut cpu);
    assert_eq!(cpu.state.p, CpuStatus(CpuStatus::N));
    assert_eq!(cpu.state.a, 0x10);
}

#[test]
fn increment_register_wraps() {
    let mut cpu = Cpu::new();
    cpu.state.x = 0xFF;
    let w = INCREMENT { operand: Operand::Register(Register::X) }.apply(&mut cpu);
    assert_eq!(w, None);
    assert_eq!(cpu.state.x, 0);
    assert!(cpu.state.p.contains(flag(CpuStatus::Z)));
}

#[test]
fn decrement_memory_writes_back() {
    let mut cpu = Cpu::new();
    cpu.address = 0x0200;
    cpu.data = 0x00;
    let w = DECREMENT { operand: Operand::Memory }.apply(&mut cpu);
    assert_eq!(w, Some((0x0200, 0xFF)));
    assert!(cpu.state.p.contains(flag(CpuStatus::N)));
}

#[test]
fn dcp_decrements_and_compares() {
    let mut cpu = cpu_with(0x05, 0x06, 0);
    cpu.address = 0x10;
    let w = DCP.apply(&mut cpu);
    assert_eq!(w, Some((0x10, 0x05)));
    assert!(cpu.state.p.contains(flag(CpuStatus::Z)));
    assert!(cpu.state.p.contains(flag(CpuStatus::C)));
}

#[test]
fn isc_increments_and_subtracts() {
    let mut cpu = cpu_with(0x10, 0x00, CpuStatus::C);
    cpu.address = 0x20;
    let w = ISC.apply(&mut cpu);
    assert_eq!(w, Some((0x20, 0x01)));
    assert_eq!(cpu.state.a, 0x0F);
}

#[test]
fn sbx_and_then_subtract() {
    let mut cpu = cpu_with(0xF0, 0x10, 0);
    cpu.state.x = 0x3C;
    SBX.apply(&mut cpu);
    assert_eq!(cpu.state.x, 0x20);
    assert!(cpu.state.p.contains(flag(CpuStatus::C)));
}

#[test]
fn logical_and_or_eor() {
    let mut cpu = cpu_with(0b1100, 0b1010, 0);
    AND.apply(&mut cpu);
    assert_eq!(cpu.state.a, 0b1000);
    cpu.data = 0b0001;
    ORA.apply(&mut cpu);
    assert_eq!(cpu.state.a, 0b1001);
    cpu.data = 0b1001;
    EOR.apply(&mut cpu);
    assert_eq!(cpu.state.a, 0);
    assert!(cpu.state.p.contains(flag(CpuStatus::Z)));
}

#[test]
fn bit_test_flags() {
    let mut cpu = cpu_with(0x01, 0xC0, 0);
    BIT.apply(&mut cpu);
    assert_eq!(cpu.state.p, CpuStatus(CpuStatus::Z | CpuStatus::N | CpuStatus::V));
    assert_eq!(cpu.state.a, 0x01);
}

#[test]
fn shifts_on_accumulator() {
    let mut cpu = cpu_with(0x81, 0, 0);
    ASL { operand: Operand::Register(Register::A) }.apply(&mut cpu);
    assert_eq!(cpu.state.a, 0x02);
    assert!(cpu.state.p.contains(flag(CpuStatus::C)));
    LSR { operand: Operand::Register(Register::A) }.apply(&mut cpu);
    assert_eq!(cpu.state.a, 0x01);
    assert!(!cpu.state.p.contains(flag(CpuStatus::C)));
}

#[test]
fn rotate_left_then_right_restores() {
    let mut cpu = cpu_with(0x80, 0, CpuStatus::C);
    ROL { operand: Operand::Register(Register::A) }.apply(&mut cpu);
    assert_eq!(cpu.state.a, 0x01);
    assert!(cpu.state.p.contains(flag(CpuStatus::C)));
    ROR { operand: Operand::Register(Register::A) }.apply(&mut cpu);
    assert_eq!(cpu.state.a, 0x80);
    assert!(cpu.state.p.contains(flag(CpuStatus::C)));
}

#[test]
fn rotate_memory_returns_write() {
    let mut cpu = cpu_with(0, 0x01, 0);
    cpu.address = 0x44;
    let w = ROR { operand: Operand::Memory }.apply(&mut cpu);
    assert_eq!(w, Some((0x44, 0x00)));
    assert!(cpu.state.p.contains(flag(CpuStatus::C)));
    assert!(cpu.state.p.contains(flag(CpuStatus::Z)));
}

#[test]
fn system_flags() {
    let mut cpu = Cpu::new();
    SET { flag: flag(CpuStatus::D) }.apply(&mut cpu);
    assert!(cpu.state.p.contains(flag(CpuStatus::D)));
    CLEAR { flag: flag(CpuStatus::I) }.apply(&mut cpu);
    assert_eq!(cpu.state.p, CpuStatus(CpuStatus::D));
    let before = cpu;
    assert_eq!(NOP.apply(&mut cpu), None);
    assert_eq!(cpu, before);
}

#[test]
fn transfers() {
    let mut cpu = cpu_with(0, 0x80, 0);
    LOAD { register: Register::Y }.apply(&mut cpu);
    assert_eq!(cpu.state.y, 0x80);
    assert!(cpu.state.p.contains(flag(CpuStatus::N)));
    cpu.address = 0x0300;
    assert_eq!(STORE { register: Register::Y }.apply(&mut cpu), Some((0x0300, 0x80)));
    TRANSFER { src: Register::Y, dst: Register::A }.apply(&mut cpu);
    assert_eq!(cpu.state.a, 0x80);
    let p = cpu.state.p;
    cpu.state.x = 0;
    TRANSFER { src: Register::X, dst: Register::SP }.apply(&mut cpu);
    assert_eq!(cpu.state.sp, 0);
    // TXS leaves the flags alone
    assert_eq!(cpu.state.p, p);
}

#[test]
fn addressing_modes() {
    let mut cpu = Cpu::new();
    cpu.state.pc = 0x8000;
    assert!(Implied::resolve(&mut cpu));
    assert!(Immediate::resolve(&mut cpu));
    assert_eq!(cpu.address, 0x8000);
    assert_eq!(cpu.state.pc, 0x8001);

    cpu.cycle = 1;
    assert!(!ZeroPage::resolve(&mut cpu, 0x42));
    assert_eq!(cpu.address, 0x0042);
    assert_eq!(cpu.state.pc, 0x8002);
    cpu.cycle = 2;
    assert!(ZeroPage::resolve(&mut cpu, 0x99));
    assert_eq!(cpu.address, 0x0042);

    cpu.state.x = 0xF0;
    cpu.cycle = 1;
    assert!(!ZeroPageX::resolve(&mut cpu, 0x20));
    cpu.cycle = 2;
    assert!(!ZeroPageX::resolve(&mut cpu, 0));
    assert_eq!(cpu.address, 0x0010);
    cpu.cycle = 3;
    assert!(ZeroPageX::resolve(&mut cpu, 0));
}

#[test]
fn reset_jumps_to_reset_vector() {
    let mut cpu = Cpu::new();
    cpu.state.a = 7;
    cpu.reset(0x34, 0xC0);
    assert_eq!(cpu.state.pc, 0xC034);
    assert_eq!(cpu.state.a, 7);
    assert_eq!(cpu.state.sp, 0xFD);
}
