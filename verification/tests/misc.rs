use wadatsumi::ascii::ascii_string;
use wadatsumi::bits;
use wadatsumi::bits::{bit, filled, mask};
use wadatsumi::gb::apu::ch1::Channel1;
use wadatsumi::gb::apu::ch4::get_divisor;
use wadatsumi::gb::apu::{wave_pattern, APU};
use wadatsumi::gb::joypad::{Joypad, Key};
use wadatsumi::high_ram::HighRam;
use wadatsumi::mmu::{MemoryRule, MMU};
use wadatsumi::mode::{Device, Mode};

#[test]
fn bit_helpers() {
    assert_eq!(bit(true, 7), 0x80);
    assert_eq!(bit(false, 7), 0);
    assert!(bits::test(0x10, 4));
    assert!(!bits::test(0x10, 3));
    assert_eq!(mask(0), 0);
    assert_eq!(mask(5), 0x1F);
    assert_eq!(mask(8), 0xFF);
    assert_eq!(filled(3, 7), vec![7, 7, 7]);
}

#[test]
fn ascii_strings() {
    assert_eq!(ascii_string(&vec![0x48, 0x49]), "HI");
    assert_eq!(ascii_string(&vec![]), "");
}

#[test]
fn mode_from_str() {
    assert_eq!(Mode::from_str("gb"), Some(Mode::GB_MGB));
    assert_eq!(Mode::from_str("cgb"), Some(Mode::CGB_CGB));
    assert_eq!(Mode::from_str("sgb"), Some(Mode::SGB_SGB2));
    assert_eq!(Mode::from_str("gb:dmg0"), Some(Mode::GB_DMG0));
    assert_eq!(Mode::from_str("gb:dmg"), Some(Mode::GB_DMG));
    assert_eq!(Mode::from_str("gb:sgb"), Some(Mode::GB_SGB2));
    assert_eq!(Mode::from_str("gb:sgb1"), Some(Mode::GB_SGB1));
    assert_eq!(Mode::from_str("cgb:agb"), Some(Mode::CGB_AGB));
    assert_eq!(Mode::from_str("sgb:1"), Some(Mode::SGB_SGB1));
    assert_eq!(Mode::from_str("sgb:2"), Some(Mode::SGB_SGB2));
    assert_eq!(Mode::from_str("nes"), None);
    assert_eq!(Mode::from_str("cgb:dmg"), None);
    assert_eq!(Mode::from_str(""), None);
    // a third field is ignored
    assert_eq!(Mode::from_str("gb:dmg:x"), Some(Mode::GB_DMG));
}

#[test]
fn mode_device() {
    assert_eq!(Mode::GB_AGB.device(), Device::GB);
    assert_eq!(Mode::CGB_CGB.device(), Device::CGB);
    assert_eq!(Mode::SGB_SGB1.device(), Device::SGB);
}

#[test]
fn joypad_groups() {
    let mut j: Joypad = Default::default();
    j.reset();
    // both groups selected, nothing held
    assert_eq!(j.read(0xFF00), 0xCF);
    j.on_key_down(Key::A);
    assert_eq!(j.read(0xFF00), 0xCE);
    // select only the direction keys: A is not seen
    j.write(0xFF00, 0x20);
    assert_eq!(j.read(0xFF00), 0xEF);
    j.on_key_down(Key::Down);
    assert_eq!(j.read(0xFF00), 0xE7);
    // select only the buttons
    j.write(0xFF00, 0x10);
    assert_eq!(j.read(0xFF00), 0xDE);
    j.on_key_up(Key::A);
    assert_eq!(j.read(0xFF00), 0xDF);
    assert_eq!(j.read(0xFF01), 0xFF);
}

#[test]
fn high_ram_roundtrip() {
    let mut h = HighRam::new();
    assert!(h.contains(0xFF80));
    assert!(h.contains(0xFFFE));
    assert!(!h.contains(0xFFFF));
    assert!(!h.contains(0xFF7F));
    assert_eq!(h.read8(0xFF90), 0);
    h.write8(0xFF90, 0x5A);
    assert_eq!(h.read8(0xFF90), 0x5A);
    assert_eq!(h.read8(0xFF91), 0);
}

#[test]
fn mmu_work_ram_rule() {
    let mut m: MMU = Default::default();
    m.reset();
    assert_eq!(m.read(0xC000), 0xFF);
    m.write(0xC000, 1);
    let mut p = 0x11;
    assert!(m.try_read(0xC000, &mut p));
    assert_eq!(p, 0);
    assert!(m.try_read(0xFDFF, &mut p));
    let mut q = 0x22;
    assert!(!m.try_read(0x8000, &mut q));
    assert_eq!(q, 0x22);
    assert!(!m.try_write(0xC000, 3));
}

#[test]
fn apu_power_and_volume() {
    let mut a: APU = Default::default();
    a.reset();
    // powered off; channel 1 comes up enabled
    assert_eq!(a.read(0xFF26), 0x71);
    a.write(0xFF24, 0x77);
    assert_eq!(a.read(0xFF24), 0x00);
    a.write(0xFF26, 0x80);
    assert_eq!(a.read(0xFF26), 0xF1);
    a.write(0xFF24, 0xF7);
    assert_eq!(a.read(0xFF24), 0xF7);
    a.write(0xFF25, 0xA5);
    assert_eq!(a.read(0xFF25), 0xA5);
    a.write(0xFF26, 0x00);
    assert_eq!(a.read(0xFF26), 0x70);
    assert_eq!(a.read(0xFF24), 0x00);
    assert_eq!(a.read(0xFF25), 0x00);
}

#[test]
fn apu_wave_ram_after_reset() {
    let mut a: APU = Default::default();
    a.reset();
    assert_eq!(a.read(0xFF30), 0x84);
    assert_eq!(a.read(0xFF3F), 0xDA);
}

#[test]
fn apu_length_counter_disables_channel() {
    let mut a: APU = Default::default();
    a.reset();
    a.write(0xFF26, 0x80);
    a.write(0xFF11, 0x3F);
    a.write(0xFF14, 0x40);
    assert_eq!(a.read(0xFF26), 0xF1);
    // DIV bit 12 falls: frame sequencer step 0 clocks the length counters
    a.on_change_div(0x1000, 0x2000);
    assert_eq!(a.read(0xFF26), 0xF0);
}

#[test]
fn channel1_registers() {
    let mut c: Channel1 = Default::default();
    c.reset();
    assert!(c.is_enabled());
    assert_eq!(c.read(0xFF10), 0x80);
    assert_eq!(c.read(0xFF11), 0xBF);
    assert_eq!(c.read(0xFF12), 0xF3);
    c.write(0xFF10, 0x7F, 0, true);
    assert_eq!(c.read(0xFF10), 0xFF);
    // Initial volume 0 with decrease turns the DAC off
    c.write(0xFF12, 0x00, 0, true);
    assert!(!c.is_enabled());
    c.clear();
    assert_eq!(c.read(0xFF12), 0x00);
}

#[test]
fn channel1_read_after_write() {
    let mut c: Channel1 = Default::default();
    c.write(0xFF10, 0x2D, 0, true);
    assert_eq!(c.read(0xFF10), 0x2D | 0x80);
    c.write(0xFF11, 0x95, 0, true);
    assert_eq!(c.read(0xFF11), (0x95 & 0xC0) | 0x3F);
    c.write(0xFF12, 0xA5, 0, true);
    assert_eq!(c.read(0xFF12), 0xA5);
    c.write(0xFF13, 0x12, 0, true);
    assert_eq!(c.read(0xFF13), 0xFF);
    c.write(0xFF14, 0x43, 0, true);
    assert_eq!(c.read(0xFF14), (0x43 & 0x40) | 0xBF);
}

#[test]
fn duty_patterns_and_divisors() {
    assert_eq!(wave_pattern(0b00), 0b0000_0001);
    assert_eq!(wave_pattern(0b10), 0b1000_0111);
    assert_eq!(wave_pattern(0b11), 0b0111_1110);
    assert_eq!(get_divisor(0), 8);
    assert_eq!(get_divisor(1), 16);
    assert_eq!(get_divisor(7), 112);
}
