use wadatsumi::gb::bus::Bus;
use wadatsumi::mode::Mode;

/// A 32 KiB ROM-only image whose bytes are their address's low byte.
fn rom() -> Vec<u8> {
    let mut data: Vec<u8> = (0..0x8000usize).map(|i| i as u8).collect();
    data[0x147] = 0;
    data[0x148] = 0;
    data[0x149] = 0;
    data
}

fn bus() -> Bus {
    let mut b: Bus = Default::default();
    b.cart.load(rom());
    b.reset(Mode::GB_DMG);
    b
}

#[test]
fn reset_state() {
    let mut b = bus();
    assert_eq!(b.ie, 0);
    assert_eq!(b.if_, 1);
    assert_eq!(b.read(0xFF0F), 0xE1);
    assert_eq!(b.read(0xFFFF), 0);
    assert_eq!(b.read(0xFF01), 0);
    assert_eq!(b.read(0xFF02), 0x7E);
    assert_eq!(b.read(0xFF40), 0x91);
    assert_eq!(b.read(0xC000), 0);
    assert_eq!(b.read(0xFF00), 0xCF);
    // unmapped (and the timer registers, not on this bus)
    assert_eq!(b.read(0xFF04), 0xFF);
    assert_eq!(b.read(0xFF7F), 0xFF);
}

#[test]
fn cartridge_rom_through_the_bus() {
    let mut b = bus();
    assert_eq!(b.read(0x0123), 0x23);
    assert_eq!(b.read(0x7FFE), 0xFE);
    // no cartridge RAM
    assert_eq!(b.read(0xA000), 0xFF);
}

#[test]
fn work_ram_and_echo() {
    let mut b = bus();
    b.write(0xC123, 0x42);
    assert_eq!(b.read(0xC123), 0x42);
    assert_eq!(b.read(0xE123), 0x42);
    b.write(0xFDFF, 0x17);
    assert_eq!(b.read(0xDDFF), 0x17);
}

#[test]
fn high_ram_and_interrupt_registers() {
    let mut b = bus();
    b.write(0xFF80, 1);
    b.write(0xFFFE, 2);
    assert_eq!(b.read(0xFF80), 1);
    assert_eq!(b.read(0xFFFE), 2);
    b.write(0xFF0F, 0xFF);
    assert_eq!(b.if_, 0x1F);
    assert_eq!(b.read(0xFF0F), 0xFF);
    b.write(0xFFFF, 0x05);
    assert_eq!(b.read(0xFFFF), 0x05);
}

#[test]
fn components_through_the_bus() {
    let mut b = bus();
    b.write(0xFF42, 0x33);
    assert_eq!(b.read(0xFF42), 0x33);
    b.write(0x8000, 0x99);
    assert_eq!(b.read(0x8000), 0x99);
    b.write(0xFF00, 0x20);
    assert_eq!(b.read(0xFF00), 0xEF);
    b.write(0xFF26, 0x80);
    b.write(0xFF24, 0x77);
    assert_eq!(b.read(0xFF24), 0x77);
    assert_eq!(b.read(0xFF30), 0x84);
}

#[test]
fn oam_dma_copies_a_page() {
    let mut b = bus();
    // LCD off: OAM stays readable once the transfer is over
    b.write(0xFF40, 0x00);
    for i in 0..160u16 {
        b.write(0xC100 + i, (i as u8) ^ 0x5A);
    }
    b.write(0xFF46, 0xC1);
    // two M-cycles of delay, then 160 bytes
    b.step();
    b.step();
    // running: work RAM reads see what the DMA reads; OAM is locked
    assert_eq!(b.read(0xFE00), 0xFF);
    for _ in 0..160 {
        b.step();
    }
    for i in 0..160u16 {
        assert_eq!(b.gpu.read(0xFE00 + i, false), (i as u8) ^ 0x5A);
    }
}

#[test]
fn oam_dma_conflict_redirects_reads() {
    let mut b = bus();
    b.write(0xC000, 0x11);
    b.write(0xC001, 0x22);
    b.write(0xD000, 0x33);
    b.write(0xFF46, 0xC0);
    b.step();
    b.step();
    // the DMA is at byte 0 of 0xC000: a read of other work RAM sees that byte
    assert_eq!(b.read(0xD000), 0x11);
    b.step();
    assert_eq!(b.read(0xD000), 0x22);
    // high RAM is not on the DMA's bus
    b.write(0xFF90, 9);
    assert_eq!(b.read(0xFF90), 9);
}

#[test]
fn steps_run_the_ppu() {
    let mut b = bus();
    b.if_ = 0;
    // V-Blank begins on T-cycle 65669, within M-cycle 16418
    for _ in 0..16417 {
        b.step();
    }
    assert_eq!(b.if_ & 1, 0);
    b.step();
    assert_eq!(b.if_ & 1, 1);
    assert_eq!(b.read(0xFF44), 144);
}
