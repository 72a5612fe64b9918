use wadatsumi::gpu::GPU;

fn lcd() -> GPU {
    let mut g: GPU = Default::default();
    g.reset();
    g
}

fn steps(g: &mut GPU, n: usize, if_: &mut u8) {
    for _ in 0..n {
        g.step(if_);
    }
}

#[test]
fn lcd_reset_registers() {
    let g = lcd();
    assert_eq!(g.read(0xFF40), 0x91);
    assert_eq!(g.read(0xFF41), 0x84);
    assert_eq!(g.read(0xFF47), 0xFC);
    assert_eq!(g.read(0xFF48), 0xFF);
    assert_eq!(g.read(0xFF68), 0x40);
    assert_eq!(g.read(0xFF4C), 0xFF);
}

#[test]
fn lcd_memory_roundtrip() {
    let mut g = lcd();
    g.write(0x8123, 0x9A);
    assert_eq!(g.read(0x8123), 0x9A);
    g.write(0xFE10, 0x3C);
    assert_eq!(g.read(0xFE10), 0x3C);
    g.write(0xFF42, 0x11);
    assert_eq!(g.read(0xFF42), 0x11);
    g.write(0xFF44, 0x11);
    assert_eq!(g.read(0xFF44), 0);
}

#[test]
fn lcd_palette_data() {
    let mut g = lcd();
    g.write(0xFF68, 0x81);
    g.write(0xFF69, 0xFF);
    assert_eq!(g.read(0xFF68), 0xC2);
    g.write(0xFF68, 0x01);
    assert_eq!(g.read(0xFF69), 0xFF);
}

#[test]
fn lcd_step_is_four_cycles() {
    let mut g = lcd();
    let mut if_ = 0;
    steps(&mut g, 1, &mut if_);
    assert_eq!(g.read(0xFF41) & 3, 0);
    steps(&mut g, 1, &mut if_);
    assert_eq!(g.read(0xFF41) & 3, 2);
    steps(&mut g, 19, &mut if_);
    assert_eq!(g.read(0xFF41) & 3, 2);
    steps(&mut g, 1, &mut if_);
    assert_eq!(g.read(0xFF41) & 3, 3);
    steps(&mut g, 43, &mut if_);
    assert_eq!(g.read(0xFF41) & 3, 3);
    steps(&mut g, 1, &mut if_);
    assert_eq!(g.read(0xFF41) & 3, 0);
}

#[test]
fn lcd_vblank_interrupt() {
    let mut g = lcd();
    let mut if_ = 0;
    // V-Blank is entered on T-cycle 65669, within M-cycle 16418
    steps(&mut g, 16417, &mut if_);
    assert_eq!(if_ & 1, 0);
    steps(&mut g, 1, &mut if_);
    assert_eq!(if_ & 1, 1);
    assert_eq!(g.read(0xFF44), 144);
    assert_eq!(g.read(0xFF41) & 3, 1);
}

#[test]
fn lcd_disabled_stands_still() {
    let mut g = lcd();
    let mut if_ = 0;
    steps(&mut g, 30, &mut if_);
    g.write(0xFF40, 0x00);
    assert_eq!(g.read(0xFF41) & 3, 0);
    steps(&mut g, 100, &mut if_);
    assert_eq!(g.read(0xFF41) & 3, 0);
    assert_eq!(g.read(0xFF44), 0);
    assert_eq!(if_, 0);
}

#[test]
fn lcd_steps_only_raise_interrupt_flags() {
    let mut g = lcd();
    g.write(0xFF41, 0x08);
    let mut if_ = 0x84;
    steps(&mut g, 16418, &mut if_);
    assert_eq!(if_ & 0xFC, 0x84);
    assert_eq!(if_ & 0x03, 0x03);
}
