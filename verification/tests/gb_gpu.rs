use wadatsumi::gb::gpu::{GPU, HEIGHT, WIDTH};
use wadatsumi::mode::Mode;

fn gpu(m: Mode) -> GPU {
    let mut g: GPU = Default::default();
    g.reset(m);
    g
}

fn steps(g: &mut GPU, n: usize, if_: &mut u8) -> usize {
    let mut refreshes = 0;
    for _ in 0..n {
        if g.step(if_) {
            refreshes += 1;
        }
    }
    refreshes
}

#[test]
fn reset_registers() {
    let g = gpu(Mode::GB_DMG);
    assert_eq!(g.read(0xFF40, false), 0x91);
    assert_eq!(g.read(0xFF41, false), 0x84);
    assert_eq!(g.read(0xFF47, false), 0xFC);
    assert_eq!(g.read(0xFF48, false), 0xFF);
    assert_eq!(g.read(0xFF49, false), 0xFF);
    assert_eq!(g.read(0xFF44, false), 0);
    assert_eq!(g.read(0x8000, false), 0);
    assert_eq!(g.read(0xFE00, false), 0);
    // unmapped
    assert_eq!(g.read(0xFF46, false), 0xFF);
}

#[test]
fn frame_of_reset_is_white() {
    let g = gpu(Mode::GB_DMG);
    let f = g.frame();
    assert_eq!(f.width, WIDTH);
    assert_eq!(f.height, HEIGHT);
    assert_eq!(f.pitch, WIDTH * 4);
    assert_eq!(f.data.len(), WIDTH * HEIGHT * 4);
    assert!(f.data.iter().all(|&b| b == 0xFF));
}

#[test]
fn register_roundtrip() {
    let mut g = gpu(Mode::GB_DMG);
    for (address, value) in [(0xFF42u16, 0x12u8), (0xFF43, 0x34), (0xFF45, 0x56), (0xFF47, 0x1B), (0xFF4A, 0x20), (0xFF4B, 0x07)] {
        g.write(address, value, false);
        assert_eq!(g.read(address, false), value);
    }
}

#[test]
fn ly_is_read_only() {
    let mut g = gpu(Mode::GB_DMG);
    g.write(0xFF44, 0x42, false);
    assert_eq!(g.read(0xFF44, false), 0);
}

#[test]
fn stat_keeps_mode_bits() {
    let mut g = gpu(Mode::GB_DMG);
    g.write(0xFF41, 0xFF, false);
    assert_eq!(g.read(0xFF41, false), 0xFC);
}

#[test]
fn vram_and_oam_roundtrip() {
    let mut g = gpu(Mode::GB_DMG);
    g.write(0x8010, 0xAA, false);
    assert_eq!(g.read(0x8010, false), 0xAA);
    g.write(0x9FFF, 0x55, true);
    assert_eq!(g.read(0x9FFF, false), 0x55);
    g.write(0xFE9F, 0x77, false);
    assert_eq!(g.read(0xFE9F, false), 0x77);
}

#[test]
fn oam_locked_during_dma() {
    let mut g = gpu(Mode::GB_DMG);
    g.write(0xFE00, 5, true);
    assert_eq!(g.read(0xFE00, false), 0);
    g.write(0xFE00, 5, false);
    assert_eq!(g.read(0xFE00, true), 0xFF);
    assert_eq!(g.read(0xFE00, false), 5);
}

#[test]
fn cgb_registers_hidden_on_gb() {
    let mut g = gpu(Mode::GB_DMG);
    g.write(0xFF4F, 1, false);
    assert_eq!(g.read(0xFF4F, false), 0xFF);
    assert_eq!(g.read(0xFF68, false), 0xFF);
}

#[test]
fn cgb_palette_auto_increment() {
    let mut g = gpu(Mode::CGB_CGB);
    assert_eq!(g.read(0xFF68, false), 0x40);
    g.write(0xFF68, 0x80, false);
    g.write(0xFF69, 0x12, false);
    assert_eq!(g.read(0xFF68, false), 0xC1);
    g.write(0xFF69, 0xFF, false);
    g.write(0xFF68, 0x00, false);
    assert_eq!(g.read(0xFF69, false), 0x12);
    g.write(0xFF68, 0x01, false);
    // every second byte has its top bit unused (reads 1)
    assert_eq!(g.read(0xFF69, false), 0xFF);
    g.write(0xFF6A, 0x05, false);
    g.write(0xFF6B, 0x33, false);
    assert_eq!(g.read(0xFF6B, false), 0xB3);
    assert_eq!(g.read(0xFF6A, false), 0x45);
}

#[test]
fn cgb_vram_bank() {
    let mut g = gpu(Mode::CGB_CGB);
    g.write(0x8000, 1, false);
    g.write(0xFF4F, 1, false);
    assert_eq!(g.read(0xFF4F, false), 1);
    assert_eq!(g.read(0x8000, false), 0);
    g.write(0x8000, 2, false);
    g.write(0xFF4F, 0, false);
    assert_eq!(g.read(0x8000, false), 1);
}

#[test]
fn lcd_off_resets_and_idles() {
    let mut g = gpu(Mode::GB_DMG);
    let mut if_ = 0;
    steps(&mut g, 100, &mut if_);
    g.write(0xFF40, 0x11, false);
    assert_eq!(g.read(0xFF40, false), 0x11);
    assert_eq!(g.read(0xFF41, false) & 0x03, 0);
    assert_eq!(g.read(0xFF44, false), 0);
    assert_eq!(steps(&mut g, 1000, &mut if_), 0);
    assert_eq!(g.read(0xFF41, false) & 0x03, 0);
    assert_eq!(if_, 0);
}

#[test]
fn scanline_mode_timing() {
    let mut g = gpu(Mode::GB_DMG);
    let mut if_ = 0;
    steps(&mut g, 4, &mut if_);
    assert_eq!(g.read(0xFF41, false) & 3, 0);
    steps(&mut g, 1, &mut if_);
    assert_eq!(g.read(0xFF41, false) & 3, 2);
    steps(&mut g, 79, &mut if_);
    assert_eq!(g.read(0xFF41, false) & 3, 2);
    steps(&mut g, 1, &mut if_);
    assert_eq!(g.read(0xFF41, false) & 3, 3);
    // VRAM cannot be read during mode 3; OAM not in modes 2 and 3
    assert_eq!(g.read(0x8000, false), 0xFF);
    assert_eq!(g.read(0xFE00, false), 0xFF);
    steps(&mut g, 174, &mut if_);
    assert_eq!(g.read(0xFF41, false) & 3, 3);
    steps(&mut g, 1, &mut if_);
    assert_eq!(g.read(0xFF41, false) & 3, 0);
    assert_eq!(g.read(0xFF44, false), 0);
    assert_eq!(if_, 0);
}

#[test]
fn sprite_lengthens_mode_3() {
    let mut g = gpu(Mode::GB_DMG);
    // One 8x8 sprite on line 0, at the left edge; sprites enabled
    g.write(0xFE00, 16, false);
    g.write(0xFE01, 8, false);
    g.write(0xFF40, 0x93, false);
    let mut if_ = 0;
    steps(&mut g, 260, &mut if_);
    assert_eq!(g.read(0xFF41, false) & 3, 3);
    steps(&mut g, 8, &mut if_);
    assert_eq!(g.read(0xFF41, false) & 3, 0);
}

#[test]
fn line_advances_after_456_cycles() {
    let mut g = gpu(Mode::GB_DMG);
    let mut if_ = 0;
    steps(&mut g, 456, &mut if_);
    assert_eq!(g.read(0xFF44, false), 0);
    steps(&mut g, 1, &mut if_);
    assert_eq!(g.read(0xFF44, false), 1);
}

#[test]
fn vblank_refresh_and_interrupt() {
    let mut g = gpu(Mode::GB_DMG);
    let mut if_ = 0;
    assert_eq!(steps(&mut g, 65668, &mut if_), 0);
    assert_eq!(if_ & 1, 0);
    assert_eq!(g.read(0xFF44, false), 144);
    assert_eq!(steps(&mut g, 1, &mut if_), 1);
    assert_eq!(if_ & 1, 1);
    assert_eq!(g.read(0xFF41, false) & 3, 1);
}

#[test]
fn stat_interrupt_on_mode_2() {
    let mut g = gpu(Mode::GB_DMG);
    g.write(0xFF41, 0x20, false);
    let mut if_ = 0;
    steps(&mut g, 5, &mut if_);
    assert_eq!(if_, 2);
}

#[test]
fn background_uses_palette() {
    let mut g = gpu(Mode::GB_DMG);
    // Colour 0 maps to shade 3 (black)
    g.write(0xFF47, 0x03, false);
    let mut if_ = 0;
    steps(&mut g, 85, &mut if_);
    let f = g.frame();
    assert_eq!(&f.data[0..4], &[0x00, 0x00, 0x00, 0xFF]);
    assert_eq!(&f.data[159 * 4..160 * 4], &[0x00, 0x00, 0x00, 0xFF]);
    // the next line is not drawn yet
    assert_eq!(&f.data[160 * 4..161 * 4], &[0xFF, 0xFF, 0xFF, 0xFF]);
}

#[test]
fn tile_pixels_follow_shades() {
    let mut g = gpu(Mode::GB_DMG);
    // Tile 0, row 0: low byte 0xFF, high byte 0x00 -> colour 1 for all 8 pixels
    g.write(0x8000, 0xFF, false);
    g.write(0xFF47, 0b1110_0100, false);
    let mut if_ = 0;
    steps(&mut g, 85, &mut if_);
    let f = g.frame();
    assert_eq!(&f.data[0..4], &[0xC0, 0xC0, 0xC0, 0xFF]);
    assert_eq!(&f.data[7 * 4..8 * 4], &[0xC0, 0xC0, 0xC0, 0xFF]);
}

#[test]
fn steps_only_raise_interrupt_flags() {
    let mut g = gpu(Mode::GB_DMG);
    g.write(0xFF41, 0x28, false);
    let mut if_ = 0xE0;
    steps(&mut g, 65669, &mut if_);
    assert_eq!(if_ & 0xFC, 0xE0);
    assert_eq!(if_ & 0x03, 0x03);
}
