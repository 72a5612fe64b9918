use wadatsumi::cart;
use wadatsumi::cartridge::{Cartridge, CartridgeError};
use wadatsumi::gb::cart::{decode_mbc, decode_ram_size, decode_rom_size, is_header_supported, parse_title, MBC};

const LOGO: [u8; 0x30] = [
    0xCE, 0xED, 0x66, 0x66, 0xCC, 0x0D, 0x00, 0x0B, 0x03, 0x73, 0x00, 0x83, 0x00, 0x0C, 0x00, 0x0D,
    0x00, 0x08, 0x11, 0x1F, 0x88, 0x89, 0x00, 0x0E, 0xDC, 0xCC, 0x6E, 0xE6, 0xDD, 0xDD, 0xD9, 0x99,
    0xBB, 0xBB, 0x67, 0x63, 0x6E, 0x0E, 0xEC, 0xCC, 0xDD, 0xDC, 0x99, 0x9F, 0xBB, 0xB9, 0x33, 0x3E,
];

fn header_checksum(data: &[u8]) -> u8 {
    let mut x: u8 = 0;
    for &b in &data[0x134..0x14D] {
        x = x.wrapping_sub(b).wrapping_sub(1);
    }
    x
}

/// A ROM image of `kib` KiB with the logo, title `title`, type `kind`, and size codes.
fn image(kib: usize, title: &[u8], kind: u8, rom_code: u8, ram_code: u8) -> Vec<u8> {
    let mut data = vec![0u8; kib * 1024];
    data[0x104..0x134].copy_from_slice(&LOGO);
    data[0x134..0x134 + title.len()].copy_from_slice(title);
    data[0x147] = kind;
    data[0x148] = rom_code;
    data[0x149] = ram_code;
    data[0x14D] = header_checksum(&data);
    data
}

#[test]
fn valid_image_is_read() {
    let mut data = image(32, b"TETRIS", 0, 0, 0);
    data[0x150] = 0xC3;
    let c = Cartridge::from_bytes(&data).unwrap();
    assert_eq!(c.title, "TETRIS");
    assert_eq!(c.read8(0x0150), 0xC3);
    assert_eq!(c.read8(0x0104), 0xCE);
    assert_eq!(c.read8(0x8000), 0);
}

#[test]
fn title_masks_high_bit_and_newer_cartridges_are_shorter() {
    let mut data = image(32, b"ABCDEFGHIJKLMNO", 0, 0, 0);
    data[0x134] = b'Z' | 0x80;
    data[0x14B] = 0x33;
    data[0x14D] = header_checksum(&data);
    let c = Cartridge::from_bytes(&data).unwrap();
    assert_eq!(c.title, "ZBCDEFGHIJK");
}

#[test]
fn write_is_ignored() {
    let data = image(32, b"X", 0, 0, 0);
    let mut c = Cartridge::from_bytes(&data).unwrap();
    c.write8(0x2000, 5);
    assert_eq!(c.read8(0x2000), 0);
}

#[test]
fn truncated_header() {
    assert_eq!(Cartridge::from_bytes(&vec![0u8; 0x100]).err(), Some(CartridgeError::Truncated));
}

#[test]
fn truncated_rom() {
    // Declares 64 KiB but holds only 32
    let data = image(32, b"X", 0, 1, 0);
    assert_eq!(Cartridge::from_bytes(&data).err(), Some(CartridgeError::Truncated));
}

#[test]
fn invalid_logo() {
    let mut data = image(32, b"X", 0, 0, 0);
    data[0x110] ^= 1;
    assert_eq!(Cartridge::from_bytes(&data).err(), Some(CartridgeError::InvalidLogo));
}

#[test]
fn unsupported_sizes() {
    let data = image(32, b"X", 0, 0x08, 0);
    assert_eq!(Cartridge::from_bytes(&data).err(), Some(CartridgeError::UnsupportedRomSize(0x08)));
    let data = image(32, b"X", 0, 0, 0x05);
    assert_eq!(Cartridge::from_bytes(&data).err(), Some(CartridgeError::UnsupportedRamSize(0x05)));
}

#[test]
fn requires_cgb() {
    let mut data = image(32, b"X", 0, 0, 0);
    data[0x143] = 0xC0;
    data[0x14D] = header_checksum(&data);
    assert_eq!(Cartridge::from_bytes(&data).err(), Some(CartridgeError::RequiresCgb));
    // CGB-enhanced but not CGB-only is fine
    data[0x143] = 0x80;
    data[0x14D] = header_checksum(&data);
    assert!(Cartridge::from_bytes(&data).is_ok());
}

#[test]
fn invalid_checksum() {
    let mut data = image(32, b"X", 0, 0, 0);
    let good = data[0x14D];
    data[0x14D] = good.wrapping_add(1);
    assert_eq!(
        Cartridge::from_bytes(&data).err(),
        Some(CartridgeError::InvalidChecksum { expected: good.wrapping_add(1), found: good })
    );
}

#[test]
fn ram_is_allocated_from_header() {
    let data = image(32, b"X", 0, 0, 0x02);
    assert!(Cartridge::from_bytes(&data).is_ok());
}

#[test]
fn gb_header_decoders() {
    assert_eq!(decode_rom_size(0), Some(32));
    assert_eq!(decode_rom_size(7), Some(4096));
    assert_eq!(decode_rom_size(0x53), Some(1280));
    assert_eq!(decode_rom_size(8), None);
    assert_eq!(decode_ram_size(3), Some(32));
    assert_eq!(decode_ram_size(4), None);
    assert_eq!(decode_mbc(0x00), Some(MBC::RomOnly));
    assert_eq!(decode_mbc(0x03), Some(MBC::MBC1));
    assert_eq!(decode_mbc(0x06), Some(MBC::MBC2));
    assert_eq!(decode_mbc(0x10), Some(MBC::MBC3));
    assert_eq!(decode_mbc(0x1E), Some(MBC::MBC5));
    assert_eq!(decode_mbc(0xFC), Some(MBC::PocketCamera));
    assert_eq!(decode_mbc(0x04), None);
}

#[test]
fn gb_header_support() {
    assert!(is_header_supported(&image(32, b"X", 0x01, 0, 0)));
    assert!(!is_header_supported(&image(32, b"X", 0xFC, 0, 0)));
    assert!(!is_header_supported(&vec![0u8; 0x149]));
    // MBC2 ignores the RAM size code
    assert!(is_header_supported(&image(32, b"X", 0x05, 0, 0x77)));
    assert!(!is_header_supported(&image(32, b"X", 0x01, 0, 0x77)));
}

#[test]
fn gb_title_stops_at_non_printable() {
    let mut data = image(32, b"POKEMON RED", 0, 0, 0);
    assert_eq!(parse_title(&data), "POKEMON RED");
    data[0x138] = 0x01;
    assert_eq!(parse_title(&data), "POKE");
    data[0x134..0x144].copy_from_slice(b"ABCDEFGHIJKLMNOP");
    data[0x144] = b'Q';
    assert_eq!(parse_title(&data), "ABCDEFGHIJKLMNOP");
}

fn mbc1_cartridge() -> wadatsumi::gb::cart::Cartridge {
    // 128 KiB MBC1+RAM+BATTERY with 8 KiB RAM; each bank starts with its number
    let mut data = image(128, b"BANKS", 0x03, 2, 2);
    for bank in 1..8 {
        data[bank * 0x4000] = bank as u8;
    }
    let mut c: wadatsumi::gb::cart::Cartridge = Default::default();
    c.load(data);
    c.reset();
    c
}

#[test]
fn gb_load_parses_header() {
    let c = mbc1_cartridge();
    assert_eq!(c.mbc, MBC::MBC1);
    assert_eq!(c.rom_size, 128 * 1024);
    assert_eq!(c.ram_size, 8 * 1024);
    assert_eq!(c.ram.len(), 8 * 1024);
    assert!(c.has_battery);
    assert!(c.has_ram);
    assert!(!c.has_timer);
    assert!(!c.has_rumble);
    assert_eq!(c.title, "BANKS");
    assert_eq!(c.rom_bank, 1);
}

#[test]
fn gb_mbc1_rom_banking() {
    let mut c = mbc1_cartridge();
    assert_eq!(c.read(0x4000), 1);
    c.write(0x2000, 5);
    assert_eq!(c.read(0x4000), 5);
    // bank 0 selects bank 1
    c.write(0x2000, 0);
    assert_eq!(c.rom_bank, 1);
    assert_eq!(c.read(0x4000), 1);
    assert_eq!(c.read(0x0104), 0xCE);
}

#[test]
fn gb_mbc1_ram_enable() {
    let mut c = mbc1_cartridge();
    c.write(0xA000, 0x42);
    assert_eq!(c.read(0xA000), 0xFF);
    c.write(0x0000, 0x0A);
    assert!(c.ram_enable);
    c.write(0xA000, 0x42);
    assert_eq!(c.read(0xA000), 0x42);
    c.write(0x0000, 0x00);
    assert_eq!(c.read(0xA000), 0xFF);
    assert_eq!(c.read(0xC000), 0xFF);
}

#[test]
fn gb_mbc1_mode_select() {
    let mut c = mbc1_cartridge();
    c.write(0x6000, 1);
    assert!(c.mbc1_mode);
    c.write(0x4000, 3);
    assert_eq!(c.ram_bank, 3);
    c.write(0x6000, 0);
    assert!(!c.mbc1_mode);
}

#[test]
fn gb_mbc1_bank_stays_selectable() {
    let mut c = mbc1_cartridge();
    for address in [0x2000u16, 0x3FFF, 0x4000, 0x5FFF, 0x6000, 0x0000] {
        for value in [0x00u8, 0x20, 0x40, 0x60, 0x7F, 0xE0, 0xFF] {
            c.write(address, value);
            assert!(c.rom_bank <= 0x7F);
            assert_ne!(c.rom_bank & 0x1F, 0);
        }
    }
}

#[test]
fn gb_limit_rom_bank() {
    let mut c = mbc1_cartridge();
    c.rom_bank = 0x20;
    c.limit_rom_bank();
    assert_eq!(c.rom_bank, 0x21);
    c.rom_bank = 0x85;
    c.limit_rom_bank();
    assert_eq!(c.rom_bank, 0x05);
}

#[test]
fn rom_only_cartridge() {
    let mut data = image(32, b"DEMO", 0x00, 0, 0);
    data[0x7FFF] = 0x99;
    assert!(cart::is_header_known(&data));
    let mut c: cart::Cartridge = Default::default();
    c.load(data);
    assert_eq!(c.mbc, cart::MBC::RomOnly);
    assert_eq!(c.rom_size, 32 * 1024);
    assert_eq!(c.title, "DEMO");
    assert_eq!(c.read(0x7FFF), 0x99);
    c.write(0x7FFF, 0);
    assert_eq!(c.read(0x7FFF), 0x99);
    assert_eq!(c.read(0xA000), 0xFF);
}

#[test]
fn gb_load_resizes_existing_ram() {
    let mut c: wadatsumi::gb::cart::Cartridge = Default::default();
    c.ram = vec![7u8; 4];
    c.load(image(32, b"X", 0x03, 0, 1));
    assert_eq!(c.ram.len(), 2048);
    assert_eq!(&c.ram[0..5], &[7, 7, 7, 7, 0]);
}
