//! A ROM-only Game Boy cartridge: header parsing and unbanked ROM reads.

use vstd::prelude::*;
use crate::bits;
pub use crate::gb::cart::MBC;
use crate::gb::cart::{
    decode_mbc, decode_ram_size, decode_rom_size, mbc_of, parse_title, ram_size_kib,
    rom_size_kib, title_spec, type_has_battery, type_has_ram,
};

verus! {

#[derive(Default)]
pub struct Cartridge {
    /// [0x0 -] Cartridge ROM (loaded from ROM file)
    pub rom: Vec<u8>,
    /// [-] Cartridge RAM
    pub ram: Vec<u8>,
    /// [0x134 - 0x0143] Title
    pub title: String,
    /// [0x0143] CGB Support Flag
    pub cgb: u8,
    /// [0x0146] SGB Support Flag
    pub sgb: u8,
    /// [0x0148] ROM Size (in bytes)
    pub rom_size: u32,
    /// [0x0149] RAM Size (in bytes)
    pub ram_size: u32,
    /// [0x0147] Type
    pub type_: u8,
    /// [0x0147] Memory Bank Controller (derived from type)
    pub mbc: MBC,
    /// [0x0147] Has Battery (derived from type)
    pub has_battery: bool,
    /// [0x0147] Has RAM (derived from type)
    pub has_ram: bool,
    /// [0x0147] Has Rumble (derived from type)
    pub has_rumble: bool,
    /// [0x0147] Has Timer (derived from type)
    pub has_timer: bool,
}

/// Whether a ROM image has a header this cartridge can parse: long enough, with known ROM
/// size, cartridge type and (except for MBC2) RAM size. Any MBC is accepted.
pub open spec fn header_known(rom: Seq<u8>) -> bool {
    &&& rom.len() > 0x149
    &&& rom_size_kib(rom[0x148]) is Some
    &&& mbc_of(rom[0x147]) is Some
    &&& mbc_of(rom[0x147]).unwrap() != MBC::MBC2 ==> ram_size_kib(rom[0x149]) is Some
}

/// Checks a ROM image's header (see `header_known`).
pub fn is_header_known(rom: &Vec<u8>) -> (r: bool)
    ensures
        r == header_known(rom@),
{
    if rom.len() <= 0x149 || decode_rom_size(rom[0x148]).is_none() {
        return false;
    }
    match decode_mbc(rom[0x147]) {
        None => false,
        Some(mbc) => mbc == MBC::MBC2 || decode_ram_size(rom[0x149]).is_some(),
    }
}

impl Cartridge {
    /// Loads a ROM image (appended to the current ROM contents, as a file read would) and
    /// parses its header. Unlike the banked cartridge, RAM is not allocated.
    pub fn load(&mut self, data: Vec<u8>)
        requires
            header_known(old(self).rom@ + data@),
        ensures
            final(self).rom@ == old(self).rom@ + data@,
            final(self).ram@ == old(self).ram@,
            final(self).rom_size == (rom_size_kib(final(self).rom@[0x148]).unwrap() * 1024) as u32,
            final(self).sgb == final(self).rom@[0x146],
            final(self).cgb == final(self).rom@[0x143],
            final(self).type_ == final(self).rom@[0x147],
            final(self).mbc == mbc_of(final(self).type_).unwrap(),
            final(self).has_battery == type_has_battery(final(self).type_),
            final(self).has_ram == type_has_ram(final(self).type_, final(self).mbc),
            final(self).has_timer == (final(self).type_ == 0x0F || final(self).type_ == 0x10),
            final(self).has_rumble == (0x1C <= final(self).type_ <= 0x1E),
            final(self).ram_size == if final(self).mbc == MBC::MBC2 {
                512
            } else {
                (ram_size_kib(final(self).rom@[0x149]).unwrap() * 1024) as u32
            },
            final(self).title@ == title_spec(final(self).rom@),
    {
        let mut data = data;
        self.rom.append(&mut data);
        let rom_kib = decode_rom_size(self.rom[0x148]).unwrap();
        self.rom_size = rom_kib * 1024;
        self.sgb = self.rom[0x0146];
        self.cgb = self.rom[0x0143];
        self.type_ = self.rom[0x0147];
        let kind = self.type_;
        let mbc = decode_mbc(kind).unwrap();
        self.mbc = mbc;
        self.has_battery = kind == 0x03 || kind == 0x06 || kind == 0x09 || kind == 0x0D || kind
            == 0x0F || kind == 0x10 || kind == 0x13 || kind == 0x17 || kind == 0x1B || kind == 0x1E
            || kind == 0xFF;
        self.has_ram = (self.has_battery && kind != 0x0F) || mbc == MBC::MBC2 || (kind == 0x02
            || kind == 0x08 || kind == 0x0C || kind == 0x12 || kind == 0x16 || kind == 0x1A || kind
            == 0x1D);
        self.has_timer = kind == 0x0F || kind == 0x10;
        self.has_rumble = 0x1C <= kind && kind <= 0x1E;
        self.ram_size = if mbc == MBC::MBC2 {
            512
        } else {
            decode_ram_size(self.rom[0x0149]).unwrap() * 1024
        };
        self.title = parse_title(&self.rom);
    }

    /// The value a read returns: the ROM byte for 0x0000 - 0x7FFF, 0xFF elsewhere.
    pub open spec fn read_spec(&self, address: u16) -> u8 {
        if address <= 0x7FFF { self.rom@[address as int] } else { 0xFF }
    }

    pub fn read(&mut self, address: u16) -> (r: u8)
        requires
            address <= 0x7FFF ==> address < old(self).rom.len(),
        ensures
            r == old(self).read_spec(address),
            *final(self) == *old(self),
    {
        if address <= 0x7FFF {
            self.rom[address as usize]
        } else {
            // Unhandled
            0xFF
        }
    }

    /// Writes are ignored (no MBC or RAM is modelled).
    pub fn write(&mut self, address: u16, value: u8)
        ensures
            *final(self) == *old(self),
    {
    }
}

} // verus!
