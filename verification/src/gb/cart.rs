//! Game Boy cartridge: header parsing and the memory bank controllers (MBC1/2/3/5).

use vstd::prelude::*;
use crate::ascii::{ascii_chars, ascii_string};
use crate::bits;
use crate::bits::mask_spec;

verus! {

#[derive(PartialEq, Eq, Structural, Debug, Clone, Copy)]
pub enum MBC {
    /// No MBC (less than 32 KiB)
    RomOnly,
    MBC1,
    MBC2,
    MBC3,
    MBC4,
    MBC5,
    PocketCamera,
    BandaiTama5,
    HUC3,
    HUC1,
    MMM01,
}

impl Default for MBC {
    fn default() -> (r: MBC)
        ensures
            r == MBC::RomOnly,
    {
        MBC::RomOnly
    }
}

/// The ROM size in KiB for the header code at 0x148, if the code is known.
pub open spec fn rom_size_kib(code: u8) -> Option<u32> {
    if code == 0 {
        Some(32)
    } else if code == 1 {
        Some(64)
    } else if code == 2 {
        Some(128)
    } else if code == 3 {
        Some(256)
    } else if code == 4 {
        Some(512)
    } else if code == 5 {
        Some(1024)
    } else if code == 6 {
        Some(2048)
    } else if code == 7 {
        Some(4096)
    } else if code == 0x52 {
        Some(1152)
    } else if code == 0x53 {
        Some(1280)
    } else if code == 0x54 {
        Some(1536)
    } else {
        None
    }
}

/// The memory bank controller for the cartridge type at 0x147, if the type is known.
pub open spec fn mbc_of(kind: u8) -> Option<MBC> {
    if kind == 0x00 || kind == 0x08 || kind == 0x09 {
        Some(MBC::RomOnly)
    } else if 0x01 <= kind <= 0x03 {
        Some(MBC::MBC1)
    } else if kind == 0x05 || kind == 0x06 {
        Some(MBC::MBC2)
    } else if 0x0B <= kind <= 0x0D {
        Some(MBC::MMM01)
    } else if 0x0F <= kind <= 0x13 {
        Some(MBC::MBC3)
    } else if 0x15 <= kind <= 0x17 {
        Some(MBC::MBC4)
    } else if 0x19 <= kind <= 0x1E {
        Some(MBC::MBC5)
    } else if kind == 0xFC {
        Some(MBC::PocketCamera)
    } else if kind == 0xFD {
        Some(MBC::BandaiTama5)
    } else if kind == 0xFE {
        Some(MBC::HUC3)
    } else if kind == 0xFF {
        Some(MBC::HUC1)
    } else {
        None
    }
}

/// Whether the cartridge type has battery-backed RAM.
pub open spec fn type_has_battery(kind: u8) -> bool {
    kind == 0x03 || kind == 0x06 || kind == 0x09 || kind == 0x0D || kind == 0x0F || kind == 0x10
        || kind == 0x13 || kind == 0x17 || kind == 0x1B || kind == 0x1E || kind == 0xFF
}

/// Whether the cartridge type has RAM.
pub open spec fn type_has_ram(kind: u8, mbc: MBC) -> bool {
    (type_has_battery(kind) && kind != 0x0F) || mbc == MBC::MBC2 || kind == 0x02 || kind == 0x08
        || kind == 0x0C || kind == 0x12 || kind == 0x16 || kind == 0x1A || kind == 0x1D
}

/// The RAM size in KiB for the header code at 0x149, if the code is known.
pub open spec fn ram_size_kib(code: u8) -> Option<u32> {
    if code == 0 {
        Some(0)
    } else if code == 1 {
        Some(2)
    } else if code == 2 {
        Some(8)
    } else if code == 3 {
        Some(32)
    } else {
        None
    }
}

/// Whether the MBC is one this cartridge implements.
pub open spec fn mbc_supported(mbc: MBC) -> bool {
    mbc == MBC::RomOnly || mbc == MBC::MBC1 || mbc == MBC::MBC2 || mbc == MBC::MBC3 || mbc == MBC::MBC5
}

/// Whether a title byte is printable ASCII.
pub open spec fn title_byte(b: u8) -> bool {
    0x20 <= b <= 0x7F
}

/// The end of the title: the first index at or after `i` (counted from 0x134) whose byte is
/// not printable, or 16.
pub open spec fn title_end(rom: Seq<u8>, i: nat) -> nat
    decreases 16 - i,
{
    if i >= 16 || !title_byte(rom[0x134 + i as int]) {
        i
    } else {
        title_end(rom, i + 1)
    }
}

/// The title: the printable ASCII bytes from 0x134, up to the first other byte and at most 16.
pub open spec fn title_spec(rom: Seq<u8>) -> Seq<char> {
    ascii_chars(rom.subrange(0x134, 0x134 + title_end(rom, 0) as int))
}

/// Whether a ROM image has a header this cartridge can load: long enough, with known ROM size,
/// cartridge type and (except for MBC2) RAM size, and a supported MBC.
pub open spec fn header_supported(rom: Seq<u8>) -> bool {
    &&& rom.len() > 0x149
    &&& rom_size_kib(rom[0x148]) is Some
    &&& mbc_of(rom[0x147]) is Some
    &&& mbc_supported(mbc_of(rom[0x147]).unwrap())
    &&& mbc_of(rom[0x147]).unwrap() != MBC::MBC2 ==> ram_size_kib(rom[0x149]) is Some
}

/// The ROM bank number after wrapping it to the MBC's bank mask and bumping the banks the
/// MBC cannot select.
///     MBC1: 0, 20h, 40h, and 60h cannot be selected; max of 0x7F
///     MBC2: 0 cannot be selected; max of 0xF
///     MBC3: 0 cannot be selected; max of 0x7F
///     MBC5: masked with 0x1E0
pub open spec fn limited_bank(mbc: MBC, bank: usize) -> usize {
    let m: usize = if mbc == MBC::MBC1 || mbc == MBC::MBC3 {
        bank & 0x7F
    } else if mbc == MBC::MBC2 {
        bank & 0xF
    } else if mbc == MBC::MBC5 {
        bank & 0x1E0
    } else {
        0
    };
    if mbc == MBC::MBC1 && (m == 0 || m == 0x20 || m == 0x40 || m == 0x60) {
        (m + 1) as usize
    } else if (mbc == MBC::MBC2 || mbc == MBC::MBC3) && m == 0 {
        1
    } else {
        m
    }
}

#[derive(Default)]
pub struct Cartridge {
    /// [0x0 -] Cartridge ROM (loaded from ROM file)
    pub rom: Vec<u8>,
    /// [-] Cartridge RAM
    pub ram: Vec<u8>,
    /// [0x134 - 0x0143] Title
    pub title: String,
    /// [0x0143] CGB Support Flag
    pub cgb: u8,
    /// [0x0146] SGB Support Flag
    pub sgb: u8,
    /// [0x0148] ROM Size (in bytes)
    pub rom_size: u32,
    /// [0x0149] RAM Size (in bytes)
    pub ram_size: u32,
    /// [0x0147] Type
    pub type_: u8,
    /// [0x0147] Memory Bank Controller (derived from type)
    pub mbc: MBC,
    /// [0x0147] Has Battery (derived from type)
    pub has_battery: bool,
    /// [0x0147] Has RAM (derived from type)
    pub has_ram: bool,
    /// [0x0147] Has Rumble (derived from type)
    pub has_rumble: bool,
    /// [0x0147] Has Timer (derived from type)
    pub has_timer: bool,
    /// Selected ROM Bank
    pub rom_bank: usize,
    /// Selected RAM Bank
    pub ram_bank: usize,
    /// RAM Enabled (currently)
    pub ram_enable: bool,
    /// Timer Enabled (currently)
    pub timer_enable: bool,
    /// MBC1 Banking Mode ROM/RAM (true=RAM, false=ROM)
    pub mbc1_mode: bool,
}

/// The header-derived state of a cartridge (everything `load` sets).
pub struct Header {
    pub rom_size: u32,
    pub ram_size: u32,
    pub sgb: u8,
    pub cgb: u8,
    pub kind: u8,
    pub mbc: MBC,
    pub has_battery: bool,
    pub has_ram: bool,
    pub has_timer: bool,
    pub has_rumble: bool,
}

/// RAM resized to `n` bytes: cut to its first `n` bytes, or extended with zeros.
pub open spec fn resized(ram: Seq<u8>, n: nat) -> Seq<u8> {
    if n <= ram.len() {
        ram.take(n as int)
    } else {
        ram + Seq::new((n - ram.len()) as nat, |i: int| 0u8)
    }
}

/// The header fields decoded from a supported ROM image.
pub open spec fn header_spec(rom: Seq<u8>) -> Header {
    let kind = rom[0x147];
    let mbc = mbc_of(kind).unwrap();
    Header {
        rom_size: (rom_size_kib(rom[0x148]).unwrap() * 1024) as u32,
        ram_size: if mbc == MBC::MBC2 { 512 } else { (ram_size_kib(rom[0x149]).unwrap() * 1024) as u32 },
        sgb: rom[0x146],
        cgb: rom[0x143],
        kind,
        mbc,
        has_battery: type_has_battery(kind),
        has_ram: type_has_ram(kind, mbc),
        has_timer: kind == 0x0F || kind == 0x10,
        has_rumble: 0x1C <= kind <= 0x1E,
    }
}

/// Checks a ROM image's header (see `header_supported`).
pub fn is_header_supported(rom: &Vec<u8>) -> (r: bool)
    ensures
        r == header_supported(rom@),
{
    if rom.len() <= 0x149 {
        return false;
    }
    if decode_rom_size(rom[0x148]).is_none() {
        return false;
    }
    match decode_mbc(rom[0x147]) {
        None => false,
        Some(mbc) => {
            if !(mbc == MBC::RomOnly || mbc == MBC::MBC1 || mbc == MBC::MBC2 || mbc == MBC::MBC3
                || mbc == MBC::MBC5) {
                false
            } else if mbc != MBC::MBC2 && decode_ram_size(rom[0x149]).is_none() {
                false
            } else {
                true
            }
        },
    }
}

/// Decodes the ROM size code (see `rom_size_kib`).
pub fn decode_rom_size(code: u8) -> (r: Option<u32>)
    ensures
        r == rom_size_kib(code),
{
    match code {
        0 => Some(32),
        1 => Some(64),
        2 => Some(128),
        3 => Some(256),
        4 => Some(512),
        5 => Some(1024),
        6 => Some(2048),
        7 => Some(4096),
        0x52 => Some(1152),
        0x53 => Some(1280),
        0x54 => Some(1536),
        _ => None,
    }
}

/// Decodes the cartridge type into its MBC (see `mbc_of`).
pub fn decode_mbc(kind: u8) -> (r: Option<MBC>)
    ensures
        r == mbc_of(kind),
{
    if kind == 0x00 || kind == 0x08 || kind == 0x09 {
        Some(MBC::RomOnly)
    } else if 0x01 <= kind && kind <= 0x03 {
        Some(MBC::MBC1)
    } else if kind == 0x05 || kind == 0x06 {
        Some(MBC::MBC2)
    } else if 0x0B <= kind && kind <= 0x0D {
        Some(MBC::MMM01)
    } else if 0x0F <= kind && kind <= 0x13 {
        Some(MBC::MBC3)
    } else if 0x15 <= kind && kind <= 0x17 {
        Some(MBC::MBC4)
    } else if 0x19 <= kind && kind <= 0x1E {
        Some(MBC::MBC5)
    } else if kind == 0xFC {
        Some(MBC::PocketCamera)
    } else if kind == 0xFD {
        Some(MBC::BandaiTama5)
    } else if kind == 0xFE {
        Some(MBC::HUC3)
    } else if kind == 0xFF {
        Some(MBC::HUC1)
    } else {
        None
    }
}

/// Decodes the RAM size code (see `ram_size_kib`).
pub fn decode_ram_size(code: u8) -> (r: Option<u32>)
    ensures
        r == ram_size_kib(code),
{
    match code {
        0 => Some(0),
        1 => Some(2),
        2 => Some(8),
        3 => Some(32),
        _ => None,
    }
}

impl Cartridge {
    pub fn reset(&mut self)
        ensures
            final(self).rom_bank == 1,
            final(self).ram_bank == 0,
            !final(self).ram_enable,
            !final(self).timer_enable,
            !final(self).mbc1_mode,
            final(self).rom@ == old(self).rom@,
            final(self).ram@ == old(self).ram@,
            final(self).header() == old(self).header(),
            final(self).title@ == old(self).title@,
    {
        self.rom_bank = 1;
        self.ram_bank = 0;
        self.ram_enable = false;
        self.timer_enable = false;
        self.mbc1_mode = false;
    }

    /// The header fields of this cartridge.
    pub open spec fn header(&self) -> Header {
        Header {
            rom_size: self.rom_size,
            ram_size: self.ram_size,
            sgb: self.sgb,
            cgb: self.cgb,
            kind: self.type_,
            mbc: self.mbc,
            has_battery: self.has_battery,
            has_ram: self.has_ram,
            has_timer: self.has_timer,
            has_rumble: self.has_rumble,
        }
    }

    /// Loads a ROM image (appended to the current ROM contents, as a file read would) and
    /// parses its header: sizes, support flags, MBC and features, title. The RAM is resized
    /// to the RAM size, filled with zeros where it grows.
    pub fn load(&mut self, data: Vec<u8>)
        requires
            header_supported(old(self).rom@ + data@),
        ensures
            final(self).rom@ == old(self).rom@ + data@,
            final(self).header() == header_spec(final(self).rom@),
            final(self).ram@ == resized(old(self).ram@, final(self).ram_size as nat),
            final(self).title@ == title_spec(final(self).rom@),
            final(self).rom_bank == old(self).rom_bank,
            final(self).ram_bank == old(self).ram_bank,
            final(self).ram_enable == old(self).ram_enable,
            final(self).timer_enable == old(self).timer_enable,
            final(self).mbc1_mode == old(self).mbc1_mode,
    {
        let mut data = data;
        self.rom.append(&mut data);
        let rom_kib = decode_rom_size(self.rom[0x148]).unwrap();
        self.rom_size = rom_kib * 1024;
        self.sgb = self.rom[0x0146];
        self.cgb = self.rom[0x0143];
        self.type_ = self.rom[0x0147];
        let kind = self.type_;
        let mbc = decode_mbc(kind).unwrap();
        self.mbc = mbc;
        self.has_battery = kind == 0x03 || kind == 0x06 || kind == 0x09 || kind == 0x0D || kind
            == 0x0F || kind == 0x10 || kind == 0x13 || kind == 0x17 || kind == 0x1B || kind == 0x1E
            || kind == 0xFF;
        self.has_ram = (self.has_battery && kind != 0x0F) || mbc == MBC::MBC2 || (kind == 0x02
            || kind == 0x08 || kind == 0x0C || kind == 0x12 || kind == 0x16 || kind == 0x1A || kind
            == 0x1D);
        self.has_timer = kind == 0x0F || kind == 0x10;
        self.has_rumble = 0x1C <= kind && kind <= 0x1E;
        self.ram_size = if mbc == MBC::MBC2 {
            512
        } else {
            decode_ram_size(self.rom[0x0149]).unwrap() * 1024
        };
        self.ram.resize(self.ram_size as usize, 0);
        assert(self.ram@ =~= resized(old(self).ram@, self.ram_size as nat));
        self.title = parse_title(&self.rom);
    }

    /// The value a read of `address` returns: ROM bank 0, the selected ROM bank, or the
    /// selected RAM bank when RAM is enabled and large enough (0xFF otherwise).
    pub open spec fn read_spec(&self, address: u16) -> u8 {
        if address <= 0x3FFF {
            self.rom@[address as int]
        } else if address <= 0x7FFF {
            self.rom@[self.rom_bank * 0x4000 + (address - 0x4000)]
        } else if 0xA000 <= address <= 0xBFFF {
            let i = (address - 0xA000) + self.ram_bank * 0x2000;
            if self.ram_enable && i < self.ram_size {
                self.ram@[i]
            } else {
                0xFF
            }
        } else {
            0xFF
        }
    }

    /// The bank arithmetic and indexing of a read stay in bounds.
    pub open spec fn read_ok(&self, address: u16) -> bool {
        &&& address <= 0x3FFF ==> address < self.rom.len()
        &&& 0x4000 <= address <= 0x7FFF ==> self.rom_bank * 0x4000 + (address - 0x4000) < self.rom.len()
        &&& 0xA000 <= address <= 0xBFFF ==> {
            &&& self.ram_bank * 0x2000 + 0x2000 <= usize::MAX
            &&& self.ram_enable && (address - 0xA000) + self.ram_bank * 0x2000 < self.ram_size
                ==> (address - 0xA000) + self.ram_bank * 0x2000 < self.ram.len()
        }
    }

    pub fn read(&mut self, address: u16) -> (r: u8)
        requires
            old(self).read_ok(address),
        ensures
            r == old(self).read_spec(address),
            *final(self) == *old(self),
    {
        if address <= 0x3FFF {
            // ROM Bank $0
            self.rom[address as usize]
        } else if address <= 0x7FFF {
            // ROM Bank $<N>
            self.rom[(self.rom_bank * 0x4000) + (address - 0x4000) as usize]
        } else if 0xA000 <= address && address <= 0xBFFF {
            // RAM Bank $<N>
            let i = (address - 0xA000) as usize + (self.ram_bank * 0x2000);
            if self.ram_enable && i < (self.ram_size as usize) {
                self.ram[i]
            } else {
                // RAM is disabled (or too small)
                0xFF
            }
        } else {
            0xFF
        }
    }

    /// Wraps and bumps the selected ROM bank (see `limited_bank`).
    pub fn limit_rom_bank(&mut self)
        ensures
            final(self).rom_bank == limited_bank(old(self).mbc, old(self).rom_bank),
            final(self).header() == old(self).header(),
            final(self).title@ == old(self).title@,
            final(self).mbc == old(self).mbc,
            final(self).ram_bank == old(self).ram_bank,
            final(self).ram_enable == old(self).ram_enable,
            final(self).timer_enable == old(self).timer_enable,
            final(self).mbc1_mode == old(self).mbc1_mode,
            final(self).rom@ == old(self).rom@,
            final(self).ram@ == old(self).ram@,
            final(self).ram_size == old(self).ram_size,
    {
        let m: usize = if self.mbc == MBC::MBC1 || self.mbc == MBC::MBC3 {
            0x7F
        } else if self.mbc == MBC::MBC2 {
            0xF
        } else if self.mbc == MBC::MBC5 {
            0x1E0
        } else {
            0
        };
        self.rom_bank = self.rom_bank & m;
        proof {
            assert((self.rom_bank & 0) == 0usize) by (bit_vector);
            bits::lemma_and_bound_usize();
        }
        if self.mbc == MBC::MBC1 {
            if self.rom_bank == 0 || self.rom_bank == 0x20 || self.rom_bank == 0x40 || self.rom_bank
                == 0x60 {
                self.rom_bank += 1;
            }
        } else if self.mbc == MBC::MBC2 || self.mbc == MBC::MBC3 {
            if self.rom_bank == 0 {
                self.rom_bank += 1;
            }
        }
    }

    /// The banking state: (ROM bank, RAM bank, RAM enable, timer enable, MBC1 mode).
    pub open spec fn banking(&self) -> (usize, usize, bool, bool, bool) {
        (self.rom_bank, self.ram_bank, self.ram_enable, self.timer_enable, self.mbc1_mode)
    }

    /// The banking state after a write of `value` to `address`.
    pub open spec fn banking_written(&self, address: u16, value: u8) -> (usize, usize, bool, bool, bool) {
        let (rom_bank, ram_bank, ram_enable, timer_enable, mbc1_mode) = self.banking();
        let mbc = self.mbc;
        if address <= 0x1FFF {
            let en = value & 0x0A != 0;
            (rom_bank, ram_bank, en, if mbc == MBC::MBC3 { en } else { timer_enable }, mbc1_mode)
        } else if 0x2000 <= address <= 0x2FFF && mbc == MBC::MBC5 {
            (limited_bank(mbc, (rom_bank & !0xFFusize) | (value as usize)), ram_bank, ram_enable,
                timer_enable, mbc1_mode)
        } else if 0x3000 <= address <= 0x3FFF && mbc == MBC::MBC5 {
            (limited_bank(mbc, (rom_bank & !0x100usize) | (((value & 1) as usize) << 8usize)),
                ram_bank, ram_enable, timer_enable, mbc1_mode)
        } else if 0x2000 <= address <= 0x3FFF {
            if (mbc == MBC::MBC1 || mbc == MBC::MBC2 || mbc == MBC::MBC3) && !(mbc == MBC::MBC2
                && address & 0x100 == 0) {
                let m = mask_spec(if mbc == MBC::MBC1 { 5 } else if mbc == MBC::MBC2 { 4 } else { 7 });
                (limited_bank(mbc, (rom_bank & ((!m) as usize)) | ((value & m) as usize)), ram_bank,
                    ram_enable, timer_enable, mbc1_mode)
            } else {
                self.banking()
            }
        } else if 0x4000 <= address <= 0x5FFF {
            let select_ram = (mbc == MBC::MBC1 && mbc1_mode) || (mbc == MBC::MBC3 && value < 8)
                || mbc == MBC::MBC5;
            let ram_bank2 = if select_ram {
                (value as usize) & (if mbc == MBC::MBC1 || mbc == MBC::MBC3 { 3usize } else { 0xFusize })
            } else {
                ram_bank
            };
            let rom_bank2 = if mbc == MBC::MBC1 && !mbc1_mode {
                limited_bank(mbc, (rom_bank & !0x60usize) | (((value & 3) as usize) << 5usize))
            } else {
                rom_bank
            };
            (rom_bank2, ram_bank2, ram_enable, timer_enable, mbc1_mode)
        } else if 0x6000 <= address <= 0x7FFF && mbc == MBC::MBC1 {
            (rom_bank, ram_bank, ram_enable, timer_enable, value & 1 != 0)
        } else {
            self.banking()
        }
    }

    /// The RAM index a RAM-area access of `address` uses.
    pub open spec fn ram_index(&self, address: u16) -> int {
        (address - 0xA000) + self.ram_bank * 0x2000
    }

    /// The RAM after a write of `value` to `address`: only an enabled, in-range RAM-area
    /// write changes it.
    pub open spec fn ram_written(&self, address: u16, value: u8) -> Seq<u8> {
        if 0xA000 <= address <= 0xBFFF && self.ram_enable && self.ram_index(address) < self.ram_size {
            self.ram@.update(self.ram_index(address), value)
        } else {
            self.ram@
        }
    }

    /// The RAM arithmetic and indexing of a write stay in bounds.
    pub open spec fn write_ok(&self, address: u16) -> bool {
        0xA000 <= address <= 0xBFFF ==> {
            &&& self.ram_bank * 0x2000 + 0x2000 <= usize::MAX
            &&& self.ram_enable && self.ram_index(address) < self.ram_size ==> self.ram_index(address)
                < self.ram.len()
        }
    }

    pub fn write(&mut self, address: u16, value: u8)
        requires
            old(self).write_ok(address),
        ensures
            final(self).banking() == old(self).banking_written(address, value),
            final(self).ram@ == old(self).ram_written(address, value),
            final(self).rom@ == old(self).rom@,
            final(self).header() == old(self).header(),
            final(self).title@ == old(self).title@,
    {
        if address <= 0x1FFF {
            // RAM Enable: MBC1, MBC2, MBC3 (*), MBC5
            self.ram_enable = (value & 0x0A) != 0;
            // MBC3 additionally affects the `timer_enable` flag here
            if self.mbc == MBC::MBC3 {
                self.timer_enable = self.ram_enable;
            }
        } else if 0x2000 <= address && address <= 0x2FFF && self.mbc == MBC::MBC5 {
            // MBC5: Lower 8 bits of ROM bank number
            self.rom_bank = (self.rom_bank & !0xFFusize) | (value as usize);
            self.limit_rom_bank();
        } else if 0x3000 <= address && address <= 0x3FFF && self.mbc == MBC::MBC5 {
            // MBC5: Upper 1 bits of ROM bank number
            self.rom_bank = (self.rom_bank & !0x100usize) | (((value & 0x01) as usize) << 8usize);
            self.limit_rom_bank();
        } else if 0x2000 <= address && address <= 0x3FFF {
            // MBC1: Lower 5 bits of ROM bank number
            // MBC2: Lower (all) 4 bits; bit8 of address must be 1 of ROM bank number
            // MBC3: Lower (all) 7 bits of ROM bank number
            let n: u8 = if self.mbc == MBC::MBC1 {
                5
            } else if self.mbc == MBC::MBC2 {
                4
            } else if self.mbc == MBC::MBC3 {
                7
            } else {
                return;
            };
            let mask = bits::mask(n);
            // In MBC2; the 8th bit of the address must be 1
            if self.mbc == MBC::MBC2 && (address & 0x100) == 0 {
                return;
            }
            self.rom_bank = (self.rom_bank & ((!mask) as usize)) | ((value & mask) as usize);
            self.limit_rom_bank();
        } else if 0x4000 <= address && address <= 0x5FFF {
            // MBC1: RAM Bank Number - or - Upper 2 Bits of ROM Bank Number
            // MBC3: RAM Bank Number - or - RTC Register Select
            // MBC5: RAM Bank Number - and - Rumble ON/OFF
            if (self.mbc == MBC::MBC1 && self.mbc1_mode) || (self.mbc == MBC::MBC3 && value < 0x08)
                || (self.mbc == MBC::MBC5) {
                let m: usize = if self.mbc == MBC::MBC1 || self.mbc == MBC::MBC3 {
                    0x3
                } else {
                    0xF
                };
                self.ram_bank = (value as usize) & m;
            }
            if self.mbc == MBC::MBC1 && !self.mbc1_mode {
                // MBC1 ROM Banking Mode
                self.rom_bank = (self.rom_bank & !0x60usize) | (((value & 0x3) as usize) << 5usize);
                self.limit_rom_bank();
            }
        } else if 0x6000 <= address && address <= 0x7FFF && self.mbc == MBC::MBC1 {
            // MBC1: ROM/RAM Mode Select
            self.mbc1_mode = value & 1 != 0;
        } else if 0xA000 <= address && address <= 0xBFFF {
            // RAM Bank $<N>
            let i = (address - 0xA000) as usize + self.ram_bank * 0x2000;
            if self.ram_enable && i < (self.ram_size as usize) {
                self.ram.set(i, value);
            }
        }
    }
}

/// Reads the title from the header (see `title_spec`).
pub fn parse_title(rom: &Vec<u8>) -> (s: String)
    requires
        rom.len() > 0x149,
    ensures
        s@ == title_spec(rom@),
{
    let mut bytes: Vec<u8> = Vec::new();
    let mut i: usize = 0;
    while i < 16 && 0x20 <= rom[0x134 + i] && rom[0x134 + i] <= 0x7F
        invariant
            i <= 16,
            rom.len() > 0x149,
            title_end(rom@, 0) == title_end(rom@, i as nat),
            bytes@ == rom@.subrange(0x134, 0x134 + i),
            forall|k: int| 0 <= k < bytes.len() ==> bytes@[k] < 0x80,
        decreases 16 - i,
    {
        let c = rom[0x134 + i];
        bytes.push(c);
        i = i + 1;
        assert(bytes@ =~= rom@.subrange(0x134, 0x134 + i));
    }
    assert(title_end(rom@, i as nat) == i);
    ascii_string(&bytes)
}

/// The banks an MBC cannot select are never selected: after limiting, MBC1 never selects
/// bank 0, 0x20, 0x40 or 0x60, and MBC2 and MBC3 never select bank 0.
pub proof fn law_unselectable_banks(mbc: MBC, bank: usize)
    ensures
        mbc == MBC::MBC1 ==> ({
            let b = limited_bank(mbc, bank);
            b != 0 && b != 0x20 && b != 0x40 && b != 0x60
        }),
        mbc == MBC::MBC2 || mbc == MBC::MBC3 ==> limited_bank(mbc, bank) != 0,
{
}

/// An MBC1 bank after limiting is always at most 0x7F with a non-zero low five bits.
pub proof fn lemma_mbc1_limited(bank: usize)
    ensures
        limited_bank(MBC::MBC1, bank) <= 0x7F,
        limited_bank(MBC::MBC1, bank) & 0x1F != 0,
{
    let m = bank & 0x7F;
    let b = limited_bank(MBC::MBC1, bank);
    assert(b == if m == 0 || m == 0x20 || m == 0x40 || m == 0x60 { (m + 1) as usize } else { m });
    assert(m <= 0x7F && (m == 0 || m == 0x20 || m == 0x40 || m == 0x60 || m & 0x1F != 0) && (m
        == 0 || m == 0x20 || m == 0x40 || m == 0x60 ==> ((m + 1) as usize) & 0x1F != 0))
        by (bit_vector)
        requires
            m == bank & 0x7F,
    ;
}

/// On an MBC1 cartridge whose selected ROM bank is one it can select (at most 0x7F, not
/// 0x00, 0x20, 0x40 or 0x60), no write of any value to any address selects another kind.
pub proof fn law_mbc1_bank_stays_selectable(c: Cartridge, address: u16, value: u8)
    requires
        c.mbc == MBC::MBC1,
        c.rom_bank <= 0x7F,
        c.rom_bank & 0x1F != 0,
    ensures
        c.banking_written(address, value).0 <= 0x7F,
        c.banking_written(address, value).0 & 0x1F != 0,
{
    let m = mask_spec(5);
    lemma_mbc1_limited((c.rom_bank & ((!m) as usize)) | ((value & m) as usize));
    lemma_mbc1_limited((c.rom_bank & !0x60usize) | (((value & 3) as usize) << 5usize));
}

/// A read of the RAM area gives the byte of the selected RAM bank when RAM is enabled and
/// the index lies within the RAM size, 0xFF otherwise; and after a write of `value` to an
/// enabled, in-range RAM address (`after` being the cartridge as `write` leaves it), a read
/// of that address gives `value`.
pub proof fn law_ram_read_after_write(c: Cartridge, after: Cartridge, address: u16, value: u8)
    requires
        0xA000 <= address <= 0xBFFF,
        c.ram@.len() == c.ram_size,
        after.banking() == c.banking_written(address, value),
        after.ram@ == c.ram_written(address, value),
        after.header() == c.header(),
    ensures
        c.read_spec(address) == if c.ram_enable && c.ram_index(address) < c.ram_size {
            c.ram@[c.ram_index(address)]
        } else {
            0xFF
        },
        c.ram_enable && c.ram_index(address) < c.ram_size ==> after.read_spec(address) == value,
{
}

/// On an MBC3 cartridge a write of `value` to 0x2000-0x3FFF selects ROM bank
/// `value & 0x7F` (bank 0 becoming bank 1), so that afterwards (`after` being the cartridge
/// as `write` leaves it) a read of 0x4000-0x7FFF reads that bank of the ROM.
pub proof fn law_mbc3_rom_bank_select(c: Cartridge, after: Cartridge, address: u16, value: u8, read_at: u16)
    requires
        c.mbc == MBC::MBC3,
        0x2000 <= address <= 0x3FFF,
        0x4000 <= read_at <= 0x7FFF,
        after.banking() == c.banking_written(address, value),
        after.rom@ == c.rom@,
    ensures
        ({
            let bank: int = if value & 0x7F == 0 { 1 } else { (value & 0x7F) as int };
            &&& after.rom_bank == bank
            &&& after.read_spec(read_at) == c.rom@[bank * 0x4000 + (read_at - 0x4000)]
        }),
{
    let m = mask_spec(7);
    let x = c.rom_bank;
    let y = ((x & ((!m) as usize)) | ((value & m) as usize)) & 0x7F;
    assert(m == 0x7F && y == (value & 0x7F) as usize) by (bit_vector)
        requires
            m == mask_spec(7),
            y == ((x & ((!m) as usize)) | ((value & m) as usize)) & 0x7F,
    ;
}

/// A write of `value` to 0x2000-0x3FFF selects the low bits of the ROM bank: on MBC1 the
/// low five bits become `value & 0x1F` (0 becoming 1) and the upper two are kept; on MBC2,
/// when bit 8 of the address is set, the bank becomes `value & 0xF` (0 becoming 1), and
/// when it is clear the write changes no bank. Afterwards (`after` being the cartridge as
/// `write` leaves it) a read of 0x4000-0x7FFF reads the selected bank of the ROM.
pub proof fn law_rom_bank_select(c: Cartridge, after: Cartridge, address: u16, value: u8, read_at: u16)
    requires
        c.mbc == MBC::MBC1 || c.mbc == MBC::MBC2,
        0x2000 <= address <= 0x3FFF,
        0x4000 <= read_at <= 0x7FFF,
        after.banking() == c.banking_written(address, value),
        after.rom@ == c.rom@,
    ensures
        c.mbc == MBC::MBC1 ==> after.rom_bank == (c.rom_bank & 0x60) | (if value & 0x1F == 0 {
            1usize
        } else {
            (value & 0x1F) as usize
        }),
        c.mbc == MBC::MBC2 && address & 0x100 != 0 ==> after.rom_bank == if value & 0xF == 0 {
            1usize
        } else {
            (value & 0xF) as usize
        },
        c.mbc == MBC::MBC2 && address & 0x100 == 0 ==> after.rom_bank == c.rom_bank,
        after.read_spec(read_at) == c.rom@[after.rom_bank * 0x4000 + (read_at - 0x4000)],
{
    let x = c.rom_bank;
    let m5 = mask_spec(5);
    let m4 = mask_spec(4);
    let a1 = ((x & ((!m5) as usize)) | ((value & m5) as usize)) & 0x7F;
    let a2 = ((x & ((!m4) as usize)) | ((value & m4) as usize)) & 0xF;
    assert({
        &&& a2 == (value & 0xF) as usize
        &&& a1 == (x & 0x60) | ((value & 0x1F) as usize)
        &&& (a1 == 0 || a1 == 0x20 || a1 == 0x40 || a1 == 0x60) == (value & 0x1F == 0)
        &&& value & 0x1F == 0 ==> a1 + 1 == (x & 0x60) | 1
    }) by (bit_vector)
        requires
            m5 == mask_spec(5),
            m4 == mask_spec(4),
            a1 == ((x & ((!m5) as usize)) | ((value & m5) as usize)) & 0x7F,
            a2 == ((x & ((!m4) as usize)) | ((value & m4) as usize)) & 0xF,
    ;
}

} // verus!
