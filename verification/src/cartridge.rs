//! A Game Boy cartridge read from a ROM image: the header is validated (Nintendo logo,
//! sizes, CGB requirement, header checksum) and the title extracted.

use vstd::prelude::*;
use crate::ascii::{ascii_chars, ascii_string};
use crate::bits;

verus! {

/// The bytes of the Nintendo logo every header holds at 0x104 - 0x133.
pub open spec fn nintendo_logo() -> Seq<u8> {
    seq![0xCE, 0xED, 0x66, 0x66, 0xCC, 0x0D, 0x00, 0x0B, 0x03, 0x73, 0x00, 0x83, 0x00, 0x0C, 0x00, 0x0D, 0x00, 0x08, 0x11, 0x1F, 0x88, 0x89, 0x00, 0x0E, 0xDC, 0xCC, 0x6E, 0xE6, 0xDD, 0xDD, 0xD9, 0x99, 0xBB, 0xBB, 0x67, 0x63, 0x6E, 0x0E, 0xEC, 0xCC, 0xDD, 0xDC, 0x99, 0x9F, 0xBB, 0xB9, 0x33, 0x3E]
}

/// The logo bytes.
fn logo() -> (r: [u8; 0x30])
    ensures
        r@ == nintendo_logo(),
{
    let r: [u8; 0x30] = [0xCE, 0xED, 0x66, 0x66, 0xCC, 0x0D, 0x00, 0x0B, 0x03, 0x73, 0x00, 0x83, 0x00, 0x0C, 0x00, 0x0D, 0x00, 0x08, 0x11, 0x1F, 0x88, 0x89, 0x00, 0x0E, 0xDC, 0xCC, 0x6E, 0xE6, 0xDD, 0xDD, 0xD9, 0x99, 0xBB, 0xBB, 0x67, 0x63, 0x6E, 0x0E, 0xEC, 0xCC, 0xDD, 0xDC, 0x99, 0x9F, 0xBB, 0xB9, 0x33, 0x3E];
    assert(r@ =~= nintendo_logo());
    r
}

/// Why a ROM image is refused.
#[derive(Debug, Clone, Copy, PartialEq, Eq, Structural)]
pub enum CartridgeError {
    /// The image ends before the header or before the ROM size the header declares.
    Truncated,
    /// The Nintendo logo at 0x104 - 0x133 is not intact.
    InvalidLogo,
    /// The ROM size code (0x148) is not one of the known ones.
    UnsupportedRomSize(u8),
    /// The RAM size code (0x149) is not one of the known ones.
    UnsupportedRamSize(u8),
    /// The CGB flag (0x143) says the cartridge requires a CGB.
    RequiresCgb,
    /// The header checksum (0x14D) does not match the header.
    InvalidChecksum { expected: u8, found: u8 },
}

/// The length of the header: everything up to the header checksum.
pub const HEADER_LEN: usize = 0x014F;

pub struct Cartridge {
    pub title: String,
    rom: Vec<u8>,
    ram: Vec<u8>,
}

/// 32 KiB shifted left by `code` (0 - 7).
pub open spec fn rom_banks_kib(code: u8) -> nat {
    if code == 0 {
        32
    } else if code == 1 {
        64
    } else if code == 2 {
        128
    } else if code == 3 {
        256
    } else if code == 4 {
        512
    } else if code == 5 {
        1024
    } else if code == 6 {
        2048
    } else {
        4096
    }
}

/// The ROM size in KiB a size code declares.
pub open spec fn rom_kib(code: u8) -> Option<nat> {
    if code <= 7 {
        Some(rom_banks_kib(code))
    } else if code == 0x52 {
        Some(1152)
    } else if code == 0x53 {
        Some(1280)
    } else if code == 0x54 {
        Some(1536)
    } else {
        None
    }
}

/// The RAM size in KiB a size code declares.
pub open spec fn ram_kib(code: u8) -> Option<nat> {
    if code == 0 {
        Some(0)
    } else if code == 1 {
        Some(2)
    } else if code == 2 {
        Some(8)
    } else if code == 3 {
        Some(32)
    } else {
        None
    }
}

/// The header checksum of the bytes 0x134 - 0x14C: starting from 0, each byte and 1 are
/// subtracted (modulo 256).
pub open spec fn checksum_of(bytes: Seq<u8>) -> u8
    decreases bytes.len(),
{
    if bytes.len() == 0 {
        0
    } else {
        checksum_of(bytes.drop_last()).wrapping_sub(bytes.last()).wrapping_sub(1)
    }
}

/// The length of `s` without its trailing NUL bytes.
pub open spec fn trimmed_len(s: Seq<u8>, n: nat) -> nat
    decreases n,
{
    if n > 0 && n <= s.len() && s[n - 1] == 0 {
        trimmed_len(s, (n - 1) as nat)
    } else {
        n
    }
}

/// The title: bytes 0x134 - 0x143 (0x134 - 0x13E when the old licensee code 0x14B is 0x33,
/// a newer cartridge whose last title bytes mean other things), each with bit 7 cleared,
/// without trailing NULs.
pub open spec fn title_of(header: Seq<u8>) -> Seq<char> {
    let end = if header[0x14B] == 0x33 { 0x13F } else { 0x144 };
    let bytes = header.subrange(0x134, end).map_values(|b: u8| b & 0x7F);
    ascii_chars(bytes.take(trimmed_len(bytes, bytes.len()) as int))
}

/// The outcome of reading `data` as a cartridge image, in the order the checks are made;
/// `Ok` carries the ROM size in KiB and the RAM size in KiB.
pub open spec fn check_header(data: Seq<u8>) -> Result<(nat, nat), CartridgeError> {
    if data.len() < HEADER_LEN {
        Err(CartridgeError::Truncated)
    } else if data.subrange(0x104, 0x134) != nintendo_logo() {
        Err(CartridgeError::InvalidLogo)
    } else if rom_kib(data[0x148]) is None {
        Err(CartridgeError::UnsupportedRomSize(data[0x148]))
    } else if ram_kib(data[0x149]) is None {
        Err(CartridgeError::UnsupportedRamSize(data[0x149]))
    } else if data[0x143] >> 4u8 == 0xC {
        Err(CartridgeError::RequiresCgb)
    } else if checksum_of(data.subrange(0x134, 0x14D)) != data[0x14D] {
        Err(CartridgeError::InvalidChecksum {
            expected: data[0x14D],
            found: checksum_of(data.subrange(0x134, 0x14D)),
        })
    } else if data.len() < rom_kib(data[0x148]).unwrap() * 1024 {
        Err(CartridgeError::Truncated)
    } else {
        Ok((rom_kib(data[0x148]).unwrap(), ram_kib(data[0x149]).unwrap()))
    }
}

/// The header checksum of `bytes`.
fn checksum(bytes: &Vec<u8>, start: usize, end: usize) -> (r: u8)
    requires
        start <= end <= bytes.len(),
    ensures
        r == checksum_of(bytes@.subrange(start as int, end as int)),
{
    let mut x: u8 = 0;
    let mut i = start;
    while i < end
        invariant
            start <= i <= end <= bytes.len(),
            x == checksum_of(bytes@.subrange(start as int, i as int)),
        decreases end - i,
    {
        assert(bytes@.subrange(start as int, i + 1).drop_last() =~= bytes@.subrange(start as int, i as int));
        x = x.wrapping_sub(bytes[i]).wrapping_sub(1);
        i += 1;
    }
    x
}

/// Whether the logo in the header is intact.
fn logo_ok(data: &Vec<u8>) -> (r: bool)
    requires
        data.len() >= HEADER_LEN,
    ensures
        r == (data@.subrange(0x104, 0x134) == nintendo_logo()),
{
    let logo = logo();
    let mut i: usize = 0;
    while i < 0x30
        invariant
            i <= 0x30,
            data.len() >= HEADER_LEN,
            logo@ == nintendo_logo(),
            forall|k: int| 0 <= k < i ==> data@[0x104 + k] == logo@[k],
        decreases 0x30 - i,
    {
        if data[0x104 + i] != logo[i] {
            assert(data@.subrange(0x104, 0x134)[i as int] != nintendo_logo()[i as int]);
            return false;
        }
        i += 1;
    }
    assert(data@.subrange(0x104, 0x134) =~= nintendo_logo());
    true
}

/// The ROM size in KiB of a size code.
fn decode_rom_kib(code: u8) -> (r: Option<usize>)
    ensures
        r is Some <==> rom_kib(code) is Some,
        r is Some ==> r.unwrap() == rom_kib(code).unwrap() && r.unwrap() <= 4096,
{
    if code <= 7 {
        assert(code <= 7 ==> (32usize << code) == if code == 0 {
            32usize
        } else if code == 1 {
            64usize
        } else if code == 2 {
            128usize
        } else if code == 3 {
            256usize
        } else if code == 4 {
            512usize
        } else if code == 5 {
            1024usize
        } else if code == 6 {
            2048usize
        } else {
            4096usize
        }) by (bit_vector);
        Some(32usize << code)
    } else if code == 0x52 {
        Some(1152)
    } else if code == 0x53 {
        Some(1280)
    } else if code == 0x54 {
        Some(1536)
    } else {
        None
    }
}

/// The RAM size in KiB of a size code.
fn decode_ram_kib(code: u8) -> (r: Option<usize>)
    ensures
        r is Some <==> ram_kib(code) is Some,
        r is Some ==> r.unwrap() == ram_kib(code).unwrap(),
{
    if code == 0 {
        Some(0)
    } else if code == 1 {
        Some(2)
    } else if code == 2 {
        Some(8)
    } else if code == 3 {
        Some(32)
    } else {
        None
    }
}

/// The bytes of the title area with bit 7 cleared.
fn title_bytes(data: &Vec<u8>) -> (r: Vec<u8>)
    requires
        data.len() >= HEADER_LEN,
    ensures
        r@ == data@.subrange(0x134, if data@[0x14B] == 0x33 { 0x13F } else { 0x144 }).map_values(
            |b: u8| b & 0x7F,
        ),
{
    let end: usize = if data[0x14B] == 0x33 { 0x13F } else { 0x144 };
    let mut bytes: Vec<u8> = Vec::new();
    let mut i: usize = 0x134;
    while i < end
        invariant
            0x134 <= i <= end <= 0x144,
            data.len() >= HEADER_LEN,
            bytes@ == data@.subrange(0x134, i as int).map_values(|b: u8| b & 0x7F),
        decreases end - i,
    {
        bytes.push(data[i] & 0x7F);
        i += 1;
        assert(bytes@ =~= data@.subrange(0x134, i as int).map_values(|b: u8| b & 0x7F));
    }
    bytes
}

/// The title in the header (see `title_of`).
fn parse_title(data: &Vec<u8>) -> (s: String)
    requires
        data.len() >= HEADER_LEN,
    ensures
        s@ == title_of(data@),
{
    let bytes = title_bytes(data);
    // Chop off trailing NULs
    let mut n = bytes.len();
    while n > 0 && bytes[n - 1] == 0
        invariant
            n <= bytes.len(),
            trimmed_len(bytes@, bytes@.len()) == trimmed_len(bytes@, n as nat),
        decreases n,
    {
        n -= 1;
    }
    let mut kept: Vec<u8> = Vec::new();
    let mut i: usize = 0;
    while i < n
        invariant
            i <= n <= bytes.len(),
            kept@ == bytes@.take(i as int),
            forall|k: int| 0 <= k < bytes.len() ==> bytes@[k] == data@.subrange(
                0x134,
                if data@[0x14B] == 0x33 { 0x13F } else { 0x144 },
            )[k] & 0x7F,
        decreases n - i,
    {
        kept.push(bytes[i]);
        i += 1;
        assert(kept@ =~= bytes@.take(i as int));
    }
    proof {
        bits::lemma_and_bound();
        assert forall|k: int| 0 <= k < kept.len() implies kept@[k] < 0x80 by {
            assert(kept@[k] == bytes@[k]);
        }
    }
    ascii_string(&kept)
}

/// The cartridge as values.
pub struct CartridgeView {
    pub title: Seq<char>,
    pub rom: Seq<u8>,
    pub ram: Seq<u8>,
}

impl View for Cartridge {
    type V = CartridgeView;

    closed spec fn view(&self) -> CartridgeView {
        CartridgeView { title: self.title@, rom: self.rom@, ram: self.ram@ }
    }
}

impl Cartridge {
    /// Read a cartridge from the bytes of a ROM image: the header is checked in the order of
    /// `check_header`; the ROM holds the first (declared size) bytes and the RAM is cleared.
    pub fn from_bytes(data: &Vec<u8>) -> (r: Result<Cartridge, CartridgeError>)
        ensures
            match check_header(data@) {
                Err(e) => r matches Err(e2) && e2 == e,
                Ok((rom_size, ram_size)) => r matches Ok(c) && c@ == (CartridgeView {
                    title: title_of(data@),
                    rom: data@.take((rom_size * 1024) as int),
                    ram: Seq::new(ram_size * 1024, |i: int| 0u8),
                }),
            },
    {
        if data.len() < HEADER_LEN {
            return Err(CartridgeError::Truncated);
        }
        // Validate contents of "Nintendo Logo"
        if !logo_ok(data) {
            return Err(CartridgeError::InvalidLogo);
        }
        let title = parse_title(data);
        // Determine the ROM size
        let rom_size = match decode_rom_kib(data[0x148]) {
            Some(n) => n,
            None => {
                return Err(CartridgeError::UnsupportedRomSize(data[0x148]));
            },
        };
        // Determine the RAM size
        let ram_size = match decode_ram_kib(data[0x149]) {
            Some(n) => n,
            None => {
                return Err(CartridgeError::UnsupportedRamSize(data[0x149]));
            },
        };
        // A cartridge that requires CGB support is refused
        if (data[0x143] >> 4) == 0xc {
            return Err(CartridgeError::RequiresCgb);
        }
        // The header checksum over 0x134 - 0x14C
        let checksum = checksum(data, 0x134, 0x14d);
        if checksum != data[0x14d] {
            return Err(CartridgeError::InvalidChecksum { expected: data[0x14d], found: checksum });
        }
        // Cartridge ROM: the header followed by the rest of the image
        let rom_len = rom_size * 1024;
        if data.len() < rom_len {
            return Err(CartridgeError::Truncated);
        }
        let mut rom: Vec<u8> = Vec::new();
        let mut i: usize = 0;
        while i < rom_len
            invariant
                i <= rom_len <= data.len(),
                rom@ == data@.take(i as int),
            decreases rom_len - i,
        {
            rom.push(data[i]);
            i += 1;
            assert(rom@ =~= data@.take(i as int));
        }
        // Cartridge RAM
        let ram = bits::filled(ram_size * 1024, 0);
        Ok(Cartridge { title, rom, ram })
    }

    /// Whether the ROM covers the whole cartridge ROM area 0x0000 - 0x7FFF.
    pub open spec fn wf(&self) -> bool {
        self@.rom.len() >= 0x8000
    }

    /// Read: ROM-only, so addresses up to 0x7FFF read the ROM and the rest read 0.
    pub fn read8(&self, address: u16) -> (r: u8)
        requires
            self.wf(),
        ensures
            r == if address <= 0x7fff { self@.rom[address as int] } else { 0 },
    {
        if address <= 0x7fff {
            self.rom[address as usize]
        } else {
            0
        }
    }

    /// Write: a ROM-only cartridge ignores writes.
    pub fn write8(&mut self, address: u16, value: u8)
        ensures
            final(self)@ == old(self)@,
    {
    }
}

} // verus!
