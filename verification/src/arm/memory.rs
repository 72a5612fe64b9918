//! The GBA memory map: on-board and in-chip work RAM (with the in-chip RAM's top page
//! mirrored at 0x03FFFFxx) and the Game Pak ROM; byte and little-endian word access.

use vstd::prelude::*;
use crate::bits;

verus! {

pub struct Memory {
    // [02000000 - 0203FFFF] WRAM - On-board Work RAM  (256 KBytes) 2 Wait
    work_ram_1: Vec<u8>,
    // [03000000 - 03007FFF] WRAM - In-chip Work RAM   (32 KBytes)
    work_ram_2: Vec<u8>,
    // [05000000 - 050003FF] BG/OBJ Palette RAM        (1 Kbyte)
    palette_ram: Vec<u8>,
    // [06000000 - 06017FFF] VRAM - Video RAM          (96 KBytes)
    v_ram: Vec<u8>,
    // [07000000 - 070003FF] OAM - OBJ Attributes      (1 Kbyte)
    oam: Vec<u8>,
    // [08000000 - 0DFFFFFF] Game Pak ROM/FlashROM (max 32MB), wait states 0 - 2
    rom: Vec<u8>,
    // [0E000000 - 0E00FFFF] Game Pak SRAM    (max 64 KBytes) - 8bit Bus width
    s_ram: Vec<u8>,
}

/// The contents of every memory area.
pub struct MemoryView {
    pub work_ram_1: Seq<u8>,
    pub work_ram_2: Seq<u8>,
    pub palette_ram: Seq<u8>,
    pub v_ram: Seq<u8>,
    pub oam: Seq<u8>,
    pub rom: Seq<u8>,
    pub s_ram: Seq<u8>,
}

impl View for Memory {
    type V = MemoryView;

    closed spec fn view(&self) -> MemoryView {
        MemoryView {
            work_ram_1: self.work_ram_1@,
            work_ram_2: self.work_ram_2@,
            palette_ram: self.palette_ram@,
            v_ram: self.v_ram@,
            oam: self.oam@,
            rom: self.rom@,
            s_ram: self.s_ram@,
        }
    }
}

/// The storage cell behind a mapped address: the area (0 on-board work RAM, 1 in-chip work
/// RAM, 2 ROM) and the index in it. 0x03FFFF00 - 0x03FFFFFF mirror the last 256 bytes of
/// the in-chip work RAM.
pub open spec fn cell(address: u32) -> Option<(int, int)> {
    if 0x0200_0000 <= address <= 0x0203_FFFF {
        Some((0, address - 0x0200_0000))
    } else if 0x0300_0000 <= address <= 0x0300_7FFF {
        Some((1, address - 0x0300_0000))
    } else if 0x03FF_FF00 <= address <= 0x03FF_FFFF {
        Some((1, address - 0x03FF_FF00 + 0x7F00))
    } else if 0x0800_0000 <= address <= 0x0DFF_FFFF {
        Some((2, address - 0x0800_0000))
    } else {
        None
    }
}

/// A little-endian word from four bytes.
pub open spec fn le_u32(a: u8, b: u8, c: u8, d: u8) -> u32 {
    (a as u32) | ((b as u32) << 8u32) | ((c as u32) << 16u32) | ((d as u32) << 24u32)
}

impl MemoryView {
    /// The area `area` of `cell`.
    pub open spec fn area(self, area: int) -> Seq<u8> {
        if area == 0 {
            self.work_ram_1
        } else if area == 1 {
            self.work_ram_2
        } else {
            self.rom
        }
    }

    /// The work RAM and the other areas have their hardware sizes.
    pub open spec fn wf(self) -> bool {
        &&& self.work_ram_1.len() == 256 * 1024
        &&& self.work_ram_2.len() == 32 * 1024
        &&& self.palette_ram.len() == 1024
        &&& self.v_ram.len() == 96 * 1024
        &&& self.oam.len() == 1024
        &&& self.s_ram.len() == 1024
    }

    /// Whether a byte access of `address` is served (for the ROM: within the loaded image).
    pub open spec fn mapped(self, address: u32) -> bool {
        &&& cell(address) is Some
        &&& cell(address).unwrap().1 < self.area(cell(address).unwrap().0).len()
    }

    /// The byte at `address`.
    pub open spec fn byte(self, address: u32) -> u8 {
        let (area, i) = cell(address).unwrap();
        self.area(area)[i]
    }

    /// The memory after `value` is written at `address`.
    pub open spec fn with_byte(self, address: u32, value: u8) -> Self {
        let (area, i) = cell(address).unwrap();
        if area == 0 {
            MemoryView { work_ram_1: self.work_ram_1.update(i, value), ..self }
        } else if area == 1 {
            MemoryView { work_ram_2: self.work_ram_2.update(i, value), ..self }
        } else {
            MemoryView { rom: self.rom.update(i, value), ..self }
        }
    }

    /// Whether a word access of `address` is served: all four bytes are.
    pub open spec fn mapped32(self, address: u32) -> bool {
        &&& address <= 0xFFFF_FFFC
        &&& self.mapped(address)
        &&& self.mapped((address + 1) as u32)
        &&& self.mapped((address + 2) as u32)
        &&& self.mapped((address + 3) as u32)
    }

    /// The little-endian word at `address`.
    pub open spec fn word(self, address: u32) -> u32 {
        le_u32(
            self.byte(address),
            self.byte((address + 1) as u32),
            self.byte((address + 2) as u32),
            self.byte((address + 3) as u32),
        )
    }

    /// The memory after the little-endian word `value` is written at `address`.
    pub open spec fn with_word(self, address: u32, value: u32) -> Self {
        self.with_byte(address, value as u8).with_byte((address + 1) as u32, (value >> 8u32) as u8).with_byte(
            (address + 2) as u32,
            (value >> 16u32) as u8,
        ).with_byte((address + 3) as u32, (value >> 24u32) as u8)
    }
}

impl Memory {
    /// Memory with the Game Pak image `rom`, work RAM cleared and SRAM filled with 64.
    pub fn new(rom: Vec<u8>) -> (m: Self)
        ensures
            m@.wf(),
            m@.rom == rom@,
            m@.work_ram_1 == Seq::new(256 * 1024, |i: int| 0u8),
            m@.work_ram_2 == Seq::new(32 * 1024, |i: int| 0u8),
            m@.s_ram == Seq::new(1024, |i: int| 64u8),
    {
        Self {
            work_ram_1: bits::filled(256 * 1024, 0),
            work_ram_2: bits::filled(32 * 1024, 0),
            palette_ram: bits::filled(1024, 0),
            v_ram: bits::filled(96 * 1024, 0),
            oam: bits::filled(1024, 0),
            rom,
            s_ram: bits::filled(1024, 64),
        }
    }

    /// Read a byte.
    pub fn read_u8(&self, address: u32) -> (r: u8)
        requires
            self@.wf(),
            self@.mapped(address),
        ensures
            r == self@.byte(address),
    {
        if 0x0200_0000 <= address && address <= 0x0203_FFFF {
            self.work_ram_1[(address - 0x0200_0000) as usize]
        } else if 0x0300_0000 <= address && address <= 0x0300_7FFF {
            self.work_ram_2[(address - 0x0300_0000) as usize]
        } else if 0x03FF_FF00 <= address && address <= 0x03FF_FFFF {
            // Mirror of 0x03_FF_FF_xx
            self.work_ram_2[((address - 0x03FF_FF00) + 0x7F00) as usize]
        } else {
            self.rom[(address - 0x0800_0000) as usize]
        }
    }

    /// Write a byte.
    pub fn write_u8(&mut self, address: u32, value: u8)
        requires
            old(self)@.wf(),
            old(self)@.mapped(address),
        ensures
            final(self)@ == old(self)@.with_byte(address, value),
            final(self)@.wf(),
    {
        if 0x0200_0000 <= address && address <= 0x0203_FFFF {
            self.work_ram_1.set((address - 0x0200_0000) as usize, value);
        } else if 0x0300_0000 <= address && address <= 0x0300_7FFF {
            self.work_ram_2.set((address - 0x0300_0000) as usize, value);
        } else if 0x03FF_FF00 <= address && address <= 0x03FF_FFFF {
            // Mirror of 0x03_FF_FF_xx
            self.work_ram_2.set(((address - 0x03FF_FF00) + 0x7F00) as usize, value);
        } else {
            self.rom.set((address - 0x0800_0000) as usize, value);
        }
    }

    /// Read a little-endian word.
    pub fn read_u32(&self, address: u32) -> (r: u32)
        requires
            self@.wf(),
            self@.mapped32(address),
        ensures
            r == self@.word(address),
    {
        let a = self.read_u8(address) as u32;
        let b = self.read_u8(address + 1) as u32;
        let c = self.read_u8(address + 2) as u32;
        let d = self.read_u8(address + 3) as u32;
        a | (b << 8) | (c << 16) | (d << 24)
    }

    /// Write a little-endian word.
    pub fn write_u32(&mut self, address: u32, value: u32)
        requires
            old(self)@.wf(),
            old(self)@.mapped32(address),
        ensures
            final(self)@ == old(self)@.with_word(address, value),
            final(self)@.wf(),
    {
        proof {
            lemma_write_keeps_mapped(self@, address, value as u8, (address + 1) as u32);
            lemma_write_keeps_mapped(self@, address, value as u8, (address + 2) as u32);
            lemma_write_keeps_mapped(self@, address, value as u8, (address + 3) as u32);
        }
        self.write_u8(address, value as u8);
        proof {
            lemma_write_keeps_mapped(self@, (address + 1) as u32, (value >> 8u32) as u8, (address + 2) as u32);
            lemma_write_keeps_mapped(self@, (address + 1) as u32, (value >> 8u32) as u8, (address + 3) as u32);
        }
        self.write_u8(address + 1, (value >> 8) as u8);
        proof {
            lemma_write_keeps_mapped(self@, (address + 2) as u32, (value >> 16u32) as u8, (address + 3) as u32);
        }
        self.write_u8(address + 2, (value >> 16) as u8);
        self.write_u8(address + 3, (value >> 24) as u8);
    }
}

/// A byte write keeps every mapped address mapped.
pub proof fn lemma_write_keeps_mapped(m: MemoryView, a: u32, v: u8, b: u32)
    requires
        m.mapped(a),
        m.mapped(b),
    ensures
        m.with_byte(a, v).mapped(b),
{
}

/// A byte read gives back the last byte written to the same storage cell; a write to
/// another cell leaves it unchanged.
pub proof fn law_byte_roundtrip(m: MemoryView, a: u32, v: u8, b: u32)
    requires
        m.mapped(a),
        m.mapped(b),
    ensures
        m.with_byte(a, v).byte(b) == if cell(a) == cell(b) { v } else { m.byte(b) },
{
}

/// A word read at the address of a word write gives back the word written.
pub proof fn law_word_roundtrip(m: MemoryView, a: u32, v: u32)
    requires
        m.mapped32(a),
    ensures
        m.with_word(a, v).word(a) == v,
{
    let m1 = m.with_byte(a, v as u8);
    let m2 = m1.with_byte((a + 1) as u32, (v >> 8u32) as u8);
    let m3 = m2.with_byte((a + 2) as u32, (v >> 16u32) as u8);
    let m4 = m3.with_byte((a + 3) as u32, (v >> 24u32) as u8);
    assert(m4.byte(a) == v as u8);
    assert(m4.byte((a + 1) as u32) == (v >> 8u32) as u8);
    assert(m4.byte((a + 2) as u32) == (v >> 16u32) as u8);
    assert(m4.byte((a + 3) as u32) == (v >> 24u32) as u8);
    assert(le_u32(v as u8, (v >> 8u32) as u8, (v >> 16u32) as u8, (v >> 24u32) as u8) == v) by (bit_vector);
}

} // verus!
