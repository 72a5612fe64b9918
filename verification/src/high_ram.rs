//! High RAM (HRAM): 127 bytes at 0xFF80 - 0xFFFE.

use vstd::prelude::*;

verus! {

pub struct HighRam {
    ram: [u8; 127],
}

impl View for HighRam {
    type V = Seq<u8>;

    closed spec fn view(&self) -> Seq<u8> {
        self.ram@
    }
}

/// Whether `address` is in high RAM.
pub open spec fn in_high_ram(address: u16) -> bool {
    0xff80 <= address <= 0xfffe
}

impl HighRam {
    /// High RAM cleared.
    pub fn new() -> (h: Self)
        ensures
            h@ == Seq::new(127, |i: int| 0u8),
    {
        let h = Self { ram: [0; 127] };
        assert(h@ =~= Seq::new(127, |i: int| 0u8));
        h
    }

    /// Whether `address` is in high RAM.
    pub fn contains(&self, address: u16) -> (r: bool)
        ensures
            r == in_high_ram(address),
    {
        0xff80 <= address && address <= 0xfffe
    }

    /// Read a byte of high RAM.
    pub fn read8(&self, address: u16) -> (r: u8)
        requires
            in_high_ram(address),
        ensures
            r == self@[address - 0xff80],
    {
        self.ram[(address as usize) - 0xff80]
    }

    /// Write a byte of high RAM.
    pub fn write8(&mut self, address: u16, value: u8)
        requires
            in_high_ram(address),
        ensures
            final(self)@ == old(self)@.update(address - 0xff80, value),
    {
        self.ram[(address as usize) - 0xff80] = value;
    }
}

/// A byte written to high RAM reads back; the other bytes keep their values.
pub proof fn law_high_ram_roundtrip(ram: Seq<u8>, a: u16, b: u16, value: u8)
    requires
        ram.len() == 127,
        in_high_ram(a),
        in_high_ram(b),
    ensures
        ram.update(a - 0xff80, value)[b - 0xff80] == if a == b { value } else { ram[b - 0xff80] },
{
}

} // verus!
