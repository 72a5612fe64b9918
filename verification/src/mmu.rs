//! The memory management unit: work RAM and high RAM, and the memory-rule interface
//! subsystems implement to claim addresses.

use vstd::prelude::*;
use crate::bits;

verus! {

/// Each subsystem in the architecture can implement the memory rule: it serves the reads
/// and writes of the addresses it owns.
pub trait MemoryRule {
    /// Whether the rule is ready to be asked.
    spec fn ready(&self) -> bool;

    /// Attempt to read an address: place the result in `ptr` and return true if the address
    /// is served; otherwise return false.
    fn try_read(&mut self, address: u16, ptr: &mut u8) -> (served: bool)
        requires
            old(self).ready(),
    ;

    /// Attempt to write an address; returns true if the address is served.
    fn try_write(&mut self, address: u16, value: u8) -> (served: bool)
        requires
            old(self).ready(),
    ;
}

/// Memory Management Unit (MMU)
pub struct MMU {
    /// [0xC000 - 0xDFFF] Work RAM (WRAM): 8 KiB in GB, 32 KiB in CGB
    wram: Vec<u8>,
    /// [0xFF70] WRAM Bank 0 - 7 (SVBK) — CGB Only
    wram_bank: u8,
    /// [0xFF80 - 0xFFFE] High RAM (HRAM) — 127 Bytes
    hram: Vec<u8>,
}

/// The MMU as values.
pub struct MmuView {
    pub wram: Seq<u8>,
    pub wram_bank: u8,
    pub hram: Seq<u8>,
}

impl View for MMU {
    type V = MmuView;

    closed spec fn view(&self) -> MmuView {
        MmuView { wram: self.wram@, wram_bank: self.wram_bank, hram: self.hram@ }
    }
}

/// The work RAM index an address of 0xC000 - 0xFDFF reaches (0xE000 - 0xFDFF mirror
/// 0xC000 - 0xDDFF) in bank `bank`.
pub open spec fn wram_index(address: u16, bank: u8) -> int {
    (address & 0x1FFF) + bank * 0x2000
}

impl MMU {
    /// Reset: 8 KiB of work RAM and the high RAM, cleared.
    pub fn reset(&mut self)
        ensures
            final(self)@ == (MmuView {
                wram: Seq::new(8 * 1024, |i: int| 0u8),
                hram: Seq::new(127, |i: int| 0u8),
                ..old(self)@
            }),
    {
        self.wram = bits::filled(8 * 1024, 0);
        self.hram = bits::filled(127, 0);
    }

    /// Read: no memory rule is consulted yet, so every address reads 0xFF.
    pub fn read(&mut self, address: u16) -> (r: u8)
        ensures
            r == 0xFF,
            final(self)@ == old(self)@,
    {
        0xFF
    }

    /// Write: no memory rule is consulted yet, so writes are dropped.
    pub fn write(&mut self, address: u16, value: u8)
        ensures
            final(self)@ == old(self)@,
    {
    }
}

impl MemoryRule for MMU {
    /// The work RAM holds the selected bank.
    open spec fn ready(&self) -> bool {
        wram_index(0xDFFF, self@.wram_bank) < self@.wram.len()
    }

    fn try_read(&mut self, address: u16, ptr: &mut u8) -> (served: bool)
        ensures
            served == (0xC000 <= address <= 0xFDFF),
            served ==> *final(ptr) == old(self)@.wram[wram_index(address, old(self)@.wram_bank)],
            !served ==> *final(ptr) == *old(ptr),
            final(self)@ == old(self)@,
    {
        if 0xC000 <= address && address <= 0xFDFF {
            // 0xE000 - 0xFDFF mirror what is at 0xC000 - 0xDDFF
            proof {
                assert((address & 0x1FFF) <= (0xDFFFu16 & 0x1FFF)) by (bit_vector);
            }
            *ptr = self.wram[((address & 0x1FFF) as usize) + (self.wram_bank as usize) * 0x2000];
            true
        } else {
            false
        }
    }

    fn try_write(&mut self, address: u16, value: u8) -> (served: bool)
        ensures
            !served,
            final(self)@ == old(self)@,
    {
        false
    }
}

impl Default for MMU {
    fn default() -> (m: MMU)
        ensures
            m@ == (MmuView { wram: Seq::empty(), wram_bank: 0, hram: Seq::empty() }),
    {
        MMU { wram: Vec::new(), wram_bank: 0, hram: Vec::new() }
    }
}

} // verus!
