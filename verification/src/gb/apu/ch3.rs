//! Sound channel 3: plays samples from a 16-byte wave RAM, with a length counter.

use vstd::prelude::*;
use crate::bits;
use crate::bits::{bit_spec, test_spec};

verus! {

#[derive(Default)]
pub struct Channel3 {
    /// Enable
    pub enable: bool,
    /// Sound On/Off
    pub dac_enable: bool,
    /// Sound Length
    pub length: u16,
    /// Counter / Consecutive selection (Length Enable)
    pub length_enable: bool,
    /// Volume
    pub volume: u8,
    /// Frequency - 11-bits
    pub frequency: u16,
    /// Wave RAM
    pub wave_ram: Vec<u8>,
}

/// The abstract state of channel 3, with the wave RAM as a sequence.
pub struct Channel3View {
    pub enable: bool,
    pub dac_enable: bool,
    pub length: u16,
    pub length_enable: bool,
    pub volume: u8,
    pub frequency: u16,
    pub wave_ram: Seq<u8>,
}

impl View for Channel3 {
    type V = Channel3View;

    open spec fn view(&self) -> Channel3View {
        Channel3View {
            enable: self.enable,
            dac_enable: self.dac_enable,
            length: self.length,
            length_enable: self.length_enable,
            volume: self.volume,
            frequency: self.frequency,
            wave_ram: self.wave_ram@,
        }
    }
}

/// The wave RAM contents at power-on (DMG).
pub open spec fn initial_wave_ram() -> Seq<u8> {
    seq![0x84u8, 0x40, 0x43, 0xAA, 0x2D, 0x78, 0x92, 0x3C, 0x60, 0x59, 0x59, 0xB0, 0x34, 0xB8, 0x2E, 0xDA]
}

impl Channel3View {
    pub open spec fn enabled_spec(self) -> bool {
        self.enable && self.dac_enable && (!self.length_enable || self.length > 0)
    }

    pub open spec fn cleared(self) -> Self {
        Channel3View {
            enable: false,
            dac_enable: false,
            length: 0,
            length_enable: false,
            volume: 0,
            frequency: 0,
            ..self
        }
    }

    pub open spec fn triggered(self) -> Self {
        Channel3View {
            enable: true,
            length: if self.length == 0 { 256 } else { self.length },
            ..self
        }
    }

    pub open spec fn length_stepped(self) -> Self {
        if self.length_enable && self.length > 0 {
            Channel3View {
                length: (self.length - 1) as u16,
                enable: if self.length == 1 { false } else { self.enable },
                ..self
            }
        } else {
            self
        }
    }

    /// Whether `address` lies in wave RAM (0xFF30 - 0xFF3F).
    pub open spec fn is_wave_ram(address: u16) -> bool {
        0xFF30 <= address <= 0xFF3F
    }

    pub open spec fn read_spec(self, address: u16) -> u8 {
        if address == 0xFF1A {
            bit_spec(self.dac_enable, 7) | 0x7F
        } else if address == 0xFF1C {
            (self.volume << 5u8) | 0x9F
        } else if address == 0xFF1E {
            bit_spec(self.length_enable, 6) | 0xBF
        } else if Self::is_wave_ram(address) {
            self.wave_ram[address - 0xFF30]
        } else {
            0xFF
        }
    }

    #[verifier::opaque]
    pub open spec fn written(self, address: u16, value: u8) -> Self {
        if address == 0xFF1A {
            let dac = test_spec(value, 7);
            Channel3View { dac_enable: dac, enable: if !dac { false } else { self.enable }, ..self }
        } else if address == 0xFF1B {
            Channel3View { length: (256 - value) as u16, ..self }
        } else if address == 0xFF1C {
            Channel3View { volume: (value >> 5u8) & 3, ..self }
        } else if address == 0xFF1D {
            Channel3View { frequency: (self.frequency & !0xFFu16) | (value as u16), ..self }
        } else if address == 0xFF1E {
            let c = Channel3View {
                frequency: (self.frequency & !0x700u16) | (((value & 7) as u16) << 8u16),
                length_enable: test_spec(value, 6),
                ..self
            };
            if test_spec(value, 7) { c.triggered() } else { c }
        } else if Self::is_wave_ram(address) {
            Channel3View { wave_ram: self.wave_ram.update(address - 0xFF30, value), ..self }
        } else {
            self
        }
    }
}

impl Channel3 {
    pub fn is_enabled(&self) -> (r: bool)
        ensures
            r == self@.enabled_spec(),
    {
        self.enable && self.dac_enable && (!self.length_enable || self.length > 0)
    }

    pub fn clear(&mut self)
        ensures
            final(self)@ == old(self)@.cleared(),
    {
        self.enable = false;
        self.dac_enable = false;
        self.length = 0;
        self.length_enable = false;
        self.volume = 0;
        self.frequency = 0;
    }

    pub fn reset(&mut self)
        ensures
            final(self)@ == (Channel3View { wave_ram: initial_wave_ram(), ..old(self)@.cleared() }),
    {
        // When the Game Boy is switched on (before the internal boot ROM executes),
        // the values in the wave table depend on the model (these are for gb:dmg).
        self.wave_ram = vec![0x84, 0x40, 0x43, 0xAA, 0x2D, 0x78, 0x92, 0x3C, 0x60, 0x59, 0x59,
            0xB0, 0x34, 0xB8, 0x2E, 0xDA];
        self.clear();
        assert(self.wave_ram@ =~= initial_wave_ram());
    }

    pub fn trigger(&mut self)
        ensures
            final(self)@ == old(self)@.triggered(),
    {
        self.enable = true;
        if self.length == 0 {
            self.length = 256;
        }
    }

    pub fn step_length(&mut self)
        ensures
            final(self)@ == old(self)@.length_stepped(),
    {
        if self.length_enable && self.length > 0 {
            self.length -= 1;
            if self.length == 0 {
                self.enable = false;
            }
        }
    }

    pub fn read(&mut self, address: u16) -> (r: u8)
        requires
            Channel3View::is_wave_ram(address) ==> address - 0xFF30 < old(self).wave_ram.len(),
        ensures
            final(self)@ == old(self)@,
            r == old(self)@.read_spec(address),
    {
        if address == 0xFF1A {
            bits::bit(self.dac_enable, 7) | 0x7F
        } else if address == 0xFF1C {
            (self.volume << 5u8) | 0x9F
        } else if address == 0xFF1E {
            bits::bit(self.length_enable, 6) | 0xBF
        } else if 0xFF30 <= address && address <= 0xFF3F {
            self.wave_ram[(address - 0xFF30) as usize]
        } else {
            0xFF
        }
    }

    pub fn write(&mut self, address: u16, value: u8)
        requires
            Channel3View::is_wave_ram(address) ==> address - 0xFF30 < old(self).wave_ram.len(),
        ensures
            final(self)@ == old(self)@.written(address, value),
    {
        proof {
            reveal(Channel3View::written);
        }
        if address == 0xFF1A {
            self.dac_enable = bits::test(value, 7);
            if !self.dac_enable {
                self.enable = false;
            }
        } else if address == 0xFF1B {
            self.length = 256u16 - value as u16;
        } else if address == 0xFF1C {
            self.volume = (value >> 5u8) & 0b11;
        } else if address == 0xFF1D {
            self.frequency = (self.frequency & !0xFFu16) | value as u16;
        } else if address == 0xFF1E {
            self.frequency = (self.frequency & !0x700u16) | (((value & 0b111) as u16) << 8u16);
            self.length_enable = bits::test(value, 6);
            if bits::test(value, 7) {
                self.trigger();
            }
        } else if 0xFF30 <= address && address <= 0xFF3F {
            self.wave_ram.set((address - 0xFF30) as usize, value);
        }
    }
}

} // verus!
