//! Sound channel 4: noise from a linear feedback shift register, with a volume envelope and
//! a length counter.

use vstd::prelude::*;
use crate::bits;
use crate::bits::{bit_spec, test_spec};
use crate::gb::apu::{envelope_reload, envelope_write_ok, envelope_write_volume, trigger_length};

verus! {

#[derive(Default)]
pub struct Channel4 {
    /// Enable
    pub enable: bool,
    /// Sound Length
    pub length: u8,
    /// Counter / Consecutive selection (Length Enable)
    pub length_enable: bool,
    /// Current volume
    pub volume: u8,
    /// Volume envelope timer
    pub volume_envl_timer: u8,
    /// Initial Volume of envelope
    pub volume_envl_initial: u8,
    /// Volume Envelope Direction (0=decrease, 1=increase)
    pub volume_envl_direction: bool,
    /// Volume Envelope Period (a period of 0 is treated as 8)
    pub volume_envl_period: u8,
    /// Shift Clock Frequency - 4-bits
    pub shift: u8,
    /// Counter Step/Width (0=15 bits, 1=7 bits)
    pub width: bool,
    /// Dividing Ratio of Frequencies
    pub divisor: u8,
    /// Linear Feedback Shift Register (LFSR)
    pub lfsr: u16,
    /// Timer (Frequency)
    pub timer: u16,
}

/// The base divisor for a divisor code: 8 for code 0, `16 * code` otherwise.
pub open spec fn divisor_spec(index: u8) -> u16 {
    if 1 <= index <= 7 { (16 * index) as u16 } else { 8u16 }
}

pub fn get_divisor(index: u8) -> (r: u16)
    ensures
        r == divisor_spec(index),
{
    if index == 1 {
        16
    } else if index == 2 {
        32
    } else if index == 3 {
        48
    } else if index == 4 {
        64
    } else if index == 5 {
        80
    } else if index == 6 {
        96
    } else if index == 7 {
        112
    } else {
        8
    }
}

/// One clock of the LFSR: the XOR of the low two bits is shifted in at bit 14, and also at
/// bit 6 in 7-bit width mode.
pub open spec fn lfsr_next(lfsr: u16, width: bool) -> u16 {
    let b = (lfsr & 1) ^ ((lfsr & 2) >> 1u16);
    let shifted = lfsr >> 1u16;
    let wide = if b != 0 { shifted | 0x4000 } else { shifted };
    if width {
        if b != 0 { (wide & !0x40u16) | 0x40 } else { wide & !0x40u16 }
    } else {
        wide
    }
}

impl Channel4 {
    pub open spec fn enabled_spec(&self) -> bool {
        self.enable && (self.volume_envl_initial > 0 || self.volume_envl_direction)
    }

    pub fn is_enabled(&self) -> (r: bool)
        ensures
            r == self.enabled_spec(),
    {
        self.enable && (self.volume_envl_initial > 0 || self.volume_envl_direction)
    }

    pub open spec fn cleared(self) -> Self {
        Channel4 {
            enable: false,
            length_enable: false,
            volume: 0,
            volume_envl_initial: 0,
            volume_envl_direction: false,
            volume_envl_period: 0,
            volume_envl_timer: 0,
            shift: 0,
            width: false,
            divisor: 0,
            lfsr: 0,
            ..self
        }
    }

    pub fn clear(&mut self)
        ensures
            *final(self) == old(self).cleared(),
    {
        self.enable = false;
        self.length_enable = false;
        self.volume = 0;
        self.volume_envl_initial = 0;
        self.volume_envl_direction = false;
        self.volume_envl_period = 0;
        self.volume_envl_timer = 0;
        self.shift = 0;
        self.width = false;
        self.divisor = 0;
        self.lfsr = 0;
    }

    pub fn reset(&mut self)
        ensures
            *final(self) == (Channel4 { length: 0, ..old(self).cleared() }),
    {
        self.clear();
        self.length = 0;
    }

    /// The frequency timer period: the base divisor shifted left by the clock shift.
    pub open spec fn period(&self) -> u16 {
        divisor_spec(self.divisor) << self.shift
    }

    pub open spec fn triggered(self, frame_seq_step: u8) -> Self {
        Channel4 {
            enable: true,
            length: if self.length == 0 {
                trigger_length(self.length_enable, frame_seq_step)
            } else {
                self.length
            },
            timer: self.period(),
            volume: self.volume_envl_initial,
            volume_envl_timer: if frame_seq_step == 7 {
                (envelope_reload(self.volume_envl_period) + 1) as u8
            } else {
                envelope_reload(self.volume_envl_period)
            },
            lfsr: 0x7FFF,
            ..self
        }
    }

    pub open spec fn trigger_ok(&self, frame_seq_step: u8) -> bool {
        &&& self.shift < 16
        &&& frame_seq_step == 7 ==> self.volume_envl_period != 255
    }

    pub fn trigger(&mut self, frame_seq_step: u8)
        requires
            old(self).trigger_ok(frame_seq_step),
        ensures
            *final(self) == old(self).triggered(frame_seq_step),
    {
        self.enable = true;
        if self.length == 0 {
            self.length = if self.length_enable && (frame_seq_step % 2 == 1) {
                63
            } else {
                64
            };
        }
        self.timer = get_divisor(self.divisor) << self.shift;
        self.volume = self.volume_envl_initial;
        self.volume_envl_timer = if self.volume_envl_period == 0 {
            8
        } else {
            self.volume_envl_period
        };
        if frame_seq_step == 7 {
            self.volume_envl_timer += 1;
        }
        self.lfsr = 0x7FFF;
    }

    /// The output level: the volume when bit 0 of the LFSR is clear (the output is inverted).
    pub open spec fn sample_spec(&self) -> i16 {
        if !self.enabled_spec() {
            0
        } else if self.lfsr & 1 == 0 {
            self.volume as i16
        } else {
            0
        }
    }

    pub fn sample(&mut self) -> (r: i16)
        ensures
            *final(self) == *old(self),
            r == old(self).sample_spec(),
    {
        if !self.is_enabled() {
            return 0;
        }
        if (self.lfsr & 0x1) == 0 {
            self.volume as i16
        } else {
            0
        }
    }

    /// One tick of the frequency timer; when it runs out the LFSR is clocked (unless the
    /// clock shift is 14 or 15) and the timer is reloaded.
    pub open spec fn stepped(self) -> Self {
        if self.timer > 0 {
            if self.timer == 1 {
                Channel4 {
                    lfsr: if self.shift < 14 { lfsr_next(self.lfsr, self.width) } else { self.lfsr },
                    timer: self.period(),
                    ..self
                }
            } else {
                Channel4 { timer: (self.timer - 1) as u16, ..self }
            }
        } else {
            self
        }
    }

    pub fn step(&mut self)
        requires
            old(self).timer == 1 ==> old(self).shift < 16,
        ensures
            *final(self) == old(self).stepped(),
    {
        if self.timer > 0 {
            self.timer -= 1;
            if self.timer == 0 {
                if self.shift < 14 {
                    let b = (self.lfsr & 0x1) ^ ((self.lfsr & 0x2) >> 1u16);
                    self.lfsr = self.lfsr >> 1u16;
                    if b != 0 {
                        self.lfsr = self.lfsr | 0x4000;
                    }
                    if self.width {
                        self.lfsr = self.lfsr & !0x40u16;
                        if b != 0 {
                            self.lfsr = self.lfsr | 0x40;
                        }
                    }
                }
                self.timer = get_divisor(self.divisor) << self.shift;
            }
        }
    }

    pub open spec fn length_stepped(self) -> Self {
        if self.length_enable && self.length > 0 {
            Channel4 {
                length: (self.length - 1) as u8,
                enable: if self.length == 1 { false } else { self.enable },
                ..self
            }
        } else {
            self
        }
    }

    pub fn step_length(&mut self)
        ensures
            *final(self) == old(self).length_stepped(),
    {
        if self.length_enable && self.length > 0 {
            self.length -= 1;
            if self.length == 0 {
                self.enable = false;
            }
        }
    }

    pub open spec fn volume_stepped(self) -> Self {
        let timer = if self.volume_envl_timer > 0 {
            (self.volume_envl_timer - 1) as u8
        } else {
            0u8
        };
        let volume = if self.volume_envl_period > 0 && timer == 0 {
            if self.volume_envl_direction {
                if self.volume < 15 { (self.volume + 1) as u8 } else { self.volume }
            } else if self.volume > 0 {
                (self.volume - 1) as u8
            } else {
                self.volume
            }
        } else {
            self.volume
        };
        Channel4 {
            volume,
            volume_envl_timer: if timer == 0 { envelope_reload(self.volume_envl_period) } else { timer },
            ..self
        }
    }

    pub fn step_volume(&mut self)
        ensures
            *final(self) == old(self).volume_stepped(),
    {
        if self.volume_envl_timer > 0 {
            self.volume_envl_timer -= 1;
        }
        if self.volume_envl_period > 0 && self.volume_envl_timer == 0 {
            if self.volume_envl_direction {
                if self.volume < 0xF {
                    self.volume += 1;
                }
            } else if self.volume > 0 {
                self.volume -= 1;
            }
        }
        if self.volume_envl_timer == 0 {
            self.volume_envl_timer = if self.volume_envl_period == 0 {
                8
            } else {
                self.volume_envl_period
            };
        }
    }

    pub open spec fn read_spec(&self, address: u16) -> u8 {
        if address == 0xFF21 {
            (self.volume_envl_initial << 4u8) | bit_spec(self.volume_envl_direction, 3)
                | self.volume_envl_period
        } else if address == 0xFF22 {
            (self.shift << 4u8) | bit_spec(self.width, 3) | self.divisor
        } else if address == 0xFF23 {
            bit_spec(self.length_enable, 6) | 0xBF
        } else {
            0xFF
        }
    }

    pub fn read(&mut self, address: u16) -> (r: u8)
        ensures
            *final(self) == *old(self),
            r == old(self).read_spec(address),
    {
        if address == 0xFF21 {
            (self.volume_envl_initial << 4u8) | bits::bit(self.volume_envl_direction, 3)
                | self.volume_envl_period
        } else if address == 0xFF22 {
            (self.shift << 4u8) | bits::bit(self.width, 3) | self.divisor
        } else if address == 0xFF23 {
            bits::bit(self.length_enable, 6) | 0xBF
        } else {
            0xFF
        }
    }

    pub open spec fn control_written(self, value: u8, frame_seq_step: u8) -> Self {
        let length_enable = test_spec(value, 6);
        let extra_clock = !self.length_enable && length_enable && frame_seq_step % 2 == 1
            && self.length > 0;
        Channel4 {
            length_enable,
            length: if extra_clock { (self.length - 1) as u8 } else { self.length },
            ..self
        }
    }

    #[verifier::opaque]
    pub open spec fn written(self, address: u16, value: u8, frame_seq_step: u8, master_enable: bool) -> Self {
        if address == 0xFF20 {
            Channel4 { length: (64 - (value & 0x3F)) as u8, ..self }
        } else if address == 0xFF21 && master_enable {
            let initial = (value >> 4u8) & 0xF;
            let direction = test_spec(value, 3);
            Channel4 {
                volume: envelope_write_volume(self.volume, self.volume_envl_period, self.volume_envl_direction, value) as u8,
                volume_envl_initial: initial,
                volume_envl_direction: direction,
                volume_envl_period: value & 7,
                enable: if initial == 0 && !direction { false } else { self.enable },
                ..self
            }
        } else if address == 0xFF22 && master_enable {
            Channel4 {
                shift: (value >> 4u8) & 0xF,
                width: test_spec(value, 3),
                divisor: value & 7,
                ..self
            }
        } else if address == 0xFF23 && master_enable {
            let c = self.control_written(value, frame_seq_step);
            if test_spec(value, 7) {
                c.triggered(frame_seq_step)
            } else if c.length == 0 {
                Channel4 { enable: false, ..c }
            } else {
                c
            }
        } else {
            self
        }
    }

    pub open spec fn write_ok(&self, address: u16, value: u8, frame_seq_step: u8, master_enable: bool) -> bool {
        &&& address == 0xFF21 && master_enable ==> envelope_write_ok(self.volume, self.volume_envl_period, self.volume_envl_direction, value)
        &&& address == 0xFF23 && master_enable && test_spec(value, 7) ==> self.trigger_ok(frame_seq_step)
    }

    pub fn write(&mut self, address: u16, value: u8, frame_seq_step: u8, master_enable: bool)
        requires
            old(self).write_ok(address, value, frame_seq_step, master_enable),
        ensures
            *final(self) == old(self).written(address, value, frame_seq_step, master_enable),
    {
        proof {
            reveal(Channel4::written);
        }
        if address == 0xFF20 {
            assert(value & 0x3F <= 63) by (bit_vector);
            self.length = 64 - (value & 0b11_1111);
        } else if address == 0xFF21 && master_enable {
            if self.volume_envl_period == 0 && (self.volume > 0 || self.volume < 0xF) {
                self.volume += 1;
                if self.volume_envl_direction {
                    self.volume += 1;
                }
                self.volume = self.volume & 0xF;
            }
            self.volume_envl_initial = (value >> 4u8) & 0b1111;
            if self.volume_envl_direction != bits::test(value, 3) {
                self.volume = 16 - self.volume;
                self.volume = self.volume & 0xF;
            }
            self.volume_envl_direction = bits::test(value, 3);
            self.volume_envl_period = value & 0b111;
            if self.volume_envl_initial == 0 && !self.volume_envl_direction {
                self.enable = false;
            }
        } else if address == 0xFF22 && master_enable {
            self.shift = (value >> 4u8) & 0b1111;
            self.width = bits::test(value, 3);
            self.divisor = value & 0b111;
        } else if address == 0xFF23 && master_enable {
            let prev_length_enable = self.length_enable;
            self.length_enable = bits::test(value, 6);
            if !prev_length_enable && self.length_enable && (frame_seq_step % 2 == 1)
                && self.length > 0 {
                self.length -= 1;
            }
            if bits::test(value, 7) {
                self.trigger(frame_seq_step);
            } else if self.length == 0 {
                self.enable = false;
            }
        }
    }
}

} // verus!
