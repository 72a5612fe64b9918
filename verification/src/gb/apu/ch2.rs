//! Sound channel 2: a square wave with a volume envelope and a length counter.

use vstd::prelude::*;
use crate::bits;
use crate::bits::{bit_spec, test_spec};
use crate::gb::apu::{duty_pattern, envelope_reload, square_period, trigger_length, wave_pattern};

verus! {

#[derive(Default)]
pub struct Channel2 {
    /// Enable
    pub enable: bool,
    /// Wave Pattern Duty
    pub wave_pattern_duty: u8,
    /// Current index into the wave pattern
    pub wave_pattern_index: u8,
    /// Sound Length
    pub length: u8,
    /// Counter / Consecutive selection (Length Enable)
    pub length_enable: bool,
    /// Current volume
    pub volume: u8,
    /// Volume envelope timer
    pub volume_envl_timer: u8,
    /// Initial Volume of envelope
    pub volume_envl_initial: u8,
    /// Volume Envelope Direction (0=decrease, 1=increase)
    pub volume_envl_direction: bool,
    /// Volume Envelope Period (a period of 0 is treated as 8)
    pub volume_envl_period: u8,
    /// Frequency - 11-bits
    pub frequency: u16,
    /// Timer (Frequency)
    pub timer: u16,
}

impl Channel2 {
    /// Whether the channel currently produces sound.
    pub open spec fn enabled_spec(&self) -> bool {
        self.enable && (!self.length_enable || self.length > 0) && (self.volume_envl_initial > 0
            || self.volume_envl_direction)
    }

    pub fn is_enabled(&self) -> (r: bool)
        ensures
            r == self.enabled_spec(),
    {
        self.enable && (!self.length_enable || self.length > 0) && (self.volume_envl_initial > 0
            || self.volume_envl_direction)
    }

    /// The channel after `clear`: everything but the length counter is zeroed.
    pub open spec fn cleared(self) -> Self {
        Channel2 {
            enable: false,
            wave_pattern_duty: 0,
            wave_pattern_index: 0,
            length_enable: false,
            volume: 0,
            volume_envl_initial: 0,
            volume_envl_direction: false,
            volume_envl_period: 0,
            volume_envl_timer: 0,
            frequency: 0,
            timer: 0,
            ..self
        }
    }

    pub fn clear(&mut self)
        ensures
            *final(self) == old(self).cleared(),
    {
        self.enable = false;
        self.wave_pattern_duty = 0;
        self.wave_pattern_index = 0;
        self.length_enable = false;
        self.volume = 0;
        self.volume_envl_initial = 0;
        self.volume_envl_direction = false;
        self.volume_envl_period = 0;
        self.volume_envl_timer = 0;
        self.frequency = 0;
        self.timer = 0;
    }

    pub fn reset(&mut self)
        ensures
            *final(self) == (Channel2 { length: 0, ..old(self).cleared() }),
    {
        self.clear();
        self.length = 0;
    }

    /// The channel after a trigger event at frame-sequencer step `frame_seq_step`.
    pub open spec fn triggered(self, frame_seq_step: u8) -> Self {
        Channel2 {
            enable: true,
            length: if self.length == 0 {
                trigger_length(self.length_enable, frame_seq_step)
            } else {
                self.length
            },
            timer: square_period(self.frequency),
            volume: self.volume_envl_initial,
            volume_envl_timer: envelope_reload(self.volume_envl_period),
            ..self
        }
    }

    pub fn trigger(&mut self, frame_seq_step: u8)
        requires
            old(self).frequency <= 2048,
        ensures
            *final(self) == old(self).triggered(frame_seq_step),
    {
        self.enable = true;
        if self.length == 0 {
            self.length = if self.length_enable && (frame_seq_step % 2 == 1) {
                63
            } else {
                64
            };
        }
        self.timer = (2048 - self.frequency) * 4;
        self.volume = self.volume_envl_initial;
        self.volume_envl_timer = if self.volume_envl_period == 0 {
            8
        } else {
            self.volume_envl_period
        };
    }

    /// The current output level: the volume where the duty pattern's bit at the current
    /// index is set, 0 otherwise or when the channel is disabled.
    pub open spec fn sample_spec(&self) -> i16 {
        if !self.enabled_spec() {
            0
        } else if test_spec(duty_pattern(self.wave_pattern_duty), (7 - self.wave_pattern_index) as u8) {
            self.volume as i16
        } else {
            0
        }
    }

    pub fn sample(&mut self) -> (r: i16)
        requires
            old(self).enabled_spec() ==> old(self).wave_pattern_index <= 7,
        ensures
            *final(self) == *old(self),
            r == old(self).sample_spec(),
    {
        if !self.is_enabled() {
            return 0;
        }
        let pattern = wave_pattern(self.wave_pattern_duty);
        let bit = bits::test(pattern, 7 - self.wave_pattern_index);
        if bit {
            self.volume as i16
        } else {
            0
        }
    }

    /// One tick of the frequency timer: when it runs out, the wave pattern advances and the
    /// timer is reloaded.
    pub open spec fn stepped(self) -> Self {
        let timer = if self.timer > 0 { (self.timer - 1) as u16 } else { 0u16 };
        if timer == 0 {
            Channel2 {
                wave_pattern_index: if self.wave_pattern_index + 1 == 8 {
                    0u8
                } else {
                    (self.wave_pattern_index + 1) as u8
                },
                timer: square_period(self.frequency),
                ..self
            }
        } else {
            Channel2 { timer, ..self }
        }
    }

    pub fn step(&mut self)
        requires
            old(self).timer <= 1 ==> old(self).wave_pattern_index < 255 && old(self).frequency
                <= 2048,
        ensures
            *final(self) == old(self).stepped(),
    {
        if self.timer > 0 {
            self.timer -= 1;
        }
        if self.timer == 0 {
            self.wave_pattern_index += 1;
            if self.wave_pattern_index == 8 {
                self.wave_pattern_index = 0;
            }
            self.timer = (2048 - self.frequency) * 4;
        }
    }

    /// One clock of the length counter; reaching zero disables the channel.
    pub open spec fn length_stepped(self) -> Self {
        if self.length_enable && self.length > 0 {
            Channel2 {
                length: (self.length - 1) as u8,
                enable: if self.length == 1 { false } else { self.enable },
                ..self
            }
        } else {
            self
        }
    }

    pub fn step_length(&mut self)
        ensures
            *final(self) == old(self).length_stepped(),
    {
        if self.length_enable && self.length > 0 {
            self.length -= 1;
            if self.length == 0 {
                self.enable = false;
            }
        }
    }

    /// One clock of the volume envelope.
    pub open spec fn volume_stepped(self) -> Self {
        let timer = if self.volume_envl_timer > 0 {
            (self.volume_envl_timer - 1) as u8
        } else {
            0u8
        };
        let volume = if self.volume_envl_period > 0 && timer == 0 {
            if self.volume_envl_direction {
                if self.volume < 15 { (self.volume + 1) as u8 } else { self.volume }
            } else if self.volume > 0 {
                (self.volume - 1) as u8
            } else {
                self.volume
            }
        } else {
            self.volume
        };
        Channel2 {
            volume,
            volume_envl_timer: if timer == 0 { envelope_reload(self.volume_envl_period) } else { timer },
            ..self
        }
    }

    pub fn step_volume(&mut self)
        ensures
            *final(self) == old(self).volume_stepped(),
    {
        if self.volume_envl_timer > 0 {
            self.volume_envl_timer -= 1;
        }
        if self.volume_envl_period > 0 && self.volume_envl_timer == 0 {
            if self.volume_envl_direction {
                if self.volume < 0xF {
                    self.volume += 1;
                }
            } else if self.volume > 0 {
                self.volume -= 1;
            }
        }
        if self.volume_envl_timer == 0 {
            self.volume_envl_timer = if self.volume_envl_period == 0 {
                8
            } else {
                self.volume_envl_period
            };
        }
    }

    /// The value read back from a channel 2 register; write-only bits read as 1.
    pub open spec fn read_spec(&self, address: u16) -> u8 {
        if address == 0xFF16 {
            (self.wave_pattern_duty << 6u8) | 0x3F
        } else if address == 0xFF17 {
            (self.volume_envl_initial << 4u8) | bit_spec(self.volume_envl_direction, 3)
                | self.volume_envl_period
        } else if address == 0xFF19 {
            bit_spec(self.length_enable, 6) | 0xBF
        } else {
            0xFF
        }
    }

    pub fn read(&mut self, address: u16) -> (r: u8)
        ensures
            *final(self) == *old(self),
            r == old(self).read_spec(address),
    {
        match address {
            0xFF16 => (self.wave_pattern_duty << 6u8) | 0x3F,
            0xFF17 => {
                (self.volume_envl_initial << 4u8) | bits::bit(self.volume_envl_direction, 3)
                    | self.volume_envl_period
            },
            0xFF19 => bits::bit(self.length_enable, 6) | 0xBF,
            _ => 0xFF,
        }
    }

    /// The channel after the NR24 (0xFF19) control bits are written with `value`, before any
    /// trigger: frequency high bits, length enable, and the extra length clock.
    pub open spec fn control_written(self, value: u8, frame_seq_step: u8) -> Self {
        let length_enable = test_spec(value, 6);
        let extra_clock = !self.length_enable && length_enable && frame_seq_step % 2 == 1
            && self.length > 0;
        Channel2 {
            frequency: (self.frequency & !0x700u16) | (((value & 7) as u16) << 8u16),
            length_enable,
            length: if extra_clock { (self.length - 1) as u8 } else { self.length },
            ..self
        }
    }

    /// The channel after a write of `value` to `address`.
    #[verifier::opaque]
    pub open spec fn written(self, address: u16, value: u8, frame_seq_step: u8, master_enable: bool) -> Self {
        if address == 0xFF16 {
            Channel2 {
                wave_pattern_duty: if master_enable { (value >> 6u8) & 3 } else { self.wave_pattern_duty },
                length: (64 - (value & 0x3F)) as u8,
                ..self
            }
        } else if address == 0xFF17 && master_enable {
            let initial = (value >> 4u8) & 0xF;
            let direction = test_spec(value, 3);
            Channel2 {
                volume_envl_initial: initial,
                volume_envl_direction: direction,
                volume_envl_period: value & 7,
                enable: if initial == 0 && !direction { false } else { self.enable },
                ..self
            }
        } else if address == 0xFF18 && master_enable {
            Channel2 { frequency: (self.frequency & !0xFFu16) | (value as u16), ..self }
        } else if address == 0xFF19 && master_enable {
            let c = self.control_written(value, frame_seq_step);
            if test_spec(value, 7) {
                c.triggered(frame_seq_step)
            } else if c.length == 0 {
                Channel2 { enable: false, ..c }
            } else {
                c
            }
        } else {
            self
        }
    }

    pub fn write(&mut self, address: u16, value: u8, frame_seq_step: u8, master_enable: bool)
        requires
            address == 0xFF19 && master_enable && test_spec(value, 7) ==> old(self).control_written(
                value,
                frame_seq_step,
            ).frequency <= 2048,
        ensures
            *final(self) == old(self).written(address, value, frame_seq_step, master_enable),
    {
        proof {
            reveal(Channel2::written);
        }
        if address == 0xFF16 {
            assert(value & 0x3F <= 63) by (bit_vector);
            if master_enable {
                self.wave_pattern_duty = (value >> 6u8) & 0b11;
            }
            self.length = 64 - (value & 0b11_1111);
        } else if address == 0xFF17 && master_enable {
            self.volume_envl_initial = (value >> 4u8) & 0b1111;
            self.volume_envl_direction = bits::test(value, 3);
            self.volume_envl_period = value & 0b111;
            if self.volume_envl_initial == 0 && !self.volume_envl_direction {
                self.enable = false;
            }
        } else if address == 0xFF18 && master_enable {
            self.frequency = (self.frequency & !0xFFu16) | value as u16;
        } else if address == 0xFF19 && master_enable {
            self.frequency = (self.frequency & !0x700u16) | (((value & 0b111) as u16) << 8u16);
            let prev_length_enable = self.length_enable;
            self.length_enable = bits::test(value, 6);
            if !prev_length_enable && self.length_enable && (frame_seq_step % 2 == 1)
                && self.length > 0 {
                self.length -= 1;
            }
            if bits::test(value, 7) {
                self.trigger(frame_seq_step);
            } else if self.length == 0 {
                self.enable = false;
            }
        }
    }
}

} // verus!
