//! Sound channel 1: a square wave with frequency sweep, volume envelope and length counter.

use vstd::prelude::*;
use crate::bits;
use crate::bits::{bit_spec, test_spec};
use crate::gb::apu::{
    duty_pattern, envelope_reload, envelope_write_ok, envelope_write_volume, square_period,
    trigger_length, wave_pattern,
};

verus! {

#[derive(Default)]
pub struct Channel1 {
    /// Enable
    pub enable: bool,
    /// Sweep Enabled
    pub sweep_enable: bool,
    /// Sweep Timer
    pub sweep_timer: u8,
    /// Whether a sweep calculation in negate mode happened since the last trigger
    pub sweep_negate_calcd: bool,
    /// Sweep Shadow Frequency
    pub frequency_sh: u16,
    /// Sweep Period
    pub sweep_period: u8,
    /// Sweep Direction (true = subtract)
    pub sweep_direction: bool,
    /// Sweep Shift
    pub sweep_shift: u8,
    /// Wave Pattern Duty
    pub wave_pattern_duty: u8,
    /// Current index into the wave pattern
    pub wave_pattern_index: u8,
    /// Sound Length
    pub length: u8,
    /// Counter / Consecutive selection (Length Enable)
    pub length_enable: bool,
    /// Current volume
    pub volume: u8,
    /// Volume envelope timer
    pub volume_envl_timer: u8,
    /// Initial Volume of envelope
    pub volume_envl_initial: u8,
    /// Volume Envelope Direction (0=decrease, 1=increase)
    pub volume_envl_direction: bool,
    /// Volume Envelope Period (a period of 0 is treated as 8)
    pub volume_envl_period: u8,
    /// Frequency - 11-bits
    pub frequency: u16,
    /// Timer (Frequency)
    pub timer: u16,
}

impl Channel1 {
    pub open spec fn enabled_spec(&self) -> bool {
        self.enable && (self.volume_envl_initial > 0 || self.volume_envl_direction)
    }

    pub fn is_enabled(&self) -> (r: bool)
        ensures
            r == self.enabled_spec(),
    {
        self.enable && (self.volume_envl_initial > 0 || self.volume_envl_direction)
    }

    /// The channel after `clear`: all state is zeroed except the length counter and the low
    /// two bits of the frequency timer.
    pub open spec fn cleared(self) -> Self {
        Channel1 {
            enable: false,
            sweep_enable: false,
            sweep_timer: 0,
            frequency_sh: 0,
            sweep_period: 0,
            sweep_direction: false,
            sweep_shift: 0,
            sweep_negate_calcd: false,
            wave_pattern_duty: 0,
            wave_pattern_index: 0,
            length_enable: false,
            volume: 0,
            volume_envl_initial: 0,
            volume_envl_direction: false,
            volume_envl_period: 0,
            volume_envl_timer: 0,
            frequency: 0,
            timer: self.timer & 3,
            ..self
        }
    }

    pub fn clear(&mut self)
        ensures
            *final(self) == old(self).cleared(),
    {
        self.enable = false;
        self.sweep_enable = false;
        self.sweep_timer = 0;
        self.frequency_sh = 0;
        self.sweep_period = 0;
        self.sweep_direction = false;
        self.sweep_shift = 0;
        self.sweep_negate_calcd = false;
        self.wave_pattern_duty = 0;
        self.wave_pattern_index = 0;
        self.length_enable = false;
        self.volume = 0;
        self.volume_envl_initial = 0;
        self.volume_envl_direction = false;
        self.volume_envl_period = 0;
        self.volume_envl_timer = 0;
        self.frequency = 0;
        // When triggering a square channel, the low two bits of the
        // frequency timer are NOT modified.
        self.timer = self.timer & 3;
    }

    /// The power-on state: cleared, enabled, 50% duty, full initial volume, period 3.
    pub open spec fn reset_spec(self) -> Self {
        Channel1 {
            enable: true,
            length: 0,
            wave_pattern_duty: 2,
            volume_envl_period: 3,
            volume_envl_initial: 15,
            timer: 0,
            ..self.cleared()
        }
    }

    pub fn reset(&mut self)
        ensures
            *final(self) == old(self).reset_spec(),
    {
        self.clear();
        self.enable = true;
        self.length = 0;
        self.wave_pattern_duty = 0b10;
        self.volume_envl_period = 0b11;
        self.volume_envl_initial = 0xF;
        self.timer = 0;
    }

    /// The frequency the sweep unit computes from the shadow frequency:
    /// `shadow ± (shadow >> shift)`.
    pub open spec fn sweep_target(&self) -> int {
        if self.sweep_direction {
            self.frequency_sh - (self.frequency_sh >> self.sweep_shift)
        } else {
            self.frequency_sh + (self.frequency_sh >> self.sweep_shift)
        }
    }

    /// A sweep calculation does not overflow 16 bits.
    pub open spec fn sweep_ok(&self) -> bool {
        &&& self.sweep_shift < 16
        &&& self.sweep_target() <= u16::MAX
    }

    /// The channel after a sweep calculation: an overflow past 2047 disables the channel and
    /// the sweep, and a calculation in negate mode is remembered.
    pub open spec fn sweep_calculated(self) -> Self {
        let overflow = self.sweep_target() > 2047;
        Channel1 {
            enable: if overflow { false } else { self.enable },
            sweep_enable: if overflow { false } else { self.sweep_enable },
            sweep_negate_calcd: if self.sweep_direction { true } else { self.sweep_negate_calcd },
            ..self
        }
    }

    pub fn calc_sweep(&mut self) -> (r: u16)
        requires
            old(self).sweep_ok(),
        ensures
            r == old(self).sweep_target(),
            *final(self) == old(self).sweep_calculated(),
    {
        let mut freq = self.frequency_sh;
        let r = self.frequency_sh >> self.sweep_shift;
        proof {
            bits::lemma_shr_bound();
        }
        if self.sweep_direction {
            freq -= r;
        } else {
            freq += r;
        }
        if freq > 2047 {
            self.enable = false;
            self.sweep_enable = false;
        }
        if self.sweep_direction {
            self.sweep_negate_calcd = true;
        }
        freq
    }

    /// The channel after a trigger, before the immediate sweep calculation.
    pub open spec fn trigger_reloaded(self, frame_seq_step: u8) -> Self {
        Channel1 {
            enable: true,
            length: if self.length == 0 {
                trigger_length(self.length_enable, frame_seq_step)
            } else {
                self.length
            },
            timer: square_period(self.frequency),
            volume: self.volume_envl_initial,
            volume_envl_timer: if frame_seq_step == 7 {
                (envelope_reload(self.volume_envl_period) + 1) as u8
            } else {
                envelope_reload(self.volume_envl_period)
            },
            frequency_sh: self.frequency,
            sweep_timer: envelope_reload(self.sweep_period),
            sweep_enable: self.sweep_period > 0 || self.sweep_shift > 0,
            sweep_negate_calcd: false,
            ..self
        }
    }

    /// The channel after a trigger event: reloads, then a sweep calculation when the sweep
    /// shift is non-zero.
    pub open spec fn triggered(self, frame_seq_step: u8) -> Self {
        let c = self.trigger_reloaded(frame_seq_step);
        if c.sweep_enable && c.sweep_shift > 0 {
            c.sweep_calculated()
        } else {
            c
        }
    }

    pub open spec fn trigger_ok(&self, frame_seq_step: u8) -> bool {
        &&& self.frequency <= 2048
        &&& self.sweep_shift < 16
        &&& frame_seq_step == 7 ==> self.volume_envl_period != 255
    }

    pub fn trigger(&mut self, frame_seq_step: u8)
        requires
            old(self).trigger_ok(frame_seq_step),
        ensures
            *final(self) == old(self).triggered(frame_seq_step),
    {
        self.enable = true;
        if self.length == 0 {
            self.length = if self.length_enable && (frame_seq_step % 2 == 1) {
                63
            } else {
                64
            };
        }
        self.timer = (2048 - self.frequency) * 4;
        self.volume = self.volume_envl_initial;
        self.volume_envl_timer = if self.volume_envl_period == 0 {
            8
        } else {
            self.volume_envl_period
        };
        if frame_seq_step == 7 {
            self.volume_envl_timer += 1;
        }
        self.frequency_sh = self.frequency;
        self.sweep_timer = if self.sweep_period == 0 {
            8
        } else {
            self.sweep_period
        };
        self.sweep_enable = self.sweep_period > 0 || self.sweep_shift > 0;
        self.sweep_negate_calcd = false;
        if self.sweep_enable && self.sweep_shift > 0 {
        proof {
            bits::lemma_shr_bound();
        }
            self.calc_sweep();
        }
    }

    pub open spec fn sample_spec(&self) -> i16 {
        if !self.enabled_spec() {
            0
        } else if test_spec(duty_pattern(self.wave_pattern_duty), (7 - self.wave_pattern_index) as u8) {
            self.volume as i16
        } else {
            0
        }
    }

    pub fn sample(&mut self) -> (r: i16)
        requires
            old(self).enabled_spec() ==> old(self).wave_pattern_index <= 7,
        ensures
            *final(self) == *old(self),
            r == old(self).sample_spec(),
    {
        if !self.is_enabled() {
            return 0;
        }
        let pattern = wave_pattern(self.wave_pattern_duty);
        let bit = bits::test(pattern, 7 - self.wave_pattern_index);
        if bit {
            self.volume as i16
        } else {
            0
        }
    }

    pub open spec fn stepped(self) -> Self {
        let timer = if self.timer > 0 { (self.timer - 1) as u16 } else { 0u16 };
        if timer == 0 {
            Channel1 {
                wave_pattern_index: if self.wave_pattern_index + 1 == 8 {
                    0u8
                } else {
                    (self.wave_pattern_index + 1) as u8
                },
                timer: square_period(self.frequency),
                ..self
            }
        } else {
            Channel1 { timer, ..self }
        }
    }

    pub fn step(&mut self)
        requires
            old(self).timer <= 1 ==> old(self).wave_pattern_index < 255 && old(self).frequency
                <= 2048,
        ensures
            *final(self) == old(self).stepped(),
    {
        if self.timer > 0 {
            self.timer -= 1;
        }
        if self.timer == 0 {
            self.wave_pattern_index += 1;
            if self.wave_pattern_index == 8 {
                self.wave_pattern_index = 0;
            }
            self.timer = (2048 - self.frequency) * 4;
        }
    }

    pub open spec fn length_stepped(self) -> Self {
        if self.length_enable && self.length > 0 {
            Channel1 {
                length: (self.length - 1) as u8,
                enable: if self.length == 1 { false } else { self.enable },
                ..self
            }
        } else {
            self
        }
    }

    pub fn step_length(&mut self)
        ensures
            *final(self) == old(self).length_stepped(),
    {
        if self.length_enable && self.length > 0 {
            self.length -= 1;
            if self.length == 0 {
                self.enable = false;
            }
        }
    }

    pub open spec fn volume_stepped(self) -> Self {
        let timer = if self.volume_envl_timer > 0 {
            (self.volume_envl_timer - 1) as u8
        } else {
            0u8
        };
        let volume = if self.volume_envl_period > 0 && timer == 0 {
            if self.volume_envl_direction {
                if self.volume < 15 { (self.volume + 1) as u8 } else { self.volume }
            } else if self.volume > 0 {
                (self.volume - 1) as u8
            } else {
                self.volume
            }
        } else {
            self.volume
        };
        Channel1 {
            volume,
            volume_envl_timer: if timer == 0 { envelope_reload(self.volume_envl_period) } else { timer },
            ..self
        }
    }

    pub fn step_volume(&mut self)
        ensures
            *final(self) == old(self).volume_stepped(),
    {
        if self.volume_envl_timer > 0 {
            self.volume_envl_timer -= 1;
        }
        if self.volume_envl_period > 0 && self.volume_envl_timer == 0 {
            if self.volume_envl_direction {
                if self.volume < 0xF {
                    self.volume += 1;
                }
            } else if self.volume > 0 {
                self.volume -= 1;
            }
        }
        if self.volume_envl_timer == 0 {
            self.volume_envl_timer = if self.volume_envl_period == 0 {
                8
            } else {
                self.volume_envl_period
            };
        }
    }

    /// The channel after one clock of the sweep unit.
    pub open spec fn sweep_stepped(self) -> Self {
        let timer = if self.sweep_timer > 0 { (self.sweep_timer - 1) as u8 } else { 0u8 };
        let s0 = Channel1 { sweep_timer: timer, ..self };
        let s1 = if self.sweep_period > 0 && self.sweep_enable && timer == 0 {
            let freq = s0.sweep_target();
            let s = s0.sweep_calculated();
            if freq <= 2047 && self.sweep_shift > 0 {
                Channel1 { frequency_sh: freq as u16, frequency: freq as u16, ..s }.sweep_calculated()
            } else {
                s
            }
        } else {
            s0
        };
        if timer == 0 {
            Channel1 { sweep_timer: envelope_reload(self.sweep_period), ..s1 }
        } else {
            s1
        }
    }

    /// The sweep clock performs its calculations without overflow.
    pub open spec fn sweep_step_ok(&self) -> bool {
        let timer = if self.sweep_timer > 0 { self.sweep_timer - 1 } else { 0 };
        self.sweep_period > 0 && self.sweep_enable && timer == 0 ==> self.sweep_ok()
    }

    pub fn step_sweep(&mut self)
        requires
            old(self).sweep_step_ok(),
        ensures
            *final(self) == old(self).sweep_stepped(),
    {
        if self.sweep_timer > 0 {
            self.sweep_timer -= 1;
        }
        if self.sweep_period > 0 && self.sweep_enable && self.sweep_timer == 0 {
            let freq = self.calc_sweep();
            if freq <= 2047 && self.sweep_shift > 0 {
                self.frequency_sh = freq;
                self.frequency = freq;
        proof {
            bits::lemma_shr_bound();
        }
                self.calc_sweep();
            }
        }
        if self.sweep_timer == 0 {
            self.sweep_timer = if self.sweep_period == 0 {
                8
            } else {
                self.sweep_period
            };
        }
    }

    pub open spec fn read_spec(&self, address: u16) -> u8 {
        if address == 0xFF10 {
            (self.sweep_period << 4u8) | bit_spec(self.sweep_direction, 3) | self.sweep_shift | 0x80
        } else if address == 0xFF11 {
            (self.wave_pattern_duty << 6u8) | 0x3F
        } else if address == 0xFF12 {
            (self.volume_envl_initial << 4u8) | bit_spec(self.volume_envl_direction, 3)
                | self.volume_envl_period
        } else if address == 0xFF14 {
            bit_spec(self.length_enable, 6) | 0xBF
        } else {
            0xFF
        }
    }

    pub fn read(&mut self, address: u16) -> (r: u8)
        ensures
            *final(self) == *old(self),
            r == old(self).read_spec(address),
    {
        if address == 0xFF10 {
            (self.sweep_period << 4u8) | bits::bit(self.sweep_direction, 3) | self.sweep_shift
                | 0x80
        } else if address == 0xFF11 {
            (self.wave_pattern_duty << 6u8) | 0x3F
        } else if address == 0xFF12 {
            (self.volume_envl_initial << 4u8) | bits::bit(self.volume_envl_direction, 3)
                | self.volume_envl_period
        } else if address == 0xFF14 {
            bits::bit(self.length_enable, 6) | 0xBF
        } else {
            0xFF
        }
    }

    pub open spec fn control_written(self, value: u8, frame_seq_step: u8) -> Self {
        let length_enable = test_spec(value, 6);
        let extra_clock = !self.length_enable && length_enable && frame_seq_step % 2 == 1
            && self.length > 0;
        Channel1 {
            frequency: (self.frequency & !0x700u16) | (((value & 7) as u16) << 8u16),
            length_enable,
            length: if extra_clock { (self.length - 1) as u8 } else { self.length },
            ..self
        }
    }

    #[verifier::opaque]
    pub open spec fn written(self, address: u16, value: u8, frame_seq_step: u8, master_enable: bool) -> Self {
        if address == 0xFF10 && master_enable {
            let kill = self.sweep_direction && !test_spec(value, 3) && self.sweep_negate_calcd;
            Channel1 {
                sweep_period: (value >> 4u8) & 7,
                sweep_shift: value & 7,
                enable: if kill { false } else { self.enable },
                sweep_enable: if kill { false } else { self.sweep_enable },
                sweep_direction: test_spec(value, 3),
                ..self
            }
        } else if address == 0xFF11 {
            Channel1 {
                wave_pattern_duty: if master_enable { (value >> 6u8) & 3 } else { self.wave_pattern_duty },
                length: (64 - (value & 0x3F)) as u8,
                ..self
            }
        } else if address == 0xFF12 && master_enable {
            let initial = (value >> 4u8) & 0xF;
            let direction = test_spec(value, 3);
            Channel1 {
                volume: envelope_write_volume(self.volume, self.volume_envl_period, self.volume_envl_direction, value) as u8,
                volume_envl_initial: initial,
                volume_envl_direction: direction,
                volume_envl_period: value & 7,
                enable: if initial == 0 && !direction { false } else { self.enable },
                ..self
            }
        } else if address == 0xFF13 && master_enable {
            Channel1 { frequency: (self.frequency & !0xFFu16) | (value as u16), ..self }
        } else if address == 0xFF14 && master_enable {
            let c = self.control_written(value, frame_seq_step);
            if test_spec(value, 7) {
                c.triggered(frame_seq_step)
            } else if c.length == 0 {
                Channel1 { enable: false, ..c }
            } else {
                c
            }
        } else {
            self
        }
    }

    /// A register write performs no overflowing arithmetic.
    pub open spec fn write_ok(&self, address: u16, value: u8, frame_seq_step: u8, master_enable: bool) -> bool {
        &&& address == 0xFF12 && master_enable ==> envelope_write_ok(self.volume, self.volume_envl_period, self.volume_envl_direction, value)
        &&& address == 0xFF14 && master_enable && test_spec(value, 7) ==> self.control_written(
            value,
            frame_seq_step,
        ).trigger_ok(frame_seq_step)
    }

    pub fn write(&mut self, address: u16, value: u8, frame_seq_step: u8, master_enable: bool)
        requires
            old(self).write_ok(address, value, frame_seq_step, master_enable),
        ensures
            *final(self) == old(self).written(address, value, frame_seq_step, master_enable),
    {
        proof {
            reveal(Channel1::written);
        }
        if address == 0xFF10 && master_enable {
            self.sweep_period = (value >> 4u8) & 0b111;
            self.sweep_shift = value & 0b111;
            if self.sweep_direction && !bits::test(value, 3) && self.sweep_negate_calcd {
                self.enable = false;
                self.sweep_enable = false;
            }
            self.sweep_direction = bits::test(value, 3);
        } else if address == 0xFF11 {
            assert(value & 0x3F <= 63) by (bit_vector);
            if master_enable {
                self.wave_pattern_duty = (value >> 6u8) & 0b11;
            }
            self.length = 64 - (value & 0b11_1111);
        } else if address == 0xFF12 && master_enable {
            if self.volume_envl_period == 0 && (self.volume > 0 || self.volume < 0xF) {
                self.volume += 1;
                if self.volume_envl_direction {
                    self.volume += 1;
                }
                self.volume = self.volume & 0xF;
            }
            self.volume_envl_initial = (value >> 4u8) & 0b1111;
            if self.volume_envl_direction != bits::test(value, 3) {
                self.volume = 16 - self.volume;
                self.volume = self.volume & 0xF;
            }
            self.volume_envl_direction = bits::test(value, 3);
            self.volume_envl_period = value & 0b111;
            if self.volume_envl_initial == 0 && !self.volume_envl_direction {
                self.enable = false;
            }
        } else if address == 0xFF13 && master_enable {
            self.frequency = (self.frequency & !0xFFu16) | value as u16;
        } else if address == 0xFF14 && master_enable {
            self.frequency = (self.frequency & !0x700u16) | (((value & 0b111) as u16) << 8u16);
            let prev_length_enable = self.length_enable;
            self.length_enable = bits::test(value, 6);
            if !prev_length_enable && self.length_enable && (frame_seq_step % 2 == 1)
                && self.length > 0 {
                self.length -= 1;
            }
            if bits::test(value, 7) {
                self.trigger(frame_seq_step);
            } else if self.length == 0 {
                self.enable = false;
            }
        }
    }
}

} // verus!
