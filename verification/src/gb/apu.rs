//! Audio processing unit: four sound channels driven by a frame sequencer.

pub mod ch1;
pub mod ch2;
pub mod ch3;
pub mod ch4;
pub mod laws;

use vstd::prelude::*;
use crate::bits;
use crate::bits::{bit_spec, test_spec};
use self::ch1::Channel1;
use self::ch2::Channel2;
use self::ch3::{Channel3, Channel3View};
use self::ch4::Channel4;

verus! {

/// The 8-step wave pattern selected by a square channel's duty code.
///     0      00000001    12.5%
///     1      10000001    25%
///     2      10000111    50%
///     3      01111110    75%
pub open spec fn duty_pattern(duty: u8) -> u8 {
    if duty == 3 {
        0b01111110u8
    } else if duty == 2 {
        0b10000111u8
    } else if duty == 1 {
        0b10000001u8
    } else {
        0b00000001u8
    }
}

/// Selects the wave pattern for a duty code (see `duty_pattern`).
pub fn wave_pattern(duty: u8) -> (r: u8)
    ensures
        r == duty_pattern(duty),
{
    if duty == 0b11 {
        0b01111110
    } else if duty == 0b10 {
        0b10000111
    } else if duty == 0b01 {
        0b10000001
    } else {
        0b00000001
    }
}

/// The value a volume-envelope timer is reloaded with: a period of 0 counts as 8.
pub open spec fn envelope_reload(period: u8) -> u8 {
    if period == 0 { 8u8 } else { period }
}

/// The length counter loaded on trigger when it was zero: 63 when the length counter is
/// enabled and the next frame-sequencer step will not clock it, 64 otherwise.
pub open spec fn trigger_length(length_enable: bool, frame_seq_step: u8) -> u8 {
    if length_enable && frame_seq_step % 2 == 1 { 63u8 } else { 64u8 }
}

/// The frequency-timer period of a square channel: `(2048 - frequency) * 4`.
pub open spec fn square_period(frequency: u16) -> u16 {
    ((2048 - frequency) * 4) as u16
}

/// The volume after a volume-envelope register write of `value`: with a zero old period the
/// volume steps once (twice in add mode), and a change of direction maps it to `16 - volume`.
pub open spec fn envelope_write_volume(volume: u8, period: u8, direction: bool, value: u8) -> int {
    let v1: int = if period == 0 {
        (((volume + 1 + if direction { 1int } else { 0 }) as u8) & 0xF) as int
    } else {
        volume as int
    };
    if direction != crate::bits::test_spec(value, 3) {
        (((16 - v1) as u8) & 0xF) as int
    } else {
        v1
    }
}

/// The volume-envelope register write performs no overflowing arithmetic.
pub open spec fn envelope_write_ok(volume: u8, period: u8, direction: bool, value: u8) -> bool {
    let v1: int = if period == 0 {
        (((volume + 1 + if direction { 1int } else { 0 }) as u8) & 0xF) as int
    } else {
        volume as int
    };
    &&& period == 0 ==> volume + 1 + (if direction { 1int } else { 0 }) <= 255
    &&& direction != crate::bits::test_spec(value, 3) ==> v1 <= 16
}

#[derive(Default)]
pub struct APU {
    pub ch1: Channel1,
    pub ch2: Channel2,
    pub ch3: Channel3,
    pub ch4: Channel4,
    /// Master enable
    pub enable: bool,
    /// Current step of the frame sequencer
    pub frame_seq_step: u8,
    /// Output Vin to SO2 terminal (left)
    pub left_vin_enable: bool,
    /// Output Vin to SO1 terminal (right)
    pub right_vin_enable: bool,
    /// S02 terminal volume (left)
    pub left_volume: u8,
    /// S01 terminal volume (right)
    pub right_volume: u8,
    /// Output Channel 1 to SO2 (left) terminal
    pub ch1_left_enable: bool,
    /// Output Channel 2 to SO2 (left) terminal
    pub ch2_left_enable: bool,
    /// Output Channel 3 to SO2 (left) terminal
    pub ch3_left_enable: bool,
    /// Output Channel 4 to SO2 (left) terminal
    pub ch4_left_enable: bool,
    /// Output Channel 1 to SO1 (right) terminal
    pub ch1_right_enable: bool,
    /// Output Channel 2 to SO1 (right) terminal
    pub ch2_right_enable: bool,
    /// Output Channel 3 to SO1 (right) terminal
    pub ch3_right_enable: bool,
    /// Output Channel 4 to SO1 (right) terminal
    pub ch4_right_enable: bool,
}

/// The abstract APU state, with channel 3 taken by its view.
pub struct APUView {
    pub ch1: Channel1,
    pub ch2: Channel2,
    pub ch3: Channel3View,
    pub ch4: Channel4,
    pub enable: bool,
    pub frame_seq_step: u8,
    pub left_vin_enable: bool,
    pub right_vin_enable: bool,
    pub left_volume: u8,
    pub right_volume: u8,
    pub ch1_left_enable: bool,
    pub ch2_left_enable: bool,
    pub ch3_left_enable: bool,
    pub ch4_left_enable: bool,
    pub ch1_right_enable: bool,
    pub ch2_right_enable: bool,
    pub ch3_right_enable: bool,
    pub ch4_right_enable: bool,
}

impl View for APU {
    type V = APUView;

    open spec fn view(&self) -> APUView {
        APUView {
            ch1: self.ch1,
            ch2: self.ch2,
            ch3: self.ch3@,
            ch4: self.ch4,
            enable: self.enable,
            frame_seq_step: self.frame_seq_step,
            left_vin_enable: self.left_vin_enable,
            right_vin_enable: self.right_vin_enable,
            left_volume: self.left_volume,
            right_volume: self.right_volume,
            ch1_left_enable: self.ch1_left_enable,
            ch2_left_enable: self.ch2_left_enable,
            ch3_left_enable: self.ch3_left_enable,
            ch4_left_enable: self.ch4_left_enable,
            ch1_right_enable: self.ch1_right_enable,
            ch2_right_enable: self.ch2_right_enable,
            ch3_right_enable: self.ch3_right_enable,
            ch4_right_enable: self.ch4_right_enable,
        }
    }
}

/// Address ranges of the four channels' registers.
pub open spec fn is_ch1(address: u16) -> bool {
    0xFF10 <= address <= 0xFF14
}

pub open spec fn is_ch2(address: u16) -> bool {
    0xFF16 <= address <= 0xFF19
}

pub open spec fn is_ch3(address: u16) -> bool {
    0xFF1A <= address <= 0xFF1E || 0xFF30 <= address <= 0xFF3F
}

pub open spec fn is_ch4(address: u16) -> bool {
    0xFF20 <= address <= 0xFF23
}

impl APUView {
    /// The master registers after `clear`: everything off and the sequencer at step 0.
    pub open spec fn cleared(self) -> Self {
        APUView {
            enable: false,
            frame_seq_step: 0,
            left_vin_enable: false,
            right_vin_enable: false,
            left_volume: 0,
            right_volume: 0,
            ch1_left_enable: false,
            ch2_left_enable: false,
            ch3_left_enable: false,
            ch4_left_enable: false,
            ch1_right_enable: false,
            ch2_right_enable: false,
            ch3_right_enable: false,
            ch4_right_enable: false,
            ..self
        }
    }

    /// NR50 (0xFF24): Vin enables and terminal volumes.
    pub open spec fn nr50(self) -> u8 {
        bit_spec(self.left_vin_enable, 7) | bit_spec(self.right_vin_enable, 3) | (self.left_volume
            << 4u8) | self.right_volume
    }

    /// NR51 (0xFF25): channel-to-terminal routing.
    pub open spec fn nr51(self) -> u8 {
        bit_spec(self.ch4_left_enable, 7) | bit_spec(self.ch3_left_enable, 6) | bit_spec(
            self.ch2_left_enable,
            5,
        ) | bit_spec(self.ch1_left_enable, 4) | bit_spec(self.ch4_right_enable, 3) | bit_spec(
            self.ch3_right_enable,
            2,
        ) | bit_spec(self.ch2_right_enable, 1) | bit_spec(self.ch1_right_enable, 0)
    }

    /// NR52 (0xFF26): master enable and per-channel status; bits 4-6 read as 1.
    pub open spec fn nr52(self) -> u8 {
        bit_spec(self.enable, 7) | bit_spec(self.ch4.enabled_spec(), 3) | bit_spec(
            self.ch3.enabled_spec(),
            2,
        ) | bit_spec(self.ch2.enabled_spec(), 1) | bit_spec(self.ch1.enabled_spec(), 0) | 0x70
    }

    pub open spec fn read_spec(self, address: u16) -> u8 {
        if is_ch1(address) {
            self.ch1.read_spec(address)
        } else if is_ch2(address) {
            self.ch2.read_spec(address)
        } else if is_ch3(address) {
            self.ch3.read_spec(address)
        } else if is_ch4(address) {
            self.ch4.read_spec(address)
        } else if address == 0xFF24 {
            self.nr50()
        } else if address == 0xFF25 {
            self.nr51()
        } else if address == 0xFF26 {
            self.nr52()
        } else {
            0xFF
        }
    }

    #[verifier::opaque]
    pub open spec fn written(self, address: u16, value: u8) -> Self {
        if is_ch1(address) {
            if self.enable {
                APUView { ch1: self.ch1.written(address, value, self.frame_seq_step, true), ..self }
            } else {
                self
            }
        } else if is_ch2(address) {
            if self.enable {
                APUView { ch2: self.ch2.written(address, value, self.frame_seq_step, true), ..self }
            } else {
                self
            }
        } else if is_ch3(address) {
            if self.enable {
                APUView { ch3: self.ch3.written(address, value), ..self }
            } else {
                self
            }
        } else if is_ch4(address) {
            if self.enable {
                APUView { ch4: self.ch4.written(address, value, self.frame_seq_step, true), ..self }
            } else {
                self
            }
        } else if address == 0xFF24 && self.enable {
            APUView {
                left_vin_enable: test_spec(value, 7),
                right_vin_enable: test_spec(value, 3),
                left_volume: (value >> 4u8) & 7,
                right_volume: value & 7,
                ..self
            }
        } else if address == 0xFF25 && self.enable {
            APUView {
                ch4_left_enable: test_spec(value, 7),
                ch3_left_enable: test_spec(value, 6),
                ch2_left_enable: test_spec(value, 5),
                ch1_left_enable: test_spec(value, 4),
                ch4_right_enable: test_spec(value, 3),
                ch3_right_enable: test_spec(value, 2),
                ch2_right_enable: test_spec(value, 1),
                ch1_right_enable: test_spec(value, 0),
                ..self
            }
        } else if address == 0xFF26 {
            if test_spec(value, 7) {
                APUView { enable: true, ..self }
            } else {
                APUView {
                    ch1: self.ch1.cleared(),
                    ch2: self.ch2.cleared(),
                    ch3: self.ch3.cleared(),
                    ch4: self.ch4.cleared(),
                    ..self.cleared()
                }
            }
        } else {
            self
        }
    }

    /// A register write performs no overflowing arithmetic and stays inside wave RAM.
    pub open spec fn write_ok(self, address: u16, value: u8) -> bool {
        &&& is_ch1(address) && self.enable ==> self.ch1.write_ok(address, value, self.frame_seq_step, true)
        &&& is_ch2(address) && self.enable && address == 0xFF19 && test_spec(value, 7)
            ==> self.ch2.control_written(value, self.frame_seq_step).frequency <= 2048
        &&& is_ch3(address) && self.enable && Channel3View::is_wave_ram(address)
            ==> address - 0xFF30 < self.ch3.wave_ram.len()
        &&& is_ch4(address) && self.enable ==> self.ch4.write_ok(address, value, self.frame_seq_step, true)
    }

    /// Whether the DIV change from `div_last` to `div` is a falling edge of DIV bit 12,
    /// which clocks the frame sequencer.
    pub open spec fn div_edge(div_last: u16, div: u16) -> bool {
        test_spec((div_last >> 8u16) as u8, 4) && !test_spec((div >> 8u16) as u8, 4)
    }

    /// The APU after a DIV change: on a falling edge, even sequencer steps clock all length
    /// counters, and the sequencer advances modulo 8.
    pub open spec fn div_changed(self, div_last: u16, div: u16) -> Self {
        if Self::div_edge(div_last, div) {
            let s = if self.frame_seq_step % 2 == 0 {
                APUView {
                    ch1: self.ch1.length_stepped(),
                    ch2: self.ch2.length_stepped(),
                    ch3: self.ch3.length_stepped(),
                    ch4: self.ch4.length_stepped(),
                    ..self
                }
            } else {
                self
            };
            APUView { frame_seq_step: ((self.frame_seq_step + 1) as u8) & 7, ..s }
        } else {
            self
        }
    }
}

impl APU {
    pub fn reset(&mut self)
        ensures
            final(self)@ == (APUView {
                ch1: old(self)@.ch1.reset_spec(),
                ch2: Channel2 { length: 0, ..old(self)@.ch2.cleared() },
                ch3: Channel3View { wave_ram: ch3::initial_wave_ram(), ..old(self)@.ch3.cleared() },
                ch4: Channel4 { length: 0, ..old(self)@.ch4.cleared() },
                ..old(self)@.cleared()
            }),
    {
        self.ch1.reset();
        self.ch2.reset();
        self.ch3.reset();
        self.ch4.reset();
        self.clear();
    }

    pub fn clear(&mut self)
        ensures
            final(self)@ == old(self)@.cleared(),
    {
        self.enable = false;
        self.frame_seq_step = 0;
        self.left_vin_enable = false;
        self.right_vin_enable = false;
        self.left_volume = 0;
        self.right_volume = 0;
        self.ch1_left_enable = false;
        self.ch2_left_enable = false;
        self.ch3_left_enable = false;
        self.ch4_left_enable = false;
        self.ch1_right_enable = false;
        self.ch2_right_enable = false;
        self.ch3_right_enable = false;
        self.ch4_right_enable = false;
    }

    /// Advances the APU by one M-cycle (no per-cycle work is modelled yet).
    pub fn step(&mut self)
        ensures
            final(self)@ == old(self)@,
    {
    }

    pub fn on_change_div(&mut self, div_last: u16, div: u16)
        requires
            APUView::div_edge(div_last, div) ==> old(self).frame_seq_step < 255,
        ensures
            final(self)@ == old(self)@.div_changed(div_last, div),
    {
        // The APU is driven off ticks of the DIV timer
        if bits::test((div_last >> 8u16) as u8, 4) && !bits::test((div >> 8u16) as u8, 4) {
            if self.frame_seq_step % 2 == 0 {
                // Steps 0, 2, 4, and 6 clock the length counters (every 16,384 T-cycles)
                self.ch1.step_length();
                self.ch2.step_length();
                self.ch3.step_length();
                self.ch4.step_length();
            }
            self.frame_seq_step += 1;
            self.frame_seq_step = self.frame_seq_step & 7;
        }
    }

    pub fn read(&mut self, address: u16) -> (r: u8)
        requires
            Channel3View::is_wave_ram(address) ==> address - 0xFF30 < old(self).ch3.wave_ram.len(),
        ensures
            final(self)@ == old(self)@,
            r == old(self)@.read_spec(address),
    {
        if 0xFF10 <= address && address <= 0xFF14 {
            self.ch1.read(address)
        } else if 0xFF16 <= address && address <= 0xFF19 {
            self.ch2.read(address)
        } else if (0xFF1A <= address && address <= 0xFF1E) || (0xFF30 <= address && address <= 0xFF3F) {
            self.ch3.read(address)
        } else if 0xFF20 <= address && address <= 0xFF23 {
            self.ch4.read(address)
        } else if address == 0xFF24 {
            bits::bit(self.left_vin_enable, 7) | bits::bit(self.right_vin_enable, 3) | (
            self.left_volume << 4u8) | (self.right_volume)
        } else if address == 0xFF25 {
            bits::bit(self.ch4_left_enable, 7) | bits::bit(self.ch3_left_enable, 6) | bits::bit(
                self.ch2_left_enable,
                5,
            ) | bits::bit(self.ch1_left_enable, 4) | bits::bit(self.ch4_right_enable, 3)
                | bits::bit(self.ch3_right_enable, 2) | bits::bit(self.ch2_right_enable, 1)
                | bits::bit(self.ch1_right_enable, 0)
        } else if address == 0xFF26 {
            bits::bit(self.enable, 7) | bits::bit(self.ch4.is_enabled(), 3) | bits::bit(
                self.ch3.is_enabled(),
                2,
            ) | bits::bit(self.ch2.is_enabled(), 1) | bits::bit(self.ch1.is_enabled(), 0) | 0x70
        } else {
            0xFF
        }
    }

    pub fn write(&mut self, address: u16, value: u8)
        requires
            old(self)@.write_ok(address, value),
        ensures
            final(self)@ == old(self)@.written(address, value),
    {
        if 0xFF10 <= address && address <= 0xFF23 {
            self.write_channel(address, value);
        } else if 0xFF30 <= address && address <= 0xFF3F {
            self.write_channel(address, value);
        } else {
            self.write_master(address, value);
        }
    }

    /// Writes to a channel register, which only takes effect while the APU is enabled.
    fn write_channel(&mut self, address: u16, value: u8)
        requires
            old(self)@.write_ok(address, value),
            0xFF10 <= address <= 0xFF23 || 0xFF30 <= address <= 0xFF3F,
        ensures
            final(self)@ == old(self)@.written(address, value),
    {
        proof {
            reveal(APUView::written);
        }
        if self.enable {
            if address <= 0xFF14 {
                self.ch1.write(address, value, self.frame_seq_step, self.enable);
            } else if 0xFF16 <= address && address <= 0xFF19 {
                self.ch2.write(address, value, self.frame_seq_step, self.enable);
            } else if (0xFF1A <= address && address <= 0xFF1E) || 0xFF30 <= address {
                self.ch3.write(address, value);
            } else if 0xFF20 <= address && address <= 0xFF23 {
                self.ch4.write(address, value, self.frame_seq_step, self.enable);
            }
        }
    }

    /// Writes to NR50 - NR52; other addresses are ignored.
    fn write_master(&mut self, address: u16, value: u8)
        requires
            !(0xFF10 <= address <= 0xFF23 || 0xFF30 <= address <= 0xFF3F),
        ensures
            final(self)@ == old(self)@.written(address, value),
    {
        proof {
            reveal(APUView::written);
        }
        if address == 0xFF24 && self.enable {
            self.write_nr50(value);
        } else if address == 0xFF25 && self.enable {
            self.write_nr51(value);
        } else if address == 0xFF26 {
            self.write_nr52(value);
        }
    }

    fn write_nr50(&mut self, value: u8)
        ensures
            final(self)@ == (APUView {
                left_vin_enable: test_spec(value, 7),
                right_vin_enable: test_spec(value, 3),
                left_volume: (value >> 4u8) & 7,
                right_volume: value & 7,
                ..old(self)@
            }),
    {
        self.left_vin_enable = bits::test(value, 7);
        self.right_vin_enable = bits::test(value, 3);
        self.left_volume = (value >> 4u8) & 0b111;
        self.right_volume = value & 0b111;
    }

    fn write_nr51(&mut self, value: u8)
        ensures
            final(self)@ == (APUView {
                ch4_left_enable: test_spec(value, 7),
                ch3_left_enable: test_spec(value, 6),
                ch2_left_enable: test_spec(value, 5),
                ch1_left_enable: test_spec(value, 4),
                ch4_right_enable: test_spec(value, 3),
                ch3_right_enable: test_spec(value, 2),
                ch2_right_enable: test_spec(value, 1),
                ch1_right_enable: test_spec(value, 0),
                ..old(self)@
            }),
    {
        self.ch4_left_enable = bits::test(value, 7);
        self.ch3_left_enable = bits::test(value, 6);
        self.ch2_left_enable = bits::test(value, 5);
        self.ch1_left_enable = bits::test(value, 4);
        self.ch4_right_enable = bits::test(value, 3);
        self.ch3_right_enable = bits::test(value, 2);
        self.ch2_right_enable = bits::test(value, 1);
        self.ch1_right_enable = bits::test(value, 0);
    }

    fn write_nr52(&mut self, value: u8)
        ensures
            final(self)@ == (if test_spec(value, 7) {
                APUView { enable: true, ..old(self)@ }
            } else {
                APUView {
                    ch1: old(self)@.ch1.cleared(),
                    ch2: old(self)@.ch2.cleared(),
                    ch3: old(self)@.ch3.cleared(),
                    ch4: old(self)@.ch4.cleared(),
                    ..old(self)@.cleared()
                }
            }),
    {
        self.enable = bits::test(value, 7);
        if !self.enable {
            // When sound is disabled; clear all channels
            self.clear();
            self.ch1.clear();
            self.ch2.clear();
            self.ch3.clear();
            self.ch4.clear();
        }
    }
}

/// A register write keeps the size of the wave RAM.
pub proof fn lemma_written_keeps_wave_ram_len(a: APUView, address: u16, value: u8)
    requires
        a.write_ok(address, value),
    ensures
        a.written(address, value).ch3.wave_ram.len() == a.ch3.wave_ram.len(),
{
    reveal(APUView::written);
    reveal(Channel3View::written);
}

} // verus!
