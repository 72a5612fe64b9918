//! The LCD timing state machine: 456 T-cycles per line, modes 2 (OAM search), 3 (pixel
//! transfer, rendering the line) and 0 (H-Blank) on lines 0-143, mode 1 (V-Blank) on lines
//! 144-153, and the V-Blank and STAT interrupts it raises.

use vstd::prelude::*;
use super::{max_m3_cycles, GpuView, GPU};

verus! {

/// The counters of the LCD timing state machine.
#[derive(Clone, Copy)]
pub struct Timing {
    /// T-cycle of the current line (1-based; 0 right after the LCD is switched off)
    pub cycles: u32,
    /// LY
    pub ly: u8,
    /// Delay before LY is compared to LYC
    pub lyc_timer: u8,
    /// STAT mode
    pub lcd_mode: u8,
    /// Next line of the window to draw
    pub window_line: u8,
}

/// The timing invariant with mode 3 lasting `m3` T-cycles: each mode keeps its cycle
/// counter below the cycle where it moves on, and LY stays within the 154 lines.
pub open spec fn timing_valid(t: Timing, m3: u32) -> bool {
    &&& t.lcd_mode <= 3
    &&& t.ly <= 153
    &&& t.lyc_timer <= 4
    &&& t.window_line <= 144
    &&& 175 <= m3 <= max_m3_cycles() || m3 == 0
    &&& t.lcd_mode == 0 ==> t.cycles < 457 && t.ly <= 144 && (t.ly == 144 ==> t.cycles < 5)
    &&& t.lcd_mode == 1 ==> t.cycles < 457 && (t.ly >= 144 || t.ly == 0) && (t.ly == 153
        ==> t.cycles < 5)
    &&& t.lcd_mode == 2 ==> t.cycles < 85 && t.ly < 144
    &&& t.lcd_mode == 3 ==> t.ly < 144 && 175 <= m3 && t.cycles < 85 + m3
}

/// The counters one T-cycle on: the LY comparison delay runs down and the cycle counter
/// advances.
pub open spec fn tick(t: Timing) -> Timing {
    Timing {
        lyc_timer: if t.lyc_timer > 0 { (t.lyc_timer - 1) as u8 } else { 0 },
        cycles: (t.cycles + 1) as u32,
        ..t
    }
}

/// One T-cycle of the mode state machine with mode 3 lasting `m3` T-cycles: the new
/// counters, the mode STAT compares against (modes 2 and 0 are signalled a few cycles
/// early), whether V-Blank was entered, and whether mode 3 was entered (the line is then
/// rendered).
pub open spec fn mode_step(t: Timing, m3: u32) -> (Timing, u8, bool, bool) {
    let s = tick(t);
    let c = s.cycles;
    if s.lcd_mode == 0 {
        if c == 5 {
            if s.ly < 144 {
                // Lines 0-143 start in mode 0 for 4 cycles, then search OAM (mode 2)
                (Timing { lcd_mode: 2, ..s }, 2u8, false, false)
            } else {
                // Line 144 enters V-Blank (mode 1)
                (Timing { lcd_mode: 1, window_line: 0, ..s }, 1u8, true, false)
            }
        } else if 1 <= c < 5 && 1 <= s.ly <= 143 {
            // Lines 1-143 signal the mode 2 interrupt 4 T-cycles early
            (s, 2u8, false, false)
        } else if c == 457 {
            // A line takes 456 T-cycles
            (Timing { ly: (s.ly + 1) as u8, lyc_timer: 4, lcd_mode: 0, cycles: 1, ..s }, 0u8, false, false)
        } else {
            (s, 0u8, false, false)
        }
    } else if s.lcd_mode == 1 {
        if c == 457 {
            if s.ly == 0 {
                // Back to the top of the screen
                (Timing { cycles: 1, lcd_mode: 0, ..s }, 0u8, false, false)
            } else {
                (Timing { cycles: 1, ly: (s.ly + 1) as u8, lyc_timer: 4, ..s }, 1u8, false, false)
            }
        } else if s.ly == 153 && c == 5 {
            // Line 153 spends only 4 T-cycles with LY == 153
            (Timing { ly: 0, lyc_timer: 4, ..s }, 1u8, false, false)
        } else {
            (s, 1u8, false, false)
        }
    } else if s.lcd_mode == 2 {
        if c == 85 {
            // Mode 3: the line is rendered as it starts
            (Timing { lcd_mode: 3, ..s }, 3u8, false, true)
        } else {
            (s, 2u8, false, false)
        }
    } else if s.lcd_mode == 3 {
        if 85 + m3 - 7 <= c < 85 + m3 {
            // The mode 0 interrupt is signalled 7 T-cycles early
            (s, 0u8, false, false)
        } else if c == 85 + m3 {
            // Mode 0: H-Blank
            (Timing { lcd_mode: 0, ..s }, 0u8, false, false)
        } else {
            (s, 3u8, false, false)
        }
    } else {
        (s, s.lcd_mode, false, false)
    }
}

/// The STAT interrupt line: LY = LYC (once compared) with its enable, or the mode being
/// compared (`mode_cmp`) with the enable of that mode (mode 1 also with the mode 2 enable).
pub open spec fn stat_signal(s: GpuView, mode_cmp: u8) -> bool {
    ||| s.lyc_timer == 0 && s.ly == s.lyc && s.lyc_irq_enable
    ||| mode_cmp == 0 && s.m0_irq_enable
    ||| mode_cmp == 2 && s.m2_irq_enable
    ||| mode_cmp == 1 && (s.m1_irq_enable || s.m2_irq_enable)
}

impl GpuView {
    /// The timing counters of this state.
    pub open spec fn timing(self) -> Timing {
        Timing {
            cycles: self.cycles,
            ly: self.ly,
            lyc_timer: self.lyc_timer,
            lcd_mode: self.lcd_mode,
            window_line: self.window_line,
        }
    }

    /// This state with other timing counters.
    pub open spec fn with_timing(self, t: Timing) -> Self {
        GpuView {
            cycles: t.cycles,
            ly: t.ly,
            lyc_timer: t.lyc_timer,
            lcd_mode: t.lcd_mode,
            window_line: t.window_line,
            ..self
        }
    }

    /// One T-cycle with the LCD on: the new state (the line rendered when mode 3 starts),
    /// the mode STAT compares against, and whether V-Blank was entered.
    pub open spec fn advanced(self) -> (GpuView, u8, bool) {
        let (t, mode_cmp, vblank, render) = mode_step(self.timing(), self.m3_cycles);
        let s = self.with_timing(t);
        (if render { s.rendered() } else { s }, mode_cmp, vblank)
    }

    /// The result of `step`: the new state, the interrupt flags (bit 0 V-Blank when it is
    /// entered, bit 1 STAT when the STAT line rises), and whether a frame is complete. With
    /// the LCD off nothing happens.
    pub open spec fn stepped(self, if_: u8) -> (GpuView, u8, bool) {
        if !self.lcd_enable {
            (self, if_, false)
        } else {
            let (s, mode_cmp, vblank) = self.advanced();
            let irq = stat_signal(s, mode_cmp);
            let f1 = if vblank { if_ | 1 } else { if_ };
            let f2 = if !s.stat_irq && irq { f1 | 2 } else { f1 };
            (GpuView { stat_irq: irq, ..s }, f2, vblank)
        }
    }
}

/// One T-cycle of the mode state machine on the counters alone.
pub(crate) fn mode_step_exec(t: Timing, m3: u32) -> (r: (Timing, u8, bool, bool))
    requires
        timing_valid(t, m3),
    ensures
        r == mode_step(t, m3),
        !r.3 ==> timing_valid(r.0, m3),
        r.3 ==> r.0.lcd_mode == 3 && r.0.cycles == 85 && r.0.ly < 144 && r.0.lyc_timer <= 4
            && r.0.window_line <= 144,
{
    let mut s = t;
    if s.lyc_timer > 0 {
        s.lyc_timer = s.lyc_timer - 1;
    }
    s.cycles = s.cycles + 1;
    let c = s.cycles;
    if s.lcd_mode == 0 {
        if c == 5 {
            if s.ly < 144 {
                (Timing { lcd_mode: 2, ..s }, 2, false, false)
            } else {
                (Timing { lcd_mode: 1, window_line: 0, ..s }, 1, true, false)
            }
        } else if c >= 1 && c < 5 && s.ly >= 1 && s.ly <= 143 {
            (s, 2, false, false)
        } else if c == 457 {
            (Timing { ly: s.ly + 1, lyc_timer: 4, lcd_mode: 0, cycles: 1, ..s }, 0, false, false)
        } else {
            (s, 0, false, false)
        }
    } else if s.lcd_mode == 1 {
        if c == 457 {
            if s.ly == 0 {
                (Timing { cycles: 1, lcd_mode: 0, ..s }, 0, false, false)
            } else {
                (Timing { cycles: 1, ly: s.ly + 1, lyc_timer: 4, ..s }, 1, false, false)
            }
        } else if s.ly == 153 && c == 5 {
            (Timing { ly: 0, lyc_timer: 4, ..s }, 1, false, false)
        } else {
            (s, 1, false, false)
        }
    } else if s.lcd_mode == 2 {
        if c == 85 {
            (Timing { lcd_mode: 3, ..s }, 3, false, true)
        } else {
            (s, 2, false, false)
        }
    } else {
        if c >= (85 + m3) - 7 && c < 85 + m3 {
            (s, 0, false, false)
        } else if c == 85 + m3 {
            (Timing { lcd_mode: 0, ..s }, 0, false, false)
        } else {
            (s, 3, false, false)
        }
    }
}

impl GPU {
    /// The timing counters.
    fn load_timing(&self) -> (t: Timing)
        ensures
            t == self@.timing(),
    {
        Timing {
            cycles: self.cycles,
            ly: self.ly,
            lyc_timer: self.lyc_timer,
            lcd_mode: self.lcd_mode,
            window_line: self.window_line,
        }
    }

    /// Replace the timing counters.
    fn store_timing(&mut self, t: Timing)
        ensures
            final(self)@ == old(self)@.with_timing(t),
    {
        self.cycles = t.cycles;
        self.ly = t.ly;
        self.lyc_timer = t.lyc_timer;
        self.lcd_mode = t.lcd_mode;
        self.window_line = t.window_line;
    }

    /// Set the STAT interrupt line.
    fn set_stat_irq(&mut self, irq: bool)
        ensures
            final(self)@ == (GpuView { stat_irq: irq, ..old(self)@ }),
    {
        self.stat_irq = irq;
    }

    /// One T-cycle of the mode state machine.
    fn advance(&mut self) -> (r: (u8, bool))
        requires
            old(self)@.wf(),
        ensures
            final(self)@ == old(self)@.advanced().0,
            r.0 == old(self)@.advanced().1,
            r.1 == old(self)@.advanced().2,
            final(self)@.wf(),
    {
        let t = self.load_timing();
        let (t2, mode_cmp, vblank, render) = mode_step_exec(t, self.m3_cycles);
        if render {
            self.start_transfer(t2);
        } else {
            self.store_valid_timing(t2);
        }
        (mode_cmp, vblank)
    }

    /// Replace the timing counters with ones that keep the invariant.
    fn store_valid_timing(&mut self, t: Timing)
        requires
            old(self)@.wf(),
            timing_valid(t, old(self)@.m3_cycles),
        ensures
            final(self)@ == old(self)@.with_timing(t),
            final(self)@.wf(),
    {
        self.store_timing(t);
    }

    /// Enter mode 3 with the counters `t` and render the line.
    fn start_transfer(&mut self, t: Timing)
        requires
            old(self)@.wf(),
            t.lcd_mode == 3,
            t.cycles == 85,
            t.ly < 144,
            t.lyc_timer <= 4,
            t.window_line <= 144,
        ensures
            final(self)@ == old(self)@.with_timing(t).rendered(),
            final(self)@.wf(),
    {
        self.store_timing(t);
        self.render();
    }

    /// Step one T-cycle; interrupts raised are OR'd into `if_`. Returns `true` when V-Blank
    /// is entered, that is when a frame is complete and ready for the front-end.
    pub fn step(&mut self, if_: &mut u8) -> (refresh: bool)
        requires
            old(self)@.wf(),
        ensures
            (final(self)@, *final(if_), refresh) == old(self)@.stepped(*old(if_)),
            final(self)@.wf(),
    {
        if !self.lcd_enable {
            return false;
        }
        let (mode_cmp, vblank) = self.advance();
        if vblank {
            // V-Blank interrupt
            *if_ |= 0x1;
        }
        // The STAT interrupt fires when its line goes from 0 to 1
        let irq = ((self.lyc_timer == 0) && (self.ly == self.lyc) && self.lyc_irq_enable) || (
        mode_cmp == 0 && self.m0_irq_enable) || (mode_cmp == 2 && self.m2_irq_enable) || (mode_cmp
            == 1 && (self.m1_irq_enable || self.m2_irq_enable));
        if !self.stat_irq && irq {
            *if_ |= 0x2;
        }
        self.set_stat_irq(irq);
        vblank
    }
}

} // verus!
