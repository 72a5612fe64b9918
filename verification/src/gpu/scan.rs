//! Rendering the background line and stepping the LCD timing, one M-cycle (4 T-cycles)
//! per step.

use vstd::prelude::*;
use crate::gb::gpu::render::{lemma_line_empty, lemma_line_step, line_written, map_base, pixel_put};
use crate::gb::gpu::timing::{mode_step, mode_step_exec, timing_valid, Timing};
use crate::gb::gpu::{fb_len, grey, shade_spec, tile_number, tile_pixel_spec};
use super::{LcdView, GPU, WIDTH};

verus! {

impl LcdView {
    /// The colour number of column `i` of the background on line LY (scrolled by SCX/SCY).
    pub open spec fn bg_color_number(self, i: int) -> u8 {
        let line = self.ly.wrapping_add(self.scy);
        let x = self.scx % 8 + i;
        let col = (self.scx / 8 + x / 8) % 32;
        let tile = tile_number(
            self.vram[map_base(self.background_tile_map_select) + (line / 8) * 32 + col],
            self.tile_data_select,
        );
        tile_pixel_spec(self.vram, tile, (x % 8) as u8, line % 8)
    }

    /// The grey level of each background column (palette BGP).
    pub open spec fn bg_level(self) -> spec_fn(int) -> u8 {
        |i: int| grey(shade_spec(self.bg_color_number(i), self.bgp))
    }

    /// The state after line LY is rendered at the start of mode 3: mode 3 lasts 179 T-cycles
    /// (183 when SCX mod 8 is above 4), and the background is drawn when enabled.
    pub open spec fn rendered(self) -> Self {
        let s = LcdView { m3_cycles: if self.scx % 8 <= 4 { 179 } else { 183 }, ..self };
        if self.lcd_enable && self.background_display {
            LcdView { framebuffer: line_written(s.framebuffer, s.ly as int, 0, 160, s.bg_level()), ..s }
        } else {
            s
        }
    }

    /// The STAT interrupt line after a T-cycle that compared mode `mode_cmp`.
    pub open spec fn stat_line(self, mode_cmp: u8) -> bool {
        ||| self.lyc_timer == 0 && self.ly == self.lyc && self.lyc_irq_enable
        ||| mode_cmp == 0 && self.m0_irq_enable
        ||| mode_cmp == 2 && self.m2_irq_enable
        ||| mode_cmp == 1 && (self.m1_irq_enable || self.m2_irq_enable)
    }

    /// The mode state machine part of a T-cycle: the new state (the line rendered when mode
    /// 3 starts), the mode STAT compares, and whether V-Blank was entered.
    pub open spec fn advanced(self) -> (LcdView, u8, bool) {
        let (t, mode_cmp, vblank, render) = mode_step(self.timing(), self.m3_cycles);
        let s0 = self.with_timing(t);
        (if render { s0.rendered() } else { s0 }, mode_cmp, vblank)
    }

    /// One T-cycle with the LCD on: the new state and the interrupt flags raised (bit 0
    /// V-Blank, bit 1 STAT on a rising STAT line).
    pub open spec fn ticked(self) -> (LcdView, u8) {
        let (s1, mode_cmp, vblank) = self.advanced();
        let irq = s1.stat_line(mode_cmp);
        let flags = (if vblank { 1u8 } else { 0u8 }) | (if !s1.stat_irq && irq { 2u8 } else { 0u8 });
        (LcdView { stat_irq: irq, ..s1 }, flags)
    }

    /// `n` T-cycles with the LCD on, and the interrupt flags they raise together.
    pub open spec fn ticks(self, n: nat) -> (LcdView, u8)
        decreases n,
    {
        if n == 0 {
            (self, 0u8)
        } else {
            let (s, f) = self.ticks((n - 1) as nat);
            let (s2, f2) = s.ticked();
            (s2, f | f2)
        }
    }

    /// The result of `step`: one M-cycle (4 T-cycles) when the LCD is on, the interrupt
    /// flags OR'd into `if_`; nothing when it is off.
    pub open spec fn stepped(self, if_: u8) -> (LcdView, u8) {
        if !self.lcd_enable {
            (self, if_)
        } else {
            let (s, f) = self.ticks(4);
            (s, if_ | f)
        }
    }
}

impl GPU {
    fn put_pixel(&mut self, p: usize, v: u8)
        requires
            p < WIDTH * 144,
            old(self)@.framebuffer.len() == fb_len(),
        ensures
            final(self)@ == (LcdView { framebuffer: pixel_put(old(self)@.framebuffer, p as int, v), ..old(self)@ }),
    {
        self.framebuffer.set(p * 4, v);
        self.framebuffer.set(p * 4 + 1, v);
        self.framebuffer.set(p * 4 + 2, v);
        self.framebuffer.set(p * 4 + 3, 0xFF);
    }

    /// Get tile index from background tile map
    fn get_tile(&self, row: usize, column: usize) -> (r: usize)
        requires
            self@.vram.len() == 0x4000,
            row + column < 0x4000,
        ensures
            r == tile_number(self@.vram[row + column], self@.tile_data_select),
            r < 384,
    {
        if self.tile_data_select {
            self.vram[row + column] as usize
        } else {
            (((self.vram[row + column] as i8) as isize) + 256) as usize
        }
    }

    /// Get tile data (palette index)
    fn get_tile_data(&self, tile: usize, x: u8, y: u8) -> (r: u8)
        requires
            self@.vram.len() == 0x4000,
            tile < 384,
            x < 8,
            y < 8,
        ensures
            r == tile_pixel_spec(self@.vram, tile as int, x, y),
            r <= 3,
    {
        let offset = tile * 16 + ((y as usize) * 2);
        proof {
            crate::bits::lemma_pixel_bound();
        }
        ((self.vram[offset + 1] >> (7 - x) << 1) & 2) | (self.vram[offset] >> (7 - x) & 1)
    }

    /// Get the grey level of a colour number under a palette register.
    fn get_color(&self, palette_index: u8, palette: u8) -> (r: u8)
        requires
            palette_index <= 3,
        ensures
            r == grey(shade_spec(palette_index, palette)),
    {
        assert(palette_index << 1u8 <= 6) by (bit_vector)
            requires
                palette_index <= 3,
        ;
        let pixel = (palette >> (palette_index << 1)) & 0x3;
        if pixel == 1 {
            0xC0
        } else if pixel == 2 {
            0x60
        } else if pixel == 3 {
            0
        } else {
            0xFF
        }
    }

    /// The colour number of column `i` of the background on line LY.
    fn background_pixel(&self, i: usize) -> (r: u8)
        requires
            self@.ly < 144,
            self@.vram.len() == 0x4000,
            i < WIDTH,
        ensures
            r == self@.bg_color_number(i as int),
            r <= 3,
    {
        let line: u8 = self.ly.wrapping_add(self.scy);
        let row: usize = (if self.background_tile_map_select { 0x1C00 } else { 0x1800 }) + ((line
            as usize) / 8) * 32;
        let x: u8 = self.scx % 8 + i as u8;
        let col: u8 = ((self.scx / 8) + (x / 8)) % 32;
        let tile_idx = self.get_tile(row, col as usize);
        self.get_tile_data(tile_idx, x % 8, line % 8)
    }

    /// Render Tile Map (for Scanline)
    fn render_tiles(&mut self)
        requires
            old(self)@.ly < 144,
            old(self)@.vram.len() == 0x4000,
            old(self)@.framebuffer.len() == fb_len(),
        ensures
            final(self)@ == (LcdView {
                framebuffer: line_written(old(self)@.framebuffer, old(self)@.ly as int, 0, 160, old(self)@.bg_level()),
                ..old(self)@
            }),
    {
        let ghost g = self@;
        let ghost level = g.bg_level();
        let offset = (self.ly as usize) * WIDTH;
        proof {
            lemma_line_empty(g.framebuffer, g.ly as int, 0, level);
        }
        for i in 0..WIDTH
            invariant
                g.ly < 144,
                g.vram.len() == 0x4000,
                g.framebuffer.len() == fb_len(),
                level == g.bg_level(),
                offset == g.ly * 160,
                self@ == (LcdView {
                    framebuffer: line_written(g.framebuffer, g.ly as int, 0, i as int, level),
                    ..g
                }),
        {
            let pal_idx = self.background_pixel(i);
            let c = self.get_color(pal_idx, self.bgp);
            assert(c == level(i as int));
            proof {
                lemma_line_step(g.framebuffer, g.ly as int, 0, i as int, level);
            }
            self.put_pixel(offset + i, c);
        }
    }

    fn set_m3_cycles(&mut self, n: u32)
        ensures
            final(self)@ == (LcdView { m3_cycles: n, ..old(self)@ }),
    {
        self.m3_cycles = n;
    }

    /// Render (Scanline)
    fn render(&mut self)
        requires
            old(self)@.ly < 144,
            old(self)@.vram.len() == 0x4000,
            old(self)@.framebuffer.len() == fb_len(),
        ensures
            final(self)@ == old(self)@.rendered(),
    {
        // Rendering a full scanline takes at least 175 cycles, and the PPU stalls for fine
        // SCX adjustments for up to 2 M-Cycles
        let scx_ = self.scx % 8;
        self.set_m3_cycles(if scx_ <= 4 { 179 } else { 183 });
        if self.lcd_enable && self.background_display {
            self.render_tiles();
        }
    }

    fn load_timing(&self) -> (t: Timing)
        ensures
            t == self@.timing(),
    {
        Timing { cycles: self.cycles, ly: self.ly, lyc_timer: self.lyc_timer, lcd_mode: self.mode, window_line: 0 }
    }

    fn store_timing(&mut self, t: Timing)
        ensures
            final(self)@ == old(self)@.with_timing(t),
    {
        self.cycles = t.cycles;
        self.ly = t.ly;
        self.lyc_timer = t.lyc_timer;
        self.mode = t.lcd_mode;
    }

    fn store_valid_timing(&mut self, t: Timing)
        requires
            old(self)@.wf(),
            timing_valid(t, old(self)@.m3_cycles),
            t.window_line == 0,
        ensures
            final(self)@ == old(self)@.with_timing(t),
            final(self)@.wf(),
    {
        self.store_timing(t);
    }

    fn start_transfer(&mut self, t: Timing)
        requires
            old(self)@.wf(),
            t.lcd_mode == 3,
            t.cycles == 85,
            t.ly < 144,
            t.lyc_timer <= 4,
            t.window_line == 0,
        ensures
            final(self)@ == old(self)@.with_timing(t).rendered(),
            final(self)@.wf(),
    {
        self.store_timing(t);
        self.render();
    }

    fn set_stat_irq(&mut self, irq: bool)
        ensures
            final(self)@ == (LcdView { stat_irq: irq, ..old(self)@ }),
    {
        self.stat_irq = irq;
    }

    /// The mode state machine part of a T-cycle: the new counters (the line rendered when
    /// mode 3 starts), the mode STAT compares, and whether V-Blank was entered.
    fn advance(&mut self) -> (r: (u8, bool))
        requires
            old(self)@.wf(),
        ensures
            final(self)@ == old(self)@.advanced().0,
            r.0 == old(self)@.advanced().1,
            r.1 == old(self)@.advanced().2,
            final(self)@.wf(),
    {
        let t = self.load_timing();
        let (t2, mode_cmp, vblank, render) = mode_step_exec(t, self.m3_cycles);
        if render {
            self.start_transfer(t2);
        } else {
            self.store_valid_timing(t2);
        }
        (mode_cmp, vblank)
    }

    /// One T-cycle with the LCD on; returns the interrupt flags raised.
    fn tick(&mut self) -> (flags: u8)
        requires
            old(self)@.wf(),
        ensures
            final(self)@ == old(self)@.ticked().0,
            flags == old(self)@.ticked().1,
            final(self)@.wf(),
            final(self)@.lcd_enable == old(self)@.lcd_enable,
    {
        let (mode_cmp, vblank) = self.advance();
        // The STAT interrupt fires when its line goes from 0 to 1
        let irq = ((self.lyc_timer == 0) && (self.ly == self.lyc) && self.lyc_irq_enable) || (
        mode_cmp == 0 && self.m0_irq_enable) || (mode_cmp == 2 && self.m2_irq_enable) || (mode_cmp
            == 1 && (self.m1_irq_enable || self.m2_irq_enable));
        let flags: u8 = (if vblank { 1u8 } else { 0u8 }) | (if !self.stat_irq && irq { 2u8 } else { 0u8 });
        self.set_stat_irq(irq);
        flags
    }

    /// Step one M-cycle (4 T-cycles); interrupts raised are OR'd into `if_`.
    pub fn step(&mut self, if_: &mut u8)
        requires
            old(self)@.wf(),
        ensures
            (final(self)@, *final(if_)) == old(self)@.stepped(*old(if_)),
            final(self)@.wf(),
    {
        if !self.lcd_enable {
            return;
        }
        let ghost g = self@;
        let ghost f0 = *if_;
        assert(f0 | 0u8 == f0) by (bit_vector);
        let mut i: usize = 0;
        while i < 4
            invariant
                i <= 4,
                g.lcd_enable,
                self@ == g.ticks(i as nat).0,
                *if_ == f0 | g.ticks(i as nat).1,
                self@.wf(),
                self@.lcd_enable,
            decreases 4 - i,
        {
            let flags = self.tick();
            proof {
                let f = g.ticks(i as nat).1;
                let f2 = g.ticks(i as nat).0.ticked().1;
                assert(f0 | f | f2 == f0 | (f | f2)) by (bit_vector);
            }
            *if_ |= flags;
            i += 1;
        }
    }
}

} // verus!
