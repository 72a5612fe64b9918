//! What the PPU's registers promise across calls: a write is read back, read-only and
//! locked regions stay as they were, and with the LCD off the timing stands still.

use vstd::prelude::*;
use crate::bits::{bit_spec, test_spec};
use super::{grey, shade_spec, GpuView};
use super::render::{pixel_put, SpriteScan};

verus! {

/// Writing one of the plain byte registers (SCY, SCX, LYC, BGP, OBP0, OBP1, WY, WX) and
/// reading it back gives the value written.
pub proof fn law_register_roundtrip(g: GpuView, address: u16, value: u8, in_oam_dma: bool)
    requires
        address == 0xFF42 || address == 0xFF43 || address == 0xFF45 || address == 0xFF47
            || address == 0xFF48 || address == 0xFF49 || address == 0xFF4A || address == 0xFF4B,
    ensures
        g.written(address, value, in_oam_dma).read_spec(address, in_oam_dma) == value,
{
}

/// A VRAM byte written outside mode 3 reads back as written.
pub proof fn law_vram_roundtrip(g: GpuView, address: u16, value: u8, in_oam_dma: bool)
    requires
        g.wf(),
        0x8000 <= address <= 0x9FFF,
        g.lcd_mode != 3,
    ensures
        g.written(address, value, in_oam_dma).read_spec(address, in_oam_dma) == value,
{
    crate::bits::lemma_and_bound();
}

/// An OAM byte written outside OAM DMA reads back as written in modes 0 and 1.
pub proof fn law_oam_roundtrip(g: GpuView, address: u16, value: u8)
    requires
        g.wf(),
        0xFE00 <= address <= 0xFE9F,
        g.lcd_mode < 2,
    ensures
        g.written(address, value, false).read_spec(address, false) == value,
{
}

/// OAM cannot be written during OAM DMA.
pub proof fn law_oam_locked_during_dma(g: GpuView, address: u16, value: u8)
    requires
        0xFE00 <= address <= 0xFE9F,
    ensures
        g.written(address, value, true) == g,
{
}

/// LY is read-only.
pub proof fn law_ly_read_only(g: GpuView, value: u8, in_oam_dma: bool)
    ensures
        g.written(0xFF44, value, in_oam_dma) == g,
{
}

/// LCDC reads back exactly as written.
pub proof fn law_lcdc_roundtrip(g: GpuView, value: u8, in_oam_dma: bool)
    ensures
        g.written(0xFF40, value, in_oam_dma).read_spec(0xFF40, in_oam_dma) == value,
{
    assert(bit_spec(test_spec(value, 7), 7) | bit_spec(test_spec(value, 6), 6) | bit_spec(
        test_spec(value, 5),
        5,
    ) | bit_spec(test_spec(value, 4), 4) | bit_spec(test_spec(value, 3), 3) | bit_spec(
        test_spec(value, 2),
        2,
    ) | bit_spec(test_spec(value, 1), 1) | bit_spec(test_spec(value, 0), 0) == value)
        by (bit_vector);
}

/// With the LCD off, a step changes nothing and raises no interrupt.
pub proof fn law_lcd_off_idle(g: GpuView, if_: u8)
    requires
        !g.lcd_enable,
    ensures
        g.stepped(if_) == (g, if_, false),
{
}

/// Switching the LCD off puts LY at 0 and the mode machine at the start of mode 0.
pub proof fn law_lcd_off_resets(g: GpuView, value: u8, in_oam_dma: bool)
    requires
        !test_spec(value, 7),
    ensures
        g.written(0xFF40, value, in_oam_dma).ly == 0,
        g.written(0xFF40, value, in_oam_dma).lcd_mode == 0,
        g.written(0xFF40, value, in_oam_dma).cycles == 0,
        !g.written(0xFF40, value, in_oam_dma).lcd_enable,
{
}

/// A step only raises interrupts: the flags already set stay set, and only V-Blank (bit 0)
/// and STAT (bit 1) can be added.
pub proof fn law_step_only_raises_interrupts(g: GpuView, if_: u8)
    ensures
        g.stepped(if_).1 & if_ == if_,
        g.stepped(if_).1 & 0xFC == if_ & 0xFC,
{
    assert(if_ & if_ == if_ && (if_ | 1u8) & if_ == if_ && (if_ | 1u8) & 0xFCu8 == if_ & 0xFCu8 && (if_ | 2u8)
        & if_ == if_ && (if_ | 2u8) & 0xFCu8 == if_ & 0xFCu8 && ((if_ | 1u8) | 2u8) & if_ == if_ && ((if_
        | 1u8) | 2u8) & 0xFCu8 == if_ & 0xFCu8) by (bit_vector);
}

/// The STAT interrupt fires only when its line goes from 0 to 1: while the line was already
/// high, a step raises at most V-Blank.
pub proof fn law_stat_fires_on_rising_edge(g: GpuView, if_: u8)
    requires
        g.stat_irq,
        g.lcd_enable,
    ensures
        g.stepped(if_).1 == (if g.stepped(if_).2 { if_ | 1 } else { if_ }),
{
}

/// A visible, non-transparent pixel of sprite `i` (column `x` of the sprite, on screen and
/// not hidden by the background or an earlier sprite) is shaded through OBP1 (the value
/// read at 0xFF49) when bit 4 of the sprite's attribute byte (OAM byte 3) is set, and
/// through OBP0 (the value read at 0xFF48) when it is clear.
pub proof fn law_sprite_palette_select(g: GpuView, s: SpriteScan, i: int, x: int, in_oam_dma: bool)
    requires
        0 <= i < 40,
        0 <= x < 8,
        0 <= g.oam[4 * i + 1] - 8 + x < 160,
        !g.sprite_hidden(s, i, g.ly * 160 + g.oam[4 * i + 1] - 8 + x),
        g.sprite_color_number(i, x) != 0,
    ensures
        ({
            let ci = g.ly * 160 + g.oam[4 * i + 1] - 8 + x;
            let palette = if test_spec(g.oam[4 * i + 3], 4) {
                g.read_spec(0xFF49, in_oam_dma)
            } else {
                g.read_spec(0xFF48, in_oam_dma)
            };
            g.sprite_column(s, i, x).0.framebuffer == pixel_put(
                s.framebuffer,
                ci,
                grey(shade_spec(g.sprite_color_number(i, x), palette)),
            )
        }),
{
}

/// Drawing the background of line LY shades every column through BGP (the value read at
/// 0xFF47): the red, green and blue bytes of pixel (column `i`, LY) get the grey of the
/// column's colour number under BGP, its alpha byte 0xFF, and other lines stay as they were.
pub proof fn law_background_palette(g: GpuView, i: int, k: int, in_oam_dma: bool)
    requires
        g.renderable(),
        0 <= i < 160,
        0 <= k < 4,
    ensures
        ({
            let p = 4 * (g.ly * 160 + i) + k;
            let fb = g.bg_rendered().framebuffer;
            &&& k < 3 ==> fb[p] == grey(shade_spec(g.bg_color_number(i), g.read_spec(0xFF47, in_oam_dma)))
            &&& k == 3 ==> fb[p] == 0xFF
        }),
{
    let p = 4 * (g.ly * 160 + i) + k;
    assert(p / 4 - g.ly * 160 == i);
}

} // verus!
