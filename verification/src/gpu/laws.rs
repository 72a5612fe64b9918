//! Read-after-write promises of the controller's memory and registers.

use vstd::prelude::*;
use super::LcdView;

verus! {

/// A VRAM byte reads back as written (this controller never locks VRAM).
pub proof fn law_vram_roundtrip(g: LcdView, address: u16, value: u8)
    requires
        g.wf(),
        0x8000 <= address <= 0x9FFF,
    ensures
        g.written(address, value).read_spec(address) == value,
{
    crate::bits::lemma_and_bound();
}

/// An OAM byte reads back as written.
pub proof fn law_oam_roundtrip(g: LcdView, address: u16, value: u8)
    requires
        g.wf(),
        0xFE00 <= address <= 0xFE9F,
    ensures
        g.written(address, value).read_spec(address) == value,
{
}

/// The plain byte registers read back as written.
pub proof fn law_register_roundtrip(g: LcdView, address: u16, value: u8)
    requires
        address == 0xFF42 || address == 0xFF43 || address == 0xFF45 || address == 0xFF47
            || address == 0xFF48 || address == 0xFF49 || address == 0xFF4A || address == 0xFF4B,
    ensures
        g.written(address, value).read_spec(address) == value,
{
}

/// With the LCD off, a step changes nothing and raises no interrupt.
pub proof fn law_lcd_off_idle(g: LcdView, if_: u8)
    requires
        !g.lcd_enable,
    ensures
        g.stepped(if_) == (g, if_),
{
}

/// The interrupt flags of `n` T-cycles are at most V-Blank (bit 0) and STAT (bit 1).
proof fn lemma_tick_flags(g: LcdView, n: nat)
    ensures
        g.ticks(n).1 & 0xFC == 0,
    decreases n,
{
    if n == 0 {
        assert(0u8 & 0xFCu8 == 0) by (bit_vector);
    } else {
        lemma_tick_flags(g, (n - 1) as nat);
        let (s, f) = g.ticks((n - 1) as nat);
        let (s1, compared, vblank) = s.advanced();
        let a: u8 = if vblank { 1u8 } else { 0u8 };
        let b: u8 = if !s1.stat_irq && s1.stat_line(compared) { 2u8 } else { 0u8 };
        assert(s.ticked().1 == a | b);
        assert((a == 0u8 || a == 1u8) && (b == 0u8 || b == 2u8) && f & 0xFCu8 == 0 ==> (f | (a | b)) & 0xFCu8
            == 0) by (bit_vector);
    }
}

/// A step only raises interrupts: the flags already set stay set, and only V-Blank (bit 0)
/// and STAT (bit 1) can be added.
pub proof fn law_step_only_raises_interrupts(g: LcdView, if_: u8)
    ensures
        g.stepped(if_).1 & if_ == if_,
        g.stepped(if_).1 & 0xFC == if_ & 0xFC,
{
    lemma_tick_flags(g, 4);
    let f = g.ticks(4).1;
    assert(if_ & if_ == if_ && (f & 0xFC == 0 ==> (if_ | f) & if_ == if_ && (if_ | f) & 0xFC == if_
        & 0xFC)) by (bit_vector);
}

} // verus!
