//! The first-generation LCD controller: the same register file and timing as the Game Boy
//! PPU, stepped per M-cycle, rendering only the background, and with VRAM, OAM and the
//! colour registers always accessible.

pub mod laws;
pub mod scan;

use vstd::prelude::*;
use crate::bits;
use crate::bits::{bit_spec, test_spec};
use crate::gb::gpu::fb_len;
use crate::gb::gpu::timing::{timing_valid, Timing};

verus! {

/// Display width
pub const WIDTH: usize = 160;

/// Display height
pub const HEIGHT: usize = 144;

pub struct GPU {
    /// Pixel data (for the current frame), rewritten line by line
    pub framebuffer: Vec<u8>,
    /// [0x8000 - 0x9FFF] Video RAM (VRAM) — 8 KiB x 2 Banks
    vram: Vec<u8>,
    /// [0xFF4F] Video RAM Bank (VBK) 0 - 1
    vram_bank: u8,
    /// [0xFE00 — 0xFE9F] Sprite Attribute Table (OAM) — 160 Bytes
    oam: Vec<u8>,
    /// STAT IRQ; current value (the interrupt fires when this goes from 0 to 1)
    stat_irq: bool,
    /// T-Cycle counter for GPU mode
    cycles: u32,
    /// T-Cycle counter for Mode 3 (variable length)
    m3_cycles: u32,
    /// [0xFF44] LCDC Y-Coordinate (LY)
    ly: u8,
    /// LY Comparison Timer (4 T-cycles after LY changes before it is compared)
    lyc_timer: u8,
    /// [0xFF41] Bit 6 - LYC=LY Coincidence Interrupt enable
    lyc_irq_enable: bool,
    /// [0xFF41] Bit 5 - Mode 2 OAM Interrupt enable
    m2_irq_enable: bool,
    /// [0xFF41] Bit 4 - Mode 1 V-Blank Interrupt enable
    m1_irq_enable: bool,
    /// [0xFF41] Bit 3 - Mode 0 H-Blank Interrupt enable
    m0_irq_enable: bool,
    /// [0xFF41] Bit 1-0 - Mode Flag (0: H-Blank, 1: V-Blank, 2: OAM search, 3: transfer)
    mode: u8,
    /// [0xFF40] Bit 7 - LCD Display Enable
    lcd_enable: bool,
    /// [0xFF40] Bit 6 - Window Tile Map Display Select
    window_tile_map_select: bool,
    /// [0xFF40] Bit 5 - Window Display Enable
    window_enable: bool,
    /// [0xFF40] Bit 4 - BG & Window Tile Data Select (0=8800-97FF, 1=8000-8FFF)
    tile_data_select: bool,
    /// [0xFF40] Bit 3 - BG Tile Map Display Select (0=9800-9BFF, 1=9C00-9FFF)
    background_tile_map_select: bool,
    /// [0xFF40] Bit 2 - OBJ (Sprite) Size
    sprite_16: bool,
    /// [0xFF40] Bit 1 - OBJ (Sprite) Display Enable
    sprite_enable: bool,
    /// [0xFF40] Bit 0 - BG Display
    background_display: bool,
    /// [0xFF42] SCY - Scroll Y
    scy: u8,
    /// [0xFF43] SCX - Scroll X
    scx: u8,
    /// [0xFF45] LYC - LY Compare
    lyc: u8,
    /// [0xFF4A] WY - Window Y Position
    wy: u8,
    /// [0xFF4B] WX - Window X Position (- 7)
    wx: u8,
    /// [0xFF47] BGP — BG Palette Data
    bgp: u8,
    /// [0xFF48] OBP0 - Object Palette 0 Data
    obp0: u8,
    /// [0xFF49] OBP1 - Object Palette 1 Data
    obp1: u8,
    /// [0xFF68] BCPS/BGPI - Background Palette Index (Bit 0-5)
    bcpi: u8,
    /// [0xFF68] BCPS/BGPI - Bit 7 Auto Increment
    bcpi_ai: bool,
    /// [0xFF69] BCPD/BGPD - Background Palette Data
    bcpd: Vec<u8>,
    /// [0xFF6A] OCPS/OBPI - Sprite Palette Index (Bit 0-5)
    ocpi: u8,
    /// [0xFF6A] OCPS/OBPI - Bit 7 Auto Increment
    ocpi_ai: bool,
    /// [0xFF6B] OCPD/OBPD - Sprite Palette Data
    ocpd: Vec<u8>,
}

/// The abstract state of the controller, with every buffer as a sequence.
pub struct LcdView {
    pub framebuffer: Seq<u8>,
    pub vram: Seq<u8>,
    pub vram_bank: u8,
    pub oam: Seq<u8>,
    pub stat_irq: bool,
    pub cycles: u32,
    pub m3_cycles: u32,
    pub ly: u8,
    pub lyc_timer: u8,
    pub lyc_irq_enable: bool,
    pub m2_irq_enable: bool,
    pub m1_irq_enable: bool,
    pub m0_irq_enable: bool,
    pub mode: u8,
    pub lcd_enable: bool,
    pub window_tile_map_select: bool,
    pub window_enable: bool,
    pub tile_data_select: bool,
    pub background_tile_map_select: bool,
    pub sprite_16: bool,
    pub sprite_enable: bool,
    pub background_display: bool,
    pub scy: u8,
    pub scx: u8,
    pub lyc: u8,
    pub wy: u8,
    pub wx: u8,
    pub bgp: u8,
    pub obp0: u8,
    pub obp1: u8,
    pub bcpi: u8,
    pub bcpi_ai: bool,
    pub bcpd: Seq<u8>,
    pub ocpi: u8,
    pub ocpi_ai: bool,
    pub ocpd: Seq<u8>,
}

impl View for GPU {
    type V = LcdView;

    closed spec fn view(&self) -> LcdView {
        LcdView {
            framebuffer: self.framebuffer@,
            vram: self.vram@,
            vram_bank: self.vram_bank,
            oam: self.oam@,
            stat_irq: self.stat_irq,
            cycles: self.cycles,
            m3_cycles: self.m3_cycles,
            ly: self.ly,
            lyc_timer: self.lyc_timer,
            lyc_irq_enable: self.lyc_irq_enable,
            m2_irq_enable: self.m2_irq_enable,
            m1_irq_enable: self.m1_irq_enable,
            m0_irq_enable: self.m0_irq_enable,
            mode: self.mode,
            lcd_enable: self.lcd_enable,
            window_tile_map_select: self.window_tile_map_select,
            window_enable: self.window_enable,
            tile_data_select: self.tile_data_select,
            background_tile_map_select: self.background_tile_map_select,
            sprite_16: self.sprite_16,
            sprite_enable: self.sprite_enable,
            background_display: self.background_display,
            scy: self.scy,
            scx: self.scx,
            lyc: self.lyc,
            wy: self.wy,
            wx: self.wx,
            bgp: self.bgp,
            obp0: self.obp0,
            obp1: self.obp1,
            bcpi: self.bcpi,
            bcpi_ai: self.bcpi_ai,
            bcpd: self.bcpd@,
            ocpi: self.ocpi,
            ocpi_ai: self.ocpi_ai,
            ocpd: self.ocpd@,
        }
    }
}

/// The state of a controller that was never reset: every register clear, no buffers.
pub open spec fn default_view() -> LcdView {
    LcdView {
        framebuffer: Seq::empty(),
        vram: Seq::empty(),
        vram_bank: 0,
        oam: Seq::empty(),
        stat_irq: false,
        cycles: 0,
        m3_cycles: 0,
        ly: 0,
        lyc_timer: 0,
        lyc_irq_enable: false,
        m2_irq_enable: false,
        m1_irq_enable: false,
        m0_irq_enable: false,
        mode: 0,
        lcd_enable: false,
        window_tile_map_select: false,
        window_enable: false,
        tile_data_select: false,
        background_tile_map_select: false,
        sprite_16: false,
        sprite_enable: false,
        background_display: false,
        scy: 0,
        scx: 0,
        lyc: 0,
        wy: 0,
        wx: 0,
        bgp: 0,
        obp0: 0,
        obp1: 0,
        bcpi: 0,
        bcpi_ai: false,
        bcpd: Seq::empty(),
        ocpi: 0,
        ocpi_ai: false,
        ocpd: Seq::empty(),
    }
}

impl LcdView {
    /// The timing counters (this controller has no window line counter).
    pub open spec fn timing(self) -> Timing {
        Timing { cycles: self.cycles, ly: self.ly, lyc_timer: self.lyc_timer, lcd_mode: self.mode, window_line: 0 }
    }

    /// This state with other timing counters.
    pub open spec fn with_timing(self, t: Timing) -> Self {
        LcdView { cycles: t.cycles, ly: t.ly, lyc_timer: t.lyc_timer, mode: t.lcd_mode, ..self }
    }

    /// Indices in range and the timing counters consistent.
    pub open spec fn counters_ok(self) -> bool {
        &&& timing_valid(self.timing(), self.m3_cycles)
        &&& self.vram_bank <= 1
        &&& self.bcpi <= 0x3F
        &&& self.ocpi <= 0x3F
    }

    /// Well-formedness: buffers have their hardware sizes and the counters are consistent.
    pub open spec fn wf(self) -> bool {
        &&& self.counters_ok()
        &&& self.framebuffer.len() == fb_len()
        &&& self.vram.len() == 0x4000
        &&& self.oam.len() == 160
        &&& self.bcpd.len() == 64
        &&& self.ocpd.len() == 64
    }

    /// LCDC (0xFF40).
    pub open spec fn lcdc(self) -> u8 {
        bit_spec(self.lcd_enable, 7) | bit_spec(self.window_tile_map_select, 6) | bit_spec(
            self.window_enable,
            5,
        ) | bit_spec(self.tile_data_select, 4) | bit_spec(self.background_tile_map_select, 3)
            | bit_spec(self.sprite_16, 2) | bit_spec(self.sprite_enable, 1) | bit_spec(
            self.background_display,
            0,
        )
    }

    /// STAT (0xFF41): bit 7 reads as 1, interrupt enables, coincidence flag, mode.
    pub open spec fn stat(self) -> u8 {
        0x80 | bit_spec(self.lyc_irq_enable, 6) | bit_spec(self.m2_irq_enable, 5) | bit_spec(
            self.m1_irq_enable,
            4,
        ) | bit_spec(self.m0_irq_enable, 3) | bit_spec(self.lyc_timer == 0 && self.ly == self.lyc, 2)
            | self.mode
    }

    /// The VRAM index an access of `address` uses (in the selected bank).
    pub open spec fn vram_index(self, address: u16) -> int {
        (address & 0x1FFF) + 0x2000 * self.vram_bank
    }

    /// The value a read of `address` returns; unmapped addresses read 0xFF.
    pub open spec fn read_spec(self, address: u16) -> u8 {
        if 0x8000 <= address <= 0x9FFF {
            self.vram[self.vram_index(address)]
        } else if 0xFE00 <= address <= 0xFE9F {
            self.oam[address - 0xFE00]
        } else if address == 0xFF40 {
            self.lcdc()
        } else if address == 0xFF41 {
            self.stat()
        } else if address == 0xFF42 {
            self.scy
        } else if address == 0xFF43 {
            self.scx
        } else if address == 0xFF44 {
            self.ly
        } else if address == 0xFF45 {
            self.lyc
        } else if address == 0xFF47 {
            self.bgp
        } else if address == 0xFF48 {
            self.obp0
        } else if address == 0xFF49 {
            self.obp1
        } else if address == 0xFF4A {
            self.wy
        } else if address == 0xFF4B {
            self.wx
        } else if address == 0xFF4F {
            self.vram_bank
        } else if address == 0xFF68 {
            self.bcpi | 0x40 | bit_spec(self.bcpi_ai, 7)
        } else if address == 0xFF69 {
            self.bcpd[self.bcpi as int] | ((self.bcpi % 2) * 0x80) as u8
        } else if address == 0xFF6A {
            self.ocpi | 0x40 | bit_spec(self.ocpi_ai, 7)
        } else if address == 0xFF6B {
            self.ocpd[self.ocpi as int] | ((self.ocpi % 2) * 0x80) as u8
        } else {
            0xFF
        }
    }

    /// The state after a write of LCDC: disabling the LCD resets LY, the mode and the cycle
    /// counter.
    pub open spec fn lcdc_written(self, value: u8) -> Self {
        let enable = test_spec(value, 7);
        let s = LcdView {
            lcd_enable: enable,
            window_tile_map_select: test_spec(value, 6),
            window_enable: test_spec(value, 5),
            tile_data_select: test_spec(value, 4),
            background_tile_map_select: test_spec(value, 3),
            sprite_16: test_spec(value, 2),
            sprite_enable: test_spec(value, 1),
            background_display: test_spec(value, 0),
            ..self
        };
        if !enable { LcdView { ly: 0, mode: 0, cycles: 0, ..s } } else { s }
    }

    /// The state after a write of `value` to `address` (LY is read-only; unmapped
    /// addresses are ignored).
    pub open spec fn written(self, address: u16, value: u8) -> Self {
        if 0x8000 <= address <= 0x9FFF {
            LcdView { vram: self.vram.update(self.vram_index(address), value), ..self }
        } else if 0xFE00 <= address <= 0xFE9F {
            LcdView { oam: self.oam.update(address - 0xFE00, value), ..self }
        } else if address == 0xFF40 {
            self.lcdc_written(value)
        } else if address == 0xFF41 {
            LcdView {
                lyc_irq_enable: test_spec(value, 6),
                m2_irq_enable: test_spec(value, 5),
                m1_irq_enable: test_spec(value, 4),
                m0_irq_enable: test_spec(value, 3),
                ..self
            }
        } else if address == 0xFF69 {
            LcdView {
                bcpd: self.bcpd.update(self.bcpi as int, value & !(((self.bcpi % 2) * 0x80) as u8)),
                bcpi: if self.bcpi_ai { ((self.bcpi + 1) as u8) & 0x3F } else { self.bcpi },
                ..self
            }
        } else if address == 0xFF6B {
            LcdView {
                ocpd: self.ocpd.update(self.ocpi as int, value & !(((self.ocpi % 2) * 0x80) as u8)),
                ocpi: if self.ocpi_ai { ((self.ocpi + 1) as u8) & 0x3F } else { self.ocpi },
                ..self
            }
        } else {
            LcdView {
                scy: if address == 0xFF42 { value } else { self.scy },
                scx: if address == 0xFF43 { value } else { self.scx },
                lyc: if address == 0xFF45 { value } else { self.lyc },
                bgp: if address == 0xFF47 { value } else { self.bgp },
                obp0: if address == 0xFF48 { value } else { self.obp0 },
                obp1: if address == 0xFF49 { value } else { self.obp1 },
                wy: if address == 0xFF4A { value } else { self.wy },
                wx: if address == 0xFF4B { value } else { self.wx },
                vram_bank: if address == 0xFF4F { value & 1 } else { self.vram_bank },
                bcpi: if address == 0xFF68 { value & 0x3F } else { self.bcpi },
                bcpi_ai: if address == 0xFF68 { test_spec(value, 7) } else { self.bcpi_ai },
                ocpi: if address == 0xFF6A { value & 0x3F } else { self.ocpi },
                ocpi_ai: if address == 0xFF6A { test_spec(value, 7) } else { self.ocpi_ai },
                ..self
            }
        }
    }

    /// The state after `reset`: buffers sized and cleared (the framebuffer to white) and
    /// the post-boot register values.
    pub open spec fn reset_spec(self) -> Self {
        LcdView {
            framebuffer: Seq::new(fb_len(), |i: int| 0xFFu8),
            vram: Seq::new(0x4000, |i: int| 0u8),
            oam: Seq::new(160, |i: int| 0u8),
            bcpd: Seq::new(64, |i: int| 0u8),
            ocpd: Seq::new(64, |i: int| 0u8),
            lcd_enable: true,
            background_display: true,
            tile_data_select: true,
            scy: 0,
            scx: 0,
            lyc: 0,
            bgp: 0xFC,
            obp0: 0xFF,
            obp1: 0xFF,
            wx: 0,
            wy: 0,
            ..self
        }
    }
}

impl GPU {
    /// Reset
    pub fn reset(&mut self)
        requires
            old(self)@.counters_ok(),
        ensures
            final(self)@ == old(self)@.reset_spec(),
            final(self)@.wf(),
    {
        self.framebuffer = bits::filled(WIDTH * HEIGHT * 4, 0xFF);
        self.vram = bits::filled(0x2000 * 2, 0);
        self.oam = bits::filled(160, 0);
        self.bcpd = bits::filled(64, 0);
        self.ocpd = bits::filled(64, 0);
        self.lcd_enable = true;
        self.background_display = true;
        self.tile_data_select = true;
        self.scy = 0;
        self.scx = 0;
        self.lyc = 0;
        self.bgp = 0xFC;
        self.obp0 = 0xFF;
        self.obp1 = 0xFF;
        self.wx = 0;
        self.wy = 0;
        assert(self@ =~= old(self)@.reset_spec());
    }

    /// Read
    pub fn read(&self, address: u16) -> (r: u8)
        requires
            self@.wf(),
        ensures
            r == self@.read_spec(address),
    {
        if 0x8000 <= address && address <= 0x9FFF {
            proof {
                bits::lemma_and_bound();
            }
            self.vram[((address & 0x1FFF) + (0x2000 * (self.vram_bank as u16))) as usize]
        } else if 0xFE00 <= address && address <= 0xFE9F {
            self.oam[(address - 0xFE00) as usize]
        } else if address == 0xFF40 {
            bits::bit(self.lcd_enable, 7) | bits::bit(self.window_tile_map_select, 6) | bits::bit(
                self.window_enable,
                5,
            ) | bits::bit(self.tile_data_select, 4) | bits::bit(self.background_tile_map_select, 3)
                | bits::bit(self.sprite_16, 2) | bits::bit(self.sprite_enable, 1) | bits::bit(
                self.background_display,
                0,
            )
        } else if address == 0xFF41 {
            0x80 | bits::bit(self.lyc_irq_enable, 6) | bits::bit(self.m2_irq_enable, 5) | bits::bit(
                self.m1_irq_enable,
                4,
            ) | bits::bit(self.m0_irq_enable, 3) | bits::bit(
                self.lyc_timer == 0 && (self.ly == self.lyc),
                2,
            ) | self.mode
        } else if address == 0xFF42 {
            self.scy
        } else if address == 0xFF43 {
            self.scx
        } else if address == 0xFF44 {
            self.ly
        } else if address == 0xFF45 {
            self.lyc
        } else if address == 0xFF47 {
            self.bgp
        } else if address == 0xFF48 {
            self.obp0
        } else if address == 0xFF49 {
            self.obp1
        } else if address == 0xFF4A {
            self.wy
        } else if address == 0xFF4B {
            self.wx
        } else if address == 0xFF4F {
            self.vram_bank
        } else if address == 0xFF68 {
            self.bcpi | 0x40 | bits::bit(self.bcpi_ai, 7)
        } else if address == 0xFF69 {
            self.bcpd[self.bcpi as usize] | ((self.bcpi % 2) * 0x80)
        } else if address == 0xFF6A {
            self.ocpi | 0x40 | bits::bit(self.ocpi_ai, 7)
        } else if address == 0xFF6B {
            self.ocpd[self.ocpi as usize] | ((self.ocpi % 2) * 0x80)
        } else {
            0xFF
        }
    }

    /// Write
    pub fn write(&mut self, address: u16, value: u8)
        requires
            old(self)@.wf(),
        ensures
            final(self)@ == old(self)@.written(address, value),
            final(self)@.wf(),
    {
        if 0x8000 <= address && address <= 0x9FFF {
            self.write_vram(address, value);
        } else if 0xFE00 <= address && address <= 0xFE9F {
            self.write_oam(address, value);
        } else if address == 0xFF40 {
            self.write_lcdc(value);
        } else if address == 0xFF41 {
            self.write_stat(value);
        } else if address == 0xFF69 {
            self.write_bcpd(value);
        } else if address == 0xFF6B {
            self.write_ocpd(value);
        } else {
            self.write_byte_register(address, value);
        }
    }

    fn write_vram(&mut self, address: u16, value: u8)
        requires
            old(self)@.wf(),
            0x8000 <= address <= 0x9FFF,
        ensures
            final(self)@ == old(self)@.written(address, value),
            final(self)@.wf(),
    {
        proof {
            bits::lemma_and_bound();
        }
        let i = ((address & 0x1FFF) + (0x2000 * (self.vram_bank as u16))) as usize;
        self.vram.set(i, value);
    }

    fn write_oam(&mut self, address: u16, value: u8)
        requires
            old(self)@.wf(),
            0xFE00 <= address <= 0xFE9F,
        ensures
            final(self)@ == old(self)@.written(address, value),
            final(self)@.wf(),
    {
        self.oam.set((address - 0xFE00) as usize, value);
    }

    fn write_lcdc(&mut self, value: u8)
        requires
            old(self)@.wf(),
        ensures
            final(self)@ == old(self)@.lcdc_written(value),
            final(self)@.wf(),
    {
        self.set_lcdc_flags(value);
        if !self.lcd_enable {
            self.disable();
        }
    }

    fn set_lcdc_flags(&mut self, value: u8)
        ensures
            final(self)@ == (LcdView {
                lcd_enable: test_spec(value, 7),
                window_tile_map_select: test_spec(value, 6),
                window_enable: test_spec(value, 5),
                tile_data_select: test_spec(value, 4),
                background_tile_map_select: test_spec(value, 3),
                sprite_16: test_spec(value, 2),
                sprite_enable: test_spec(value, 1),
                background_display: test_spec(value, 0),
                ..old(self)@
            }),
    {
        self.lcd_enable = bits::test(value, 7);
        self.window_tile_map_select = bits::test(value, 6);
        self.window_enable = bits::test(value, 5);
        self.tile_data_select = bits::test(value, 4);
        self.background_tile_map_select = bits::test(value, 3);
        self.sprite_16 = bits::test(value, 2);
        self.sprite_enable = bits::test(value, 1);
        self.background_display = bits::test(value, 0);
    }

    fn disable(&mut self)
        ensures
            final(self)@ == (LcdView { ly: 0, mode: 0, cycles: 0, ..old(self)@ }),
    {
        self.ly = 0;
        self.mode = 0;
        self.cycles = 0;
    }

    fn write_stat(&mut self, value: u8)
        requires
            old(self)@.wf(),
        ensures
            final(self)@ == old(self)@.written(0xFF41, value),
            final(self)@.wf(),
    {
        self.lyc_irq_enable = bits::test(value, 6);
        self.m2_irq_enable = bits::test(value, 5);
        self.m1_irq_enable = bits::test(value, 4);
        self.m0_irq_enable = bits::test(value, 3);
    }

    fn write_bcpd(&mut self, value: u8)
        requires
            old(self)@.wf(),
        ensures
            final(self)@ == old(self)@.written(0xFF69, value),
            final(self)@.wf(),
    {
        let i = self.bcpi as usize;
        self.bcpd.set(i, value & !((self.bcpi % 2) * 0x80));
        if self.bcpi_ai {
            self.bcpi += 1;
            self.bcpi &= 0x3F;
        }
        proof {
            bits::lemma_and_bound();
        }
    }

    fn write_ocpd(&mut self, value: u8)
        requires
            old(self)@.wf(),
        ensures
            final(self)@ == old(self)@.written(0xFF6B, value),
            final(self)@.wf(),
    {
        let i = self.ocpi as usize;
        self.ocpd.set(i, value & !((self.ocpi % 2) * 0x80));
        if self.ocpi_ai {
            self.ocpi += 1;
            self.ocpi &= 0x3F;
        }
        proof {
            bits::lemma_and_bound();
        }
    }

    fn write_byte_register(&mut self, address: u16, value: u8)
        requires
            old(self)@.wf(),
            !(0x8000 <= address <= 0x9FFF),
            !(0xFE00 <= address <= 0xFE9F),
            address != 0xFF40,
            address != 0xFF41,
            address != 0xFF69,
            address != 0xFF6B,
        ensures
            final(self)@ == old(self)@.written(address, value),
            final(self)@.wf(),
    {
        if address == 0xFF42 {
            self.set_scy(value);
        } else if address == 0xFF43 {
            self.set_scx(value);
        } else if address == 0xFF45 {
            self.set_lyc(value);
        } else if address == 0xFF47 {
            self.set_bgp(value);
        } else if address == 0xFF48 {
            self.set_obp0(value);
        } else if address == 0xFF49 {
            self.set_obp1(value);
        } else if address == 0xFF4A {
            self.set_wy(value);
        } else if address == 0xFF4B {
            self.set_wx(value);
        } else if address == 0xFF4F {
            self.set_vram_bank(value);
        } else if address == 0xFF68 {
            self.set_bcpi(value);
        } else if address == 0xFF6A {
            self.set_ocpi(value);
        }
    }

    fn set_scy(&mut self, value: u8)
        requires
            old(self)@.wf(),
        ensures
            final(self)@ == old(self)@.written(0xFF42, value),
            final(self)@.wf(),
    {
        self.scy = value;
        proof {
            bits::lemma_and_bound();
        }
    }

    fn set_scx(&mut self, value: u8)
        requires
            old(self)@.wf(),
        ensures
            final(self)@ == old(self)@.written(0xFF43, value),
            final(self)@.wf(),
    {
        self.scx = value;
        proof {
            bits::lemma_and_bound();
        }
    }

    fn set_lyc(&mut self, value: u8)
        requires
            old(self)@.wf(),
        ensures
            final(self)@ == old(self)@.written(0xFF45, value),
            final(self)@.wf(),
    {
        self.lyc = value;
        proof {
            bits::lemma_and_bound();
        }
    }

    fn set_bgp(&mut self, value: u8)
        requires
            old(self)@.wf(),
        ensures
            final(self)@ == old(self)@.written(0xFF47, value),
            final(self)@.wf(),
    {
        self.bgp = value;
        proof {
            bits::lemma_and_bound();
        }
    }

    fn set_obp0(&mut self, value: u8)
        requires
            old(self)@.wf(),
        ensures
            final(self)@ == old(self)@.written(0xFF48, value),
            final(self)@.wf(),
    {
        self.obp0 = value;
        proof {
            bits::lemma_and_bound();
        }
    }

    fn set_obp1(&mut self, value: u8)
        requires
            old(self)@.wf(),
        ensures
            final(self)@ == old(self)@.written(0xFF49, value),
            final(self)@.wf(),
    {
        self.obp1 = value;
        proof {
            bits::lemma_and_bound();
        }
    }

    fn set_wy(&mut self, value: u8)
        requires
            old(self)@.wf(),
        ensures
            final(self)@ == old(self)@.written(0xFF4A, value),
            final(self)@.wf(),
    {
        self.wy = value;
        proof {
            bits::lemma_and_bound();
        }
    }

    fn set_wx(&mut self, value: u8)
        requires
            old(self)@.wf(),
        ensures
            final(self)@ == old(self)@.written(0xFF4B, value),
            final(self)@.wf(),
    {
        self.wx = value;
        proof {
            bits::lemma_and_bound();
        }
    }

    fn set_vram_bank(&mut self, value: u8)
        requires
            old(self)@.wf(),
        ensures
            final(self)@ == old(self)@.written(0xFF4F, value),
            final(self)@.wf(),
    {
        self.vram_bank = value & 1;
        proof {
            bits::lemma_and_bound();
        }
    }

    fn set_bcpi(&mut self, value: u8)
        requires
            old(self)@.wf(),
        ensures
            final(self)@ == old(self)@.written(0xFF68, value),
            final(self)@.wf(),
    {
        proof {
            bits::lemma_and_bound();
        }
        self.bcpi = value & 0x3F;
        self.bcpi_ai = bits::test(value, 7);
    }

    fn set_ocpi(&mut self, value: u8)
        requires
            old(self)@.wf(),
        ensures
            final(self)@ == old(self)@.written(0xFF6A, value),
            final(self)@.wf(),
    {
        proof {
            bits::lemma_and_bound();
        }
        self.ocpi = value & 0x3F;
        self.ocpi_ai = bits::test(value, 7);
    }
}

impl Default for GPU {
    fn default() -> (r: GPU)
        ensures
            r@ == default_view(),
    {
        let r = GPU {
            framebuffer: Vec::new(),
            vram: Vec::new(),
            vram_bank: 0,
            oam: Vec::new(),
            stat_irq: false,
            cycles: 0,
            m3_cycles: 0,
            ly: 0,
            lyc_timer: 0,
            lyc_irq_enable: false,
            m2_irq_enable: false,
            m1_irq_enable: false,
            m0_irq_enable: false,
            mode: 0,
            lcd_enable: false,
            window_tile_map_select: false,
            window_enable: false,
            tile_data_select: false,
            background_tile_map_select: false,
            sprite_16: false,
            sprite_enable: false,
            background_display: false,
            scy: 0,
            scx: 0,
            lyc: 0,
            wy: 0,
            wx: 0,
            bgp: 0,
            obp0: 0,
            obp1: 0,
            bcpi: 0,
            bcpi_ai: false,
            bcpd: Vec::new(),
            ocpi: 0,
            ocpi_ai: false,
            ocpd: Vec::new(),
        };
        assert(r@ =~= default_view());
        r
    }
}

} // verus!
