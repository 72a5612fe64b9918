//! Game Boy picture processing unit: the LCD timing state machine, the video registers and
//! the scanline renderer (background, window and sprites).

use vstd::prelude::*;
use crate::bits;
use crate::bits::{bit_spec, test_spec};
use crate::frame::Frame;
use crate::mode::{device_of, Device, Mode};

pub mod laws;
pub mod render;
pub mod timing;

verus! {

/// Display width
pub const WIDTH: usize = 160;

/// Display height
pub const HEIGHT: usize = 144;

/// Length of the framebuffer: 4 bytes (BGRA) per pixel.
pub open spec fn fb_len() -> nat {
    (WIDTH * HEIGHT * 4) as nat
}

pub struct GPU {
    /// Mode (machine)
    mode: Option<Mode>,
    /// Pixel data (for current "frame") buffer that is rewritten line-by-line during H-Blank
    pub framebuffer: Vec<u8>,
    /// [0x8000 - 0x9FFF] Video RAM (VRAM) — 8 KiB x 2 Banks (1 Bank in GB)
    vram: Vec<u8>,
    /// [0xFF4F] Video RAM Bank (VBK) 0 - 1 (R/W; CGB only)
    vram_bank: u8,
    /// [0xFE00 — 0xFE9F] Sprite Attribute Table (OAM) — 160 Bytes
    pub oam: Vec<u8>,
    /// STAT IRQ; current value (the interrupt fires when this goes from 0 to 1)
    stat_irq: bool,
    /// T-Cycle counter for GPU mode
    cycles: u32,
    /// T-Cycle counter for Mode 3 (variable length)
    m3_cycles: u32,
    /// Priority cache for rendering (1 byte per pixel)
    ///     Bit 0 -> 1 = Background/window was rendered at this pixel
    ///     Bit 1 -> 1 = Sprite was rendered at this pixel
    ///     Bit 2 -> 1 = Background/window have priority over sprite
    priority_cache: Vec<u8>,
    /// Sprite X Cache (1 byte per pixel that = sprite_x)
    sprite_x_cache: Vec<u8>,
    /// Sprite Stall Buckets
    sprite_stall_buckets: Vec<u8>,
    /// Current line of the window that is being rendered
    window_line: u8,
    /// [0xFF44] LCDC Y-Coordinate (LY) (R)
    ly: u8,
    /// LY Comparison Timer (4 T-cycles after LY changes before it is compared)
    lyc_timer: u8,
    /// [0xFF41] Bit 6 - LYC=LY Coincidence Interrupt enable
    lyc_irq_enable: bool,
    /// [0xFF41] Bit 5 - Mode 2 OAM Interrupt enable
    m2_irq_enable: bool,
    /// [0xFF41] Bit 4 - Mode 1 V-Blank Interrupt enable
    m1_irq_enable: bool,
    /// [0xFF41] Bit 3 - Mode 0 H-Blank Interrupt enable
    m0_irq_enable: bool,
    /// [0xFF41] Bit 1-0 - Mode Flag (0: H-Blank, 1: V-Blank, 2: OAM search, 3: transfer)
    lcd_mode: u8,
    /// [0xFF40] Bit 7 - LCD Display Enable
    lcd_enable: bool,
    /// [0xFF40] Bit 6 - Window Tile Map Display Select (0=9800-9BFF, 1=9C00-9FFF)
    window_tile_map_select: bool,
    /// [0xFF40] Bit 5 - Window Display Enable
    window_enable: bool,
    /// [0xFF40] Bit 4 - BG & Window Tile Data Select (0=8800-97FF, 1=8000-8FFF)
    tile_data_select: bool,
    /// [0xFF40] Bit 3 - BG Tile Map Display Select (0=9800-9BFF, 1=9C00-9FFF)
    background_tile_map_select: bool,
    /// [0xFF40] Bit 2 - OBJ (Sprite) Size (0=8x8, 1=8x16)
    sprite_16: bool,
    /// [0xFF40] Bit 1 - OBJ (Sprite) Display Enable
    sprite_enable: bool,
    /// [0xFF40] Bit 0 - BG Display
    background_display: bool,
    /// [0xFF42] SCY - Scroll Y
    scy: u8,
    /// [0xFF43] SCX - Scroll X
    scx: u8,
    /// [0xFF45] LYC - LY Compare
    lyc: u8,
    /// [0xFF4A] WY - Window Y Position
    wy: u8,
    /// [0xFF4B] WX - Window X Position (- 7)
    wx: u8,
    /// [0xFF47] BGP — BG Palette Data
    bgp: u8,
    /// [0xFF48] OBP0 - Object Palette 0 Data
    obp0: u8,
    /// [0xFF49] OBP1 - Object Palette 1 Data
    obp1: u8,
    /// [0xFF68] BCPS/BGPI - Background Palette Index (Bit 0-5)
    bcpi: u8,
    /// [0xFF68] BCPS/BGPI - Bit 7 Auto Increment
    bcpi_ai: bool,
    /// [0xFF69] BCPD/BGPD - Background Palette Data
    bcpd: Vec<u8>,
    /// [0xFF6A] OCPS/OBPI - Sprite Palette Index (Bit 0-5)
    ocpi: u8,
    /// [0xFF6A] OCPS/OBPI - Bit 7 Auto Increment
    ocpi_ai: bool,
    /// [0xFF6B] OCPD/OBPD - Sprite Palette Data
    ocpd: Vec<u8>,
}

/// The abstract state of the PPU, with every buffer as a sequence.
pub struct GpuView {
    pub mode: Option<Mode>,
    pub framebuffer: Seq<u8>,
    pub vram: Seq<u8>,
    pub vram_bank: u8,
    pub oam: Seq<u8>,
    pub stat_irq: bool,
    pub cycles: u32,
    pub m3_cycles: u32,
    pub priority_cache: Seq<u8>,
    pub sprite_x_cache: Seq<u8>,
    pub sprite_stall_buckets: Seq<u8>,
    pub window_line: u8,
    pub ly: u8,
    pub lyc_timer: u8,
    pub lyc_irq_enable: bool,
    pub m2_irq_enable: bool,
    pub m1_irq_enable: bool,
    pub m0_irq_enable: bool,
    pub lcd_mode: u8,
    pub lcd_enable: bool,
    pub window_tile_map_select: bool,
    pub window_enable: bool,
    pub tile_data_select: bool,
    pub background_tile_map_select: bool,
    pub sprite_16: bool,
    pub sprite_enable: bool,
    pub background_display: bool,
    pub scy: u8,
    pub scx: u8,
    pub lyc: u8,
    pub wy: u8,
    pub wx: u8,
    pub bgp: u8,
    pub obp0: u8,
    pub obp1: u8,
    pub bcpi: u8,
    pub bcpi_ai: bool,
    pub bcpd: Seq<u8>,
    pub ocpi: u8,
    pub ocpi_ai: bool,
    pub ocpd: Seq<u8>,
}

impl View for GPU {
    type V = GpuView;

    closed spec fn view(&self) -> GpuView {
        GpuView {
            mode: self.mode,
            framebuffer: self.framebuffer@,
            vram: self.vram@,
            vram_bank: self.vram_bank,
            oam: self.oam@,
            stat_irq: self.stat_irq,
            cycles: self.cycles,
            m3_cycles: self.m3_cycles,
            priority_cache: self.priority_cache@,
            sprite_x_cache: self.sprite_x_cache@,
            sprite_stall_buckets: self.sprite_stall_buckets@,
            window_line: self.window_line,
            ly: self.ly,
            lyc_timer: self.lyc_timer,
            lyc_irq_enable: self.lyc_irq_enable,
            m2_irq_enable: self.m2_irq_enable,
            m1_irq_enable: self.m1_irq_enable,
            m0_irq_enable: self.m0_irq_enable,
            lcd_mode: self.lcd_mode,
            lcd_enable: self.lcd_enable,
            window_tile_map_select: self.window_tile_map_select,
            window_enable: self.window_enable,
            tile_data_select: self.tile_data_select,
            background_tile_map_select: self.background_tile_map_select,
            sprite_16: self.sprite_16,
            sprite_enable: self.sprite_enable,
            background_display: self.background_display,
            scy: self.scy,
            scx: self.scx,
            lyc: self.lyc,
            wy: self.wy,
            wx: self.wx,
            bgp: self.bgp,
            obp0: self.obp0,
            obp1: self.obp1,
            bcpi: self.bcpi,
            bcpi_ai: self.bcpi_ai,
            bcpd: self.bcpd@,
            ocpi: self.ocpi,
            ocpi_ai: self.ocpi_ai,
            ocpd: self.ocpd@,
        }
    }
}

/// The most T-cycles mode 3 (pixel transfer) can take for one scanline.
pub open spec fn max_m3_cycles() -> u32 {
    371
}

impl GpuView {
    /// The LCD timing counters are consistent with the state machine of `step`:
    /// each mode keeps its cycle counter below the cycle where it moves on, and LY stays
    /// within the 154 lines.
    pub open spec fn timing_ok(self) -> bool {
        &&& self.lcd_mode <= 3
        &&& self.ly <= 153
        &&& self.lyc_timer <= 4
        &&& self.window_line <= 144
        &&& 175 <= self.m3_cycles <= max_m3_cycles() || self.m3_cycles == 0
        &&& self.lcd_mode == 0 ==> self.cycles < 457 && self.ly <= 144 && (self.ly == 144
            ==> self.cycles < 5)
        &&& self.lcd_mode == 1 ==> self.cycles < 457 && (self.ly >= 144 || self.ly == 0) && (
        self.ly == 153 ==> self.cycles < 5)
        &&& self.lcd_mode == 2 ==> self.cycles < 85 && self.ly < 144
        &&& self.lcd_mode == 3 ==> self.ly < 144 && 175 <= self.m3_cycles && self.cycles < 85
            + self.m3_cycles
    }

    /// The register state every method relies on (palette indices, VRAM bank), with the
    /// timing counters consistent.
    pub open spec fn counters_ok(self) -> bool {
        &&& self.timing_ok()
        &&& self.vram_bank <= 1
        &&& self.bcpi <= 0x3F
        &&& self.ocpi <= 0x3F
    }

    /// Well-formedness: buffers have their hardware sizes, the machine mode is set, and the
    /// counters are consistent.
    pub open spec fn wf(self) -> bool {
        &&& self.counters_ok()
        &&& self.mode is Some
        &&& self.framebuffer.len() == fb_len()
        &&& self.vram.len() == 0x4000
        &&& self.oam.len() == 160
        &&& self.bcpd.len() == 64
        &&& self.ocpd.len() == 64
        &&& self.priority_cache.len() == WIDTH * HEIGHT
        &&& self.sprite_x_cache.len() == WIDTH * HEIGHT
    }

    /// Whether the machine is a Color Game Boy (CGB-only registers are accessible).
    pub open spec fn is_cgb(self) -> bool {
        device_of(self.mode.unwrap()) == Device::CGB
    }

    /// LCDC (0xFF40).
    pub open spec fn lcdc(self) -> u8 {
        bit_spec(self.lcd_enable, 7) | bit_spec(self.window_tile_map_select, 6) | bit_spec(
            self.window_enable,
            5,
        ) | bit_spec(self.tile_data_select, 4) | bit_spec(self.background_tile_map_select, 3)
            | bit_spec(self.sprite_16, 2) | bit_spec(self.sprite_enable, 1) | bit_spec(
            self.background_display,
            0,
        )
    }

    /// Whether LY currently compares equal to LYC (after the comparison delay).
    pub open spec fn coincidence(self) -> bool {
        self.lyc_timer == 0 && self.ly == self.lyc
    }

    /// STAT (0xFF41): bit 7 reads as 1, interrupt enables, coincidence flag, mode.
    pub open spec fn stat(self) -> u8 {
        0x80 | bit_spec(self.lyc_irq_enable, 6) | bit_spec(self.m2_irq_enable, 5) | bit_spec(
            self.m1_irq_enable,
            4,
        ) | bit_spec(self.m0_irq_enable, 3) | bit_spec(self.coincidence(), 2) | self.lcd_mode
    }

    /// The VRAM index an access of `address` uses (in the selected bank).
    pub open spec fn vram_index(self, address: u16) -> int {
        (address & 0x1FFF) + 0x2000 * self.vram_bank
    }

    /// The value a read of `address` returns. VRAM reads as 0xFF during mode 3, OAM during
    /// modes 2-3 and OAM DMA; CGB registers only exist on a CGB; unmapped addresses read 0xFF.
    pub open spec fn read_spec(self, address: u16, in_oam_dma: bool) -> u8 {
        if 0x8000 <= address <= 0x9FFF {
            if self.lcd_mode != 3 { self.vram[self.vram_index(address)] } else { 0xFF }
        } else if 0xFE00 <= address <= 0xFE9F {
            if !in_oam_dma && self.lcd_mode < 2 { self.oam[address - 0xFE00] } else { 0xFF }
        } else if address == 0xFF40 {
            self.lcdc()
        } else if address == 0xFF41 {
            self.stat()
        } else if address == 0xFF42 {
            self.scy
        } else if address == 0xFF43 {
            self.scx
        } else if address == 0xFF44 {
            self.ly
        } else if address == 0xFF45 {
            self.lyc
        } else if address == 0xFF47 {
            self.bgp
        } else if address == 0xFF48 {
            self.obp0
        } else if address == 0xFF49 {
            self.obp1
        } else if address == 0xFF4A {
            self.wy
        } else if address == 0xFF4B {
            self.wx
        } else if address == 0xFF4F && self.is_cgb() {
            self.vram_bank
        } else if address == 0xFF68 && self.is_cgb() {
            self.bcpi | 0x40 | bit_spec(self.bcpi_ai, 7)
        } else if address == 0xFF69 && self.is_cgb() {
            self.bcpd[self.bcpi as int] | ((self.bcpi % 2) * 0x80) as u8
        } else if address == 0xFF6A && self.is_cgb() {
            self.ocpi | 0x40 | bit_spec(self.ocpi_ai, 7)
        } else if address == 0xFF6B && self.is_cgb() {
            self.ocpd[self.ocpi as int] | ((self.ocpi % 2) * 0x80) as u8
        } else {
            0xFF
        }
    }

    /// The state after a write of `value` to VRAM or OAM (ignored during OAM DMA).
    pub open spec fn memory_written(self, address: u16, value: u8, in_oam_dma: bool) -> Self {
        if 0x8000 <= address <= 0x9FFF {
            GpuView { vram: self.vram.update(self.vram_index(address), value), ..self }
        } else if 0xFE00 <= address <= 0xFE9F && !in_oam_dma {
            GpuView { oam: self.oam.update(address - 0xFE00, value), ..self }
        } else {
            self
        }
    }

    /// The state after a write of LCDC (0xFF40): disabling the LCD resets LY, the mode and
    /// the cycle counter.
    pub open spec fn lcdc_written(self, value: u8) -> Self {
        let enable = test_spec(value, 7);
        let s = GpuView {
            lcd_enable: enable,
            window_tile_map_select: test_spec(value, 6),
            window_enable: test_spec(value, 5),
            tile_data_select: test_spec(value, 4),
            background_tile_map_select: test_spec(value, 3),
            sprite_16: test_spec(value, 2),
            sprite_enable: test_spec(value, 1),
            background_display: test_spec(value, 0),
            ..self
        };
        if !enable {
            GpuView { ly: 0, lcd_mode: 0, cycles: 0, ..s }
        } else {
            s
        }
    }

    /// The state after a write to STAT (0xFF41): only the interrupt enables are writable.
    pub open spec fn stat_written(self, value: u8) -> Self {
        GpuView {
            lyc_irq_enable: test_spec(value, 6),
            m2_irq_enable: test_spec(value, 5),
            m1_irq_enable: test_spec(value, 4),
            m0_irq_enable: test_spec(value, 3),
            ..self
        }
    }

    /// The state after a write to one of the plain byte registers (scroll, LYC, palettes,
    /// window position); other addresses change nothing.
    pub open spec fn byte_register_written(self, address: u16, value: u8) -> Self {
        GpuView {
            scy: if address == 0xFF42 { value } else { self.scy },
            scx: if address == 0xFF43 { value } else { self.scx },
            lyc: if address == 0xFF45 { value } else { self.lyc },
            bgp: if address == 0xFF47 { value } else { self.bgp },
            obp0: if address == 0xFF48 { value } else { self.obp0 },
            obp1: if address == 0xFF49 { value } else { self.obp1 },
            wy: if address == 0xFF4A { value } else { self.wy },
            wx: if address == 0xFF4B { value } else { self.wx },
            ..self
        }
    }

    /// The state after a write to one of the DMG registers 0xFF40 - 0xFF4E (LY is read-only).
    pub open spec fn register_written(self, address: u16, value: u8) -> Self {
        if address == 0xFF40 {
            self.lcdc_written(value)
        } else if address == 0xFF41 {
            self.stat_written(value)
        } else {
            self.byte_register_written(address, value)
        }
    }

    /// The state after a write of palette data at the background (or, with `object`, the
    /// sprite) palette index: bit 7 of odd entries is unused, and the index advances (within
    /// 0 - 0x3F) when auto-increment is on.
    pub open spec fn palette_written(self, value: u8, object: bool) -> Self {
        if !object {
            GpuView {
                bcpd: self.bcpd.update(self.bcpi as int, value & !(((self.bcpi % 2) * 0x80) as u8)),
                bcpi: if self.bcpi_ai { ((self.bcpi + 1) as u8) & 0x3F } else { self.bcpi },
                ..self
            }
        } else {
            GpuView {
                ocpd: self.ocpd.update(self.ocpi as int, value & !(((self.ocpi % 2) * 0x80) as u8)),
                ocpi: if self.ocpi_ai { ((self.ocpi + 1) as u8) & 0x3F } else { self.ocpi },
                ..self
            }
        }
    }

    /// The state after a write to a CGB register: VRAM bank, palette indices (with the
    /// auto-increment flag) and palette data; ignored on other machines.
    pub open spec fn cgb_written(self, address: u16, value: u8) -> Self {
        if !self.is_cgb() {
            self
        } else if address == 0xFF69 {
            self.palette_written(value, false)
        } else if address == 0xFF6B {
            self.palette_written(value, true)
        } else {
            GpuView {
                vram_bank: if address == 0xFF4F { value & 1 } else { self.vram_bank },
                bcpi: if address == 0xFF68 { value & 0x3F } else { self.bcpi },
                bcpi_ai: if address == 0xFF68 { test_spec(value, 7) } else { self.bcpi_ai },
                ocpi: if address == 0xFF6A { value & 0x3F } else { self.ocpi },
                ocpi_ai: if address == 0xFF6A { test_spec(value, 7) } else { self.ocpi_ai },
                ..self
            }
        }
    }

    /// The state after a write of `value` to `address`.
    pub open spec fn written(self, address: u16, value: u8, in_oam_dma: bool) -> Self {
        if address < 0xFF40 {
            self.memory_written(address, value, in_oam_dma)
        } else if address < 0xFF4F {
            self.register_written(address, value)
        } else {
            self.cgb_written(address, value)
        }
    }
}


/// The state of a GPU that was never reset: every register clear, no buffers, no mode.
pub open spec fn default_view() -> GpuView {
    GpuView {
        mode: None,
        framebuffer: Seq::empty(),
        vram: Seq::empty(),
        vram_bank: 0,
        oam: Seq::empty(),
        stat_irq: false,
        cycles: 0,
        m3_cycles: 0,
        priority_cache: Seq::empty(),
        sprite_x_cache: Seq::empty(),
        sprite_stall_buckets: Seq::empty(),
        window_line: 0,
        ly: 0,
        lyc_timer: 0,
        lyc_irq_enable: false,
        m2_irq_enable: false,
        m1_irq_enable: false,
        m0_irq_enable: false,
        lcd_mode: 0,
        lcd_enable: false,
        window_tile_map_select: false,
        window_enable: false,
        tile_data_select: false,
        background_tile_map_select: false,
        sprite_16: false,
        sprite_enable: false,
        background_display: false,
        scy: 0,
        scx: 0,
        lyc: 0,
        wy: 0,
        wx: 0,
        bgp: 0,
        obp0: 0,
        obp1: 0,
        bcpi: 0,
        bcpi_ai: false,
        bcpd: Seq::empty(),
        ocpi: 0,
        ocpi_ai: false,
        ocpd: Seq::empty(),
    }
}

/// A buffer of `n` zero bytes.
pub open spec fn zeros(n: nat) -> Seq<u8> {
    Seq::new(n, |i: int| 0u8)
}

impl GpuView {
    /// The state after `reset(m)`: buffers sized and cleared (the framebuffer to white), the
    /// post-boot register values, and everything else as it was.
    pub open spec fn reset_spec(self, m: Mode) -> Self {
        GpuView {
            mode: Some(m),
            framebuffer: Seq::new(fb_len(), |i: int| 0xFFu8),
            vram: zeros(0x4000),
            oam: zeros(160),
            bcpd: zeros(64),
            ocpd: zeros(64),
            priority_cache: zeros((WIDTH * HEIGHT) as nat),
            sprite_x_cache: zeros((WIDTH * HEIGHT) as nat),
            lcd_enable: true,
            background_display: true,
            tile_data_select: true,
            scy: 0,
            scx: 0,
            lyc: 0,
            bgp: 0xFC,
            obp0: 0xFF,
            obp1: 0xFF,
            wx: 0,
            wy: 0,
            window_line: 0,
            ..self
        }
    }
}

/// The tile number stored at `index` of a tile map; with the signed tile-data area selected
/// the byte is a signed offset from tile 256.
pub open spec fn tile_number(byte: u8, unsigned_tiles: bool) -> int {
    if unsigned_tiles { byte as int } else { (byte as i8) as int + 256 }
}

/// The 2-bit colour number of pixel (`x`, `y`) of the 16-byte tile at `offset`: bit `7 - x`
/// of the high plane gives bit 1, of the low plane bit 0.
pub open spec fn tile_pixel_spec(vram: Seq<u8>, tile: int, x: u8, y: u8) -> u8 {
    let offset = tile * 16 + y * 2;
    ((vram[offset + 1] >> ((7 - x) as u8) << 1u8) & 2) | (vram[offset] >> ((7 - x) as u8) & 1)
}

/// The shade (0 = lightest .. 3 = darkest) a palette register gives a colour number.
pub open spec fn shade_spec(palette_index: u8, palette: u8) -> u8 {
    (palette >> (palette_index << 1u8)) & 3
}

/// The grey level of a shade.
pub open spec fn grey(shade: u8) -> u8 {
    if shade == 1 {
        0xC0
    } else if shade == 2 {
        0x60
    } else if shade == 3 {
        0
    } else {
        0xFF
    }
}

impl GPU {
    /// Whether the machine is a Color Game Boy.
    fn cgb(&self) -> (r: bool)
        requires
            self@.mode is Some,
        ensures
            r == self@.is_cgb(),
    {
        match self.mode {
            Some(m) => m.device() == Device::CGB,
            None => false,
        }
    }

    /// Reset
    pub fn reset(&mut self, m: Mode)
        requires
            old(self)@.counters_ok(),
        ensures
            final(self)@ == old(self)@.reset_spec(m),
            final(self)@.wf(),
    {
        self.mode = Some(m);
        self.framebuffer = bits::filled(WIDTH * HEIGHT * 4, 0xFF);
        self.vram = bits::filled(0x2000 * 2, 0);
        self.oam = bits::filled(160, 0);
        self.bcpd = bits::filled(64, 0);
        self.ocpd = bits::filled(64, 0);
        self.priority_cache = bits::filled(WIDTH * HEIGHT, 0);
        self.sprite_x_cache = bits::filled(WIDTH * HEIGHT, 0);
        self.lcd_enable = true;
        self.background_display = true;
        self.tile_data_select = true;
        self.scy = 0;
        self.scx = 0;
        self.lyc = 0;
        self.bgp = 0xFC;
        self.obp0 = 0xFF;
        self.obp1 = 0xFF;
        self.wx = 0;
        self.wy = 0;
        self.window_line = 0;
        assert(self@ =~= old(self)@.reset_spec(m));
    }

    /// The current framebuffer as a frame for the front-end.
    pub fn frame(&self) -> (f: Frame<'_>)
        ensures
            f.data@ == self@.framebuffer,
            f.width == WIDTH,
            f.height == HEIGHT,
            f.pitch == WIDTH * 4,
    {
        Frame { data: self.framebuffer.as_slice(), width: WIDTH, height: HEIGHT, pitch: WIDTH * 4 }
    }

    /// Read
    pub fn read(&self, address: u16, in_oam_dma: bool) -> (r: u8)
        requires
            self@.wf(),
        ensures
            r == self@.read_spec(address, in_oam_dma),
    {
        if 0x8000 <= address && address <= 0x9FFF {
            if self.lcd_mode != 3 {
                proof {
                    bits::lemma_and_bound();
                }
                self.vram[((address & 0x1FFF) + (0x2000 * (self.vram_bank as u16))) as usize]
            } else {
                0xFF
            }
        } else if 0xFE00 <= address && address <= 0xFE9F {
            if !in_oam_dma && self.lcd_mode < 2 {
                self.oam[(address - 0xFE00) as usize]
            } else {
                0xFF
            }
        } else if address == 0xFF40 {
            bits::bit(self.lcd_enable, 7) | bits::bit(self.window_tile_map_select, 6) | bits::bit(
                self.window_enable,
                5,
            ) | bits::bit(self.tile_data_select, 4) | bits::bit(self.background_tile_map_select, 3)
                | bits::bit(self.sprite_16, 2) | bits::bit(self.sprite_enable, 1) | bits::bit(
                self.background_display,
                0,
            )
        } else if address == 0xFF41 {
            0x80 | bits::bit(self.lyc_irq_enable, 6) | bits::bit(self.m2_irq_enable, 5) | bits::bit(
                self.m1_irq_enable,
                4,
            ) | bits::bit(self.m0_irq_enable, 3) | bits::bit(
                self.lyc_timer == 0 && (self.ly == self.lyc),
                2,
            ) | self.lcd_mode
        } else if address == 0xFF42 {
            self.scy
        } else if address == 0xFF43 {
            self.scx
        } else if address == 0xFF44 {
            self.ly
        } else if address == 0xFF45 {
            self.lyc
        } else if address == 0xFF47 {
            self.bgp
        } else if address == 0xFF48 {
            self.obp0
        } else if address == 0xFF49 {
            self.obp1
        } else if address == 0xFF4A {
            self.wy
        } else if address == 0xFF4B {
            self.wx
        } else if address == 0xFF4F && self.cgb() {
            self.vram_bank
        } else if address == 0xFF68 && self.cgb() {
            self.bcpi | 0x40 | bits::bit(self.bcpi_ai, 7)
        } else if address == 0xFF69 && self.cgb() {
            self.bcpd[self.bcpi as usize] | ((self.bcpi % 2) * 0x80)
        } else if address == 0xFF6A && self.cgb() {
            self.ocpi | 0x40 | bits::bit(self.ocpi_ai, 7)
        } else if address == 0xFF6B && self.cgb() {
            self.ocpd[self.ocpi as usize] | ((self.ocpi % 2) * 0x80)
        } else {
            0xFF
        }
    }

    /// Write to VRAM or OAM.
    fn write_memory(&mut self, address: u16, value: u8, in_oam_dma: bool)
        requires
            old(self)@.wf(),
            address < 0xFF40,
        ensures
            final(self)@ == old(self)@.memory_written(address, value, in_oam_dma),
    {
        if 0x8000 <= address && address <= 0x9FFF {
            self.write_vram(address, value);
        } else if 0xFE00 <= address && address <= 0xFE9F && !in_oam_dma {
            self.write_oam(address, value);
        }
    }

    /// Write a byte of VRAM (in the selected bank).
    fn write_vram(&mut self, address: u16, value: u8)
        requires
            old(self)@.wf(),
            0x8000 <= address <= 0x9FFF,
        ensures
            final(self)@ == (GpuView {
                vram: old(self)@.vram.update(old(self)@.vram_index(address), value),
                ..old(self)@
            }),
    {
        proof {
            bits::lemma_and_bound();
        }
        let i = ((address & 0x1FFF) + (0x2000 * (self.vram_bank as u16))) as usize;
        self.vram.set(i, value);
    }

    /// Write a byte of OAM.
    fn write_oam(&mut self, address: u16, value: u8)
        requires
            old(self)@.wf(),
            0xFE00 <= address <= 0xFE9F,
        ensures
            final(self)@ == (GpuView { oam: old(self)@.oam.update(address - 0xFE00, value), ..old(self)@ }),
    {
        self.oam.set((address - 0xFE00) as usize, value);
    }

    /// The OAM DMA transfer's write of byte `index` of OAM (DMA writes OAM whatever the mode).
    pub fn dma_write(&mut self, index: u16, value: u8)
        requires
            old(self)@.wf(),
            index < 160,
        ensures
            final(self)@ == (GpuView { oam: old(self)@.oam.update(index as int, value), ..old(self)@ }),
            final(self)@.wf(),
    {
        self.oam.set(index as usize, value);
    }

    /// Write to LCDC (0xFF40).
    fn write_lcdc(&mut self, value: u8)
        ensures
            final(self)@ == old(self)@.lcdc_written(value),
    {
        self.lcd_enable = bits::test(value, 7);
        self.window_tile_map_select = bits::test(value, 6);
        self.window_enable = bits::test(value, 5);
        self.tile_data_select = bits::test(value, 4);
        self.background_tile_map_select = bits::test(value, 3);
        self.sprite_16 = bits::test(value, 2);
        self.sprite_enable = bits::test(value, 1);
        self.background_display = bits::test(value, 0);
        if !self.lcd_enable {
            self.ly = 0;
            self.lcd_mode = 0;
            self.cycles = 0;
        }
        assert(self@ =~= old(self)@.lcdc_written(value));
    }

    /// Write to one of the DMG registers.
    fn write_register(&mut self, address: u16, value: u8)
        ensures
            final(self)@ == old(self)@.register_written(address, value),
    {
        if address == 0xFF40 {
            self.write_lcdc(value);
        } else if address == 0xFF41 {
            self.lyc_irq_enable = bits::test(value, 6);
            self.m2_irq_enable = bits::test(value, 5);
            self.m1_irq_enable = bits::test(value, 4);
            self.m0_irq_enable = bits::test(value, 3);
        } else {
            self.write_byte_register(address, value);
        }
    }

    /// Write to one of the plain byte registers.
    fn write_byte_register(&mut self, address: u16, value: u8)
        ensures
            final(self)@ == old(self)@.byte_register_written(address, value),
    {
        if address == 0xFF42 {
            self.set_scy(value);
        } else if address == 0xFF43 {
            self.set_scx(value);
        } else if address == 0xFF45 {
            self.set_lyc(value);
        } else if address == 0xFF47 {
            self.set_bgp(value);
        } else if address == 0xFF48 {
            self.set_obp0(value);
        } else if address == 0xFF49 {
            self.set_obp1(value);
        } else if address == 0xFF4A {
            self.set_wy(value);
        } else if address == 0xFF4B {
            self.set_wx(value);
        } else {
            assert(self@ == old(self)@.byte_register_written(address, value));
        }
    }

    fn set_scy(&mut self, value: u8)
        ensures
            final(self)@ == old(self)@.byte_register_written(0xFF42, value),
    {
        self.scy = value;
    }

    fn set_scx(&mut self, value: u8)
        ensures
            final(self)@ == old(self)@.byte_register_written(0xFF43, value),
    {
        self.scx = value;
    }

    fn set_lyc(&mut self, value: u8)
        ensures
            final(self)@ == old(self)@.byte_register_written(0xFF45, value),
    {
        self.lyc = value;
    }

    fn set_bgp(&mut self, value: u8)
        ensures
            final(self)@ == old(self)@.byte_register_written(0xFF47, value),
    {
        self.bgp = value;
    }

    fn set_obp0(&mut self, value: u8)
        ensures
            final(self)@ == old(self)@.byte_register_written(0xFF48, value),
    {
        self.obp0 = value;
    }

    fn set_obp1(&mut self, value: u8)
        ensures
            final(self)@ == old(self)@.byte_register_written(0xFF49, value),
    {
        self.obp1 = value;
    }

    fn set_wy(&mut self, value: u8)
        ensures
            final(self)@ == old(self)@.byte_register_written(0xFF4A, value),
    {
        self.wy = value;
    }

    fn set_wx(&mut self, value: u8)
        ensures
            final(self)@ == old(self)@.byte_register_written(0xFF4B, value),
    {
        self.wx = value;
    }

    /// Write to one of the CGB registers.
    fn write_cgb_register(&mut self, address: u16, value: u8)
        requires
            old(self)@.wf(),
        ensures
            final(self)@ == old(self)@.cgb_written(address, value),
    {
        if !self.cgb() {
        } else if address == 0xFF69 {
            self.write_palette_data(value, false);
        } else if address == 0xFF6B {
            self.write_palette_data(value, true);
        } else {
            self.write_cgb_index(address, value);
        }
    }

    /// Write the VRAM bank or one of the palette index registers.
    fn write_cgb_index(&mut self, address: u16, value: u8)
        requires
            old(self)@.is_cgb(),
            address != 0xFF69,
            address != 0xFF6B,
        ensures
            final(self)@ == old(self)@.cgb_written(address, value),
    {
        if address == 0xFF4F {
            self.set_vram_bank(value);
        } else if address == 0xFF68 {
            self.set_palette_index(value, false);
        } else if address == 0xFF6A {
            self.set_palette_index(value, true);
        } else {
            assert(self@ == old(self)@.cgb_written(address, value));
        }
    }

    fn set_vram_bank(&mut self, value: u8)
        requires
            old(self)@.is_cgb(),
        ensures
            final(self)@ == old(self)@.cgb_written(0xFF4F, value),
    {
        self.vram_bank = value & 1;
    }

    fn set_palette_index(&mut self, value: u8, object: bool)
        requires
            old(self)@.is_cgb(),
        ensures
            final(self)@ == old(self)@.cgb_written(if object { 0xFF6Au16 } else { 0xFF68u16 }, value),
    {
        if object {
            self.ocpi = value & 0x3F;
            self.ocpi_ai = bits::test(value, 7);
        } else {
            self.bcpi = value & 0x3F;
            self.bcpi_ai = bits::test(value, 7);
        }
    }

    /// Write a byte of background (or, with `object`, sprite) palette data at the palette
    /// index, then advance the index when auto-increment is on.
    fn write_palette_data(&mut self, value: u8, object: bool)
        requires
            old(self)@.wf(),
        ensures
            final(self)@ == old(self)@.palette_written(value, object),
    {
        if !object {
            let i = self.bcpi as usize;
            self.bcpd.set(i, value & !((self.bcpi % 2) * 0x80));
            if self.bcpi_ai {
                self.bcpi += 1;
                self.bcpi &= 0x3F;
            }
        } else {
            let i = self.ocpi as usize;
            self.ocpd.set(i, value & !((self.ocpi % 2) * 0x80));
            if self.ocpi_ai {
                self.ocpi += 1;
                self.ocpi &= 0x3F;
            }
        }
    }

    /// Write
    pub fn write(&mut self, address: u16, value: u8, in_oam_dma: bool)
        requires
            old(self)@.wf(),
        ensures
            final(self)@ == old(self)@.written(address, value, in_oam_dma),
            final(self)@.wf(),
    {
        if address < 0xFF40 {
            self.write_memory(address, value, in_oam_dma);
        } else if address < 0xFF4F {
            self.write_register(address, value);
        } else {
            self.write_cgb_register(address, value);
        }
        proof {
            bits::lemma_and_bound();
        }
    }

    /// Get tile index from background tile map
    fn get_tile(&self, row: usize, column: usize) -> (r: usize)
        requires
            self@.vram.len() == 0x4000,
            row + column < 0x4000,
        ensures
            r == tile_number(self@.vram[row + column], self@.tile_data_select),
            r < 384,
    {
        if self.tile_data_select {
            self.vram[row + column] as usize
        } else {
            (((self.vram[row + column] as i8) as isize) + 256) as usize
        }
    }

    /// Get tile data (palette index)
    fn get_tile_data(&self, tile: usize, x: u8, y: u8) -> (r: u8)
        requires
            self@.vram.len() == 0x4000,
            tile < 384,
            x < 8,
            y < 8,
        ensures
            r == tile_pixel_spec(self@.vram, tile as int, x, y),
            r <= 3,
    {
        let offset = tile * 16 + ((y as usize) * 2);
        proof {
            bits::lemma_pixel_bound();
        }
        ((self.vram[offset + 1] >> (7 - x) << 1) & 2) | (self.vram[offset] >> (7 - x) & 1)
    }

    /// Get the grey level of a colour number under a palette register.
    fn get_color(&self, palette_index: u8, palette: u8) -> (r: u8)
        requires
            palette_index <= 3,
        ensures
            r == grey(shade_spec(palette_index, palette)),
    {
        assert(palette_index << 1u8 <= 6) by (bit_vector)
            requires
                palette_index <= 3,
        ;
        let pixel = (palette >> (palette_index << 1)) & 0x3;
        if pixel == 1 {
            0xC0
        } else if pixel == 2 {
            0x60
        } else if pixel == 3 {
            0
        } else {
            0xFF
        }
    }
}

impl Default for GPU {
    fn default() -> (r: GPU)
        ensures
            r@ == default_view(),
    {
        let r = GPU {
            mode: None,
            framebuffer: Vec::new(),
            vram: Vec::new(),
            vram_bank: 0,
            oam: Vec::new(),
            stat_irq: false,
            cycles: 0,
            m3_cycles: 0,
            priority_cache: Vec::new(),
            sprite_x_cache: Vec::new(),
            sprite_stall_buckets: Vec::new(),
            window_line: 0,
            ly: 0,
            lyc_timer: 0,
            lyc_irq_enable: false,
            m2_irq_enable: false,
            m1_irq_enable: false,
            m0_irq_enable: false,
            lcd_mode: 0,
            lcd_enable: false,
            window_tile_map_select: false,
            window_enable: false,
            tile_data_select: false,
            background_tile_map_select: false,
            sprite_16: false,
            sprite_enable: false,
            background_display: false,
            scy: 0,
            scx: 0,
            lyc: 0,
            wy: 0,
            wx: 0,
            bgp: 0,
            obp0: 0,
            obp1: 0,
            bcpi: 0,
            bcpi_ai: false,
            bcpd: Vec::new(),
            ocpi: 0,
            ocpi_ai: false,
            ocpd: Vec::new(),
        };
        assert(r@ =~= default_view());
        r
    }
}

} // verus!
