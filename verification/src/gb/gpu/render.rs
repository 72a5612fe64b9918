//! Scanline rendering: the background, the window and up to ten sprites of line LY are
//! drawn into the framebuffer, with a per-pixel priority cache deciding what covers what.

use vstd::prelude::*;
use crate::bits;
use crate::bits::test_spec;
use super::{fb_len, grey, shade_spec, tile_number, tile_pixel_spec, zeros, GpuView, GPU, WIDTH, HEIGHT};

verus! {

/// The framebuffer with one pixel (4 bytes: blue, green, red, alpha) set to grey level `v`.
pub open spec fn pixel_put(fb: Seq<u8>, p: int, v: u8) -> Seq<u8> {
    fb.update(4 * p, v).update(4 * p + 1, v).update(4 * p + 2, v).update(4 * p + 3, 0xFF)
}

/// The framebuffer with the pixels of columns `first..last` of line `ly` set to the grey
/// levels `level(column)`; every other byte unchanged.
pub open spec fn line_written(fb: Seq<u8>, ly: int, first: int, last: int, level: spec_fn(int) -> u8) -> Seq<u8> {
    Seq::new(
        fb.len(),
        |k: int|
            {
                let col = k / 4 - ly * 160;
                if first <= col < last {
                    if k % 4 == 3 { 0xFFu8 } else { level(col) }
                } else {
                    fb[k]
                }
            },
    )
}

/// A per-pixel cache with the entries of columns `first..last` of line `ly` set to
/// `value(column)`; every other entry unchanged.
pub open spec fn cache_written(c: Seq<u8>, ly: int, first: int, last: int, value: spec_fn(int) -> u8) -> Seq<u8> {
    Seq::new(
        c.len(),
        |k: int|
            {
                let col = k - ly * 160;
                if first <= col < last { value(col) } else { c[k] }
            },
    )
}

/// The offset in VRAM of the tile map selected by `high` (0x9C00 rather than 0x9800).
pub open spec fn map_base(high: bool) -> int {
    if high { 0x1C00 } else { 0x1800 }
}

/// Priority-cache value of a background or window pixel: bit 0 set when it is not colour 0.
pub open spec fn bg_priority(color: u8) -> u8 {
    if color > 0 { 1 } else { 0 }
}

impl GpuView {
    /// The buffers rendering works on have their hardware sizes and LY is a visible line.
    pub open spec fn renderable(self) -> bool {
        &&& self.ly < HEIGHT
        &&& self.vram.len() == 0x4000
        &&& self.oam.len() == 160
        &&& self.framebuffer.len() == fb_len()
        &&& self.priority_cache.len() == WIDTH * HEIGHT
        &&& self.sprite_x_cache.len() == WIDTH * HEIGHT
    }

    /// The background line drawn on LY: LY + SCY, wrapping around the 256-line map.
    pub open spec fn bg_line(self) -> u8 {
        self.ly.wrapping_add(self.scy)
    }

    /// The colour number of column `i` of the background on line LY (scrolled by SCX/SCY).
    pub open spec fn bg_color_number(self, i: int) -> u8 {
        let line = self.bg_line();
        let x = self.scx % 8 + i;
        let col = (self.scx / 8 + x / 8) % 32;
        let tile = tile_number(
            self.vram[map_base(self.background_tile_map_select) + (line / 8) * 32 + col],
            self.tile_data_select,
        );
        tile_pixel_spec(self.vram, tile, (x % 8) as u8, line % 8)
    }

    /// The grey level of each background column (palette BGP).
    pub open spec fn bg_level(self) -> spec_fn(int) -> u8 {
        |i: int| grey(shade_spec(self.bg_color_number(i), self.bgp))
    }

    /// The priority-cache value of each background column.
    pub open spec fn bg_priorities(self) -> spec_fn(int) -> u8 {
        |i: int| bg_priority(self.bg_color_number(i))
    }

    /// The state after the background is drawn on line LY with palette BGP.
    pub open spec fn bg_rendered(self) -> Self {
        GpuView {
            framebuffer: line_written(self.framebuffer, self.ly as int, 0, 160, self.bg_level()),
            priority_cache: cache_written(
                self.priority_cache,
                self.ly as int,
                0,
                160,
                self.bg_priorities(),
            ),
            ..self
        }
    }

    /// Whether the window covers part of line LY.
    pub open spec fn window_visible(self) -> bool {
        self.window_line <= 143 && self.wx <= 159 && self.wy <= 143 && self.wy <= self.ly
    }

    /// The first column the window covers (WX - 7, at least 0).
    pub open spec fn window_start(self) -> int {
        if self.wx > 7 { self.wx - 7 } else { 0 }
    }

    /// The colour number of column `i` of the window on line LY (window line `window_line`).
    pub open spec fn window_color_number(self, i: int) -> u8 {
        let line = self.window_line;
        let x = i - self.window_start();
        let col = (x / 8) % 32;
        let tile = tile_number(
            self.vram[map_base(self.window_tile_map_select) + (line / 8) * 32 + col],
            self.tile_data_select,
        );
        tile_pixel_spec(self.vram, tile, (x % 8) as u8, line % 8)
    }

    /// The grey level of each window column (palette BGP).
    pub open spec fn window_level(self) -> spec_fn(int) -> u8 {
        |i: int| grey(shade_spec(self.window_color_number(i), self.bgp))
    }

    /// The priority-cache value of each window column.
    pub open spec fn window_priorities(self) -> spec_fn(int) -> u8 {
        |i: int| bg_priority(self.window_color_number(i))
    }

    /// The T-cycles drawing the window adds to mode 3: 30, or 31 when WX <= 7; 0 when the
    /// window is not on this line.
    pub open spec fn window_cycles(self) -> u32 {
        if !self.window_visible() {
            0
        } else if self.wx <= 7 {
            31
        } else {
            30
        }
    }

    /// The window's columns (from WX - 7 on) drawn on line LY.
    pub open spec fn window_drawn(self) -> Self {
        GpuView {
            framebuffer: line_written(
                self.framebuffer,
                self.ly as int,
                self.window_start(),
                160,
                self.window_level(),
            ),
            priority_cache: cache_written(
                self.priority_cache,
                self.ly as int,
                self.window_start(),
                160,
                self.window_priorities(),
            ),
            ..self
        }
    }

    /// The state after the window is drawn on line LY: its columns from WX - 7 on, and the
    /// window line counter advanced.
    pub open spec fn window_rendered(self) -> Self {
        if !self.window_visible() {
            self
        } else {
            GpuView { window_line: (self.window_line + 1) as u8, ..self.window_drawn() }
        }
    }
}

/// Where the sprite pass of a scanline stands: the buffers it draws into, the stall buckets,
/// the T-cycles counted so far, whether a sprite sits at X <= 0, how many sprites were drawn
/// and whether the line is full (a further sprite on the line after ten were drawn).
pub struct SpriteScan {
    pub priority: Seq<u8>,
    pub x_cache: Seq<u8>,
    pub framebuffer: Seq<u8>,
    pub buckets: Seq<u8>,
    pub cycles: int,
    pub at_zero: bool,
    pub drawn: int,
    pub full: bool,
}

/// The sum of a sequence of bytes.
pub open spec fn sum_bytes(s: Seq<u8>) -> int
    decreases s.len(),
{
    if s.len() == 0 {
        0
    } else {
        sum_bytes(s.drop_last()) + s.last()
    }
}

impl GpuView {
    /// Sprite height: 16 with 8x16 sprites selected, else 8.
    pub open spec fn sprite_height(self) -> int {
        if self.sprite_16 { 16 } else { 8 }
    }

    /// Screen Y of the top row of OAM entry `i` (byte 0 minus 16).
    pub open spec fn sprite_y(self, i: int) -> int {
        self.oam[4 * i] - 16
    }

    /// Screen X of the left column of OAM entry `i` (byte 1 minus 8).
    pub open spec fn sprite_x(self, i: int) -> int {
        self.oam[4 * i + 1] - 8
    }

    /// The attribute byte of OAM entry `i`.
    pub open spec fn sprite_attr(self, i: int) -> u8 {
        self.oam[4 * i + 3]
    }

    /// Whether OAM entry `i` covers line LY.
    pub open spec fn sprite_on_line(self, i: int) -> bool {
        self.sprite_y(i) <= self.ly && self.ly < self.sprite_y(i) + self.sprite_height()
    }

    /// The row of sprite `i` drawn on line LY, after vertical mirroring (attribute bit 6).
    pub open spec fn sprite_row(self, i: int) -> int {
        let r = self.ly - self.sprite_y(i);
        if test_spec(self.sprite_attr(i), 6) {
            self.sprite_height() - 1 - r
        } else {
            r
        }
    }

    /// The tile that row comes from: for 8x16 sprites the even tile of the pair holds the
    /// top half and the odd one the bottom half.
    pub open spec fn sprite_tile(self, i: int) -> int {
        let t = self.oam[4 * i + 2];
        if self.sprite_height() == 16 {
            if self.sprite_row(i) < 8 {
                (t & 0xFE) as int
            } else {
                (t | 1) as int
            }
        } else {
            t as int
        }
    }

    /// The row within that tile.
    pub open spec fn sprite_tile_row(self, i: int) -> int {
        if self.sprite_height() == 16 && self.sprite_row(i) >= 8 {
            self.sprite_row(i) - 8
        } else {
            self.sprite_row(i)
        }
    }

    /// The colour number of column `x` (0 - 7) of sprite `i` on line LY, after horizontal
    /// mirroring (attribute bit 5).
    pub open spec fn sprite_color_number(self, i: int, x: int) -> u8 {
        let tx = if test_spec(self.sprite_attr(i), 5) { 7 - x } else { x };
        tile_pixel_spec(self.vram, self.sprite_tile(i), tx as u8, self.sprite_tile_row(i) as u8)
    }

    /// The palette of sprite `i`: OBP1 when attribute bit 4 is set, else OBP0.
    pub open spec fn sprite_palette(self, i: int) -> u8 {
        if test_spec(self.sprite_attr(i), 4) { self.obp1 } else { self.obp0 }
    }

    /// Whether sprite `i` may not draw at cache index `ci`: a sprite at the same or a smaller
    /// X already drew there, the background holds forced priority (bit 2), or the sprite is
    /// behind the background (attribute bit 7) and a background/window colour other than 0 is
    /// there.
    pub open spec fn sprite_hidden(self, s: SpriteScan, i: int, ci: int) -> bool {
        let p = s.priority[ci];
        ||| test_spec(p, 1) && s.x_cache[ci] <= self.oam[4 * i + 1]
        ||| test_spec(p, 2)
        ||| test_spec(p, 0) && test_spec(self.sprite_attr(i), 7)
    }

    /// Column `x` of sprite `i` drawn over the scan `s`, and whether the column counts as
    /// rendered (off-screen columns do; hidden ones do not).
    pub open spec fn sprite_column(self, s: SpriteScan, i: int, x: int) -> (SpriteScan, bool) {
        let sx = self.sprite_x(i) + x;
        if !(0 <= sx < 160) {
            (s, true)
        } else {
            let ci = self.ly * 160 + sx;
            if self.sprite_hidden(s, i, ci) {
                (s, false)
            } else {
                let c = self.sprite_color_number(i, x);
                let s1 = SpriteScan {
                    priority: s.priority.update(ci, s.priority[ci] | (if c > 0 { 2u8 } else { 0u8 })),
                    x_cache: s.x_cache.update(ci, self.oam[4 * i + 1]),
                    ..s
                };
                if c == 0 {
                    (s1, true)
                } else {
                    (
                        SpriteScan {
                            framebuffer: pixel_put(
                                s.framebuffer,
                                ci,
                                grey(shade_spec(c, self.sprite_palette(i))),
                            ),
                            ..s1
                        },
                        true,
                    )
                }
            }
        }
    }

    /// Columns `0..count` of sprite `i` drawn in order, and whether any counted as rendered.
    pub open spec fn sprite_columns(self, s: SpriteScan, i: int, count: nat) -> (SpriteScan, bool)
        decreases count,
    {
        if count == 0 {
            (s, false)
        } else {
            let prev = self.sprite_columns(s, i, (count - 1) as nat);
            let next = self.sprite_column(prev.0, i, count - 1);
            (next.0, prev.1 || next.1)
        }
    }

    /// The timing effect of a rendered sprite `i` that is not past the right edge: 6 T-cycles,
    /// and a stall of up to 5 T-cycles in the 8-pixel bucket it starts in (the largest stall
    /// in a bucket counts).
    pub open spec fn sprite_timed(self, s: SpriteScan, i: int) -> SpriteScan {
        let raw = self.oam[4 * i + 1];
        if raw < 168 {
            let x = raw + self.scx;
            let b = x / 8;
            let stall = if x % 8 > 5 { 0 } else { 5 - x % 8 };
            let prev = s.buckets[b];
            SpriteScan {
                cycles: s.cycles + 6,
                at_zero: s.at_zero || x <= 0,
                buckets: s.buckets.update(b, if prev >= stall { prev } else { stall as u8 }),
                ..s
            }
        } else {
            s
        }
    }

    /// OAM entry `i` processed by the sprite pass: skipped when off the line or the line is
    /// full; a sprite on the line after ten were drawn makes the line full; otherwise its
    /// eight columns are drawn and, when any counted, it is timed and counted.
    pub open spec fn sprite_scanned(self, s: SpriteScan, i: int) -> SpriteScan {
        if s.full || !self.sprite_on_line(i) {
            s
        } else if s.drawn >= 10 {
            SpriteScan { full: true, ..s }
        } else {
            let (s1, rendered) = self.sprite_columns(s, i, 8);
            if !rendered {
                s1
            } else {
                let s2 = self.sprite_timed(s1, i);
                SpriteScan { drawn: s2.drawn + 1, ..s2 }
            }
        }
    }

    /// The sprite pass before any OAM entry: empty stall buckets (one per 8 pixels of
    /// 168 + SCX) and SCX mod 8 T-cycles.
    pub open spec fn scan_start(self) -> SpriteScan {
        SpriteScan {
            priority: self.priority_cache,
            x_cache: self.sprite_x_cache,
            framebuffer: self.framebuffer,
            buckets: zeros(((175 + self.scx) / 8) as nat),
            cycles: (self.scx % 8) as int,
            at_zero: false,
            drawn: 0,
            full: false,
        }
    }

    /// The sprite pass after OAM entries `0..count`.
    pub open spec fn sprites_scanned(self, count: nat) -> SpriteScan
        decreases count,
    {
        if count == 0 {
            self.scan_start()
        } else {
            self.sprite_scanned(self.sprites_scanned((count - 1) as nat), count - 1)
        }
    }

    /// The T-cycles the sprites add to mode 3: the counted cycles, the bucket stalls and,
    /// with a sprite at X <= 0, SCX mod 8 more, rounded down to whole M-cycles.
    pub open spec fn sprite_cycles(self) -> u32 {
        let s = self.sprites_scanned(40);
        let total = s.cycles + sum_bytes(s.buckets) + if s.at_zero { self.scx % 8 } else { 0 };
        (total / 4 * 4) as u32
    }

    /// This state with the buffers of a sprite pass.
    pub open spec fn with_scan(self, s: SpriteScan) -> Self {
        GpuView {
            priority_cache: s.priority,
            sprite_x_cache: s.x_cache,
            framebuffer: s.framebuffer,
            sprite_stall_buckets: s.buckets,
            ..self
        }
    }

    /// The state after the sprites of line LY are drawn.
    pub open spec fn sprites_rendered(self) -> Self {
        self.with_scan(self.sprites_scanned(40))
    }

    /// The invariant of the sprite pass: buffer sizes kept, at most ten sprites drawn, and
    /// the cycles and stalls bounded by the sprites drawn.
    pub open spec fn scan_ok(self, s: SpriteScan) -> bool {
        &&& s.priority.len() == WIDTH * HEIGHT
        &&& s.x_cache.len() == WIDTH * HEIGHT
        &&& s.framebuffer.len() == fb_len()
        &&& s.buckets.len() == (175 + self.scx) / 8
        &&& 0 <= s.drawn <= 10
        &&& self.scx % 8 <= s.cycles <= self.scx % 8 + 6 * s.drawn
        &&& 0 <= sum_bytes(s.buckets) <= 5 * s.drawn
    }
}

/// A visible, unhidden column of a sprite marks the caches and, unless it is colour 0,
/// puts its pixel.
proof fn lemma_column_drawn(g: GpuView, s: SpriteScan, i: int, x: int, ci: int)
    requires
        0 <= g.sprite_x(i) + x < 160,
        ci == g.ly * 160 + g.sprite_x(i) + x,
        !g.sprite_hidden(s, i, ci),
    ensures
        ({
            let c = g.sprite_color_number(i, x);
            let s1 = SpriteScan {
                priority: s.priority.update(ci, s.priority[ci] | (if c > 0 { 2u8 } else { 0u8 })),
                x_cache: s.x_cache.update(ci, g.oam[4 * i + 1]),
                ..s
            };
            &&& c == 0 ==> g.sprite_column(s, i, x) == (s1, true)
            &&& c != 0 ==> g.sprite_column(s, i, x) == (
                SpriteScan {
                    framebuffer: pixel_put(s.framebuffer, ci, grey(shade_spec(c, g.sprite_palette(i)))),
                    ..s1
                },
                true,
            )
        }),
{
}

/// The timing of a sprite that starts before X = 168, spelled out.
proof fn lemma_timed(g: GpuView, s: SpriteScan, i: int)
    requires
        g.oam[4 * i + 1] < 168,
    ensures
        ({
            let x = g.oam[4 * i + 1] + g.scx;
            let stall = if x % 8 > 5 { 0 } else { 5 - x % 8 };
            let prev = s.buckets[x / 8];
            g.sprite_timed(s, i) == SpriteScan {
                cycles: s.cycles + 6,
                at_zero: s.at_zero || x == 0,
                buckets: s.buckets.update(x / 8, if prev >= stall { prev } else { stall as u8 }),
                ..s
            }
        }),
{
}

/// A sprite that starts before X = 168 falls in one of the (175 + SCX) / 8 buckets.
proof fn lemma_bucket_index(raw: int, scx: int)
    requires
        0 <= raw < 168,
        0 <= scx,
    ensures
        (raw + scx) / 8 < (175 + scx) / 8,
{
    assert((175 + scx) / 8 == (167 + scx) / 8 + 1);
    assert((raw + scx) / 8 <= (167 + scx) / 8) by (nonlinear_arith)
        requires
            raw <= 167,
    ;
}

/// Replacing one byte changes the sum by the difference.
proof fn lemma_sum_update(s: Seq<u8>, j: int, v: u8)
    requires
        0 <= j < s.len(),
    ensures
        sum_bytes(s.update(j, v)) == sum_bytes(s) - s[j] + v,
    decreases s.len(),
{
    let t = s.update(j, v);
    if j == s.len() - 1 {
        assert(t.drop_last() =~= s.drop_last());
    } else {
        lemma_sum_update(s.drop_last(), j, v);
        assert(t.drop_last() =~= s.drop_last().update(j, v));
    }
}

/// A sum of bytes is never negative.
proof fn lemma_sum_nonneg(s: Seq<u8>)
    ensures
        sum_bytes(s) >= 0,
    decreases s.len(),
{
    if s.len() > 0 {
        lemma_sum_nonneg(s.drop_last());
    }
}

/// The zero buffer sums to 0.
proof fn lemma_sum_zeros(n: nat)
    ensures
        sum_bytes(zeros(n)) == 0,
    decreases n,
{
    if n > 0 {
        assert(zeros(n).drop_last() =~= zeros((n - 1) as nat));
        lemma_sum_zeros((n - 1) as nat);
    }
}

/// A prefix sums to no more than the whole.
proof fn lemma_sum_prefix(s: Seq<u8>, j: int)
    requires
        0 <= j <= s.len(),
    ensures
        sum_bytes(s.take(j)) <= sum_bytes(s),
    decreases s.len(),
{
    if j < s.len() {
        assert(s.drop_last().take(j) =~= s.take(j));
        lemma_sum_prefix(s.drop_last(), j);
    } else {
        assert(s.take(j) =~= s);
    }
}

/// Drawing columns leaves the buffer sizes, the buckets and the counters of a scan alone.
proof fn lemma_columns_frame(g: GpuView, s: SpriteScan, i: int, count: nat)
    requires
        g.renderable(),
        s.priority.len() == WIDTH * HEIGHT,
        s.x_cache.len() == WIDTH * HEIGHT,
        s.framebuffer.len() == fb_len(),
    ensures
        g.sprite_columns(s, i, count).0.priority.len() == WIDTH * HEIGHT,
        g.sprite_columns(s, i, count).0.x_cache.len() == WIDTH * HEIGHT,
        g.sprite_columns(s, i, count).0.framebuffer.len() == fb_len(),
        g.sprite_columns(s, i, count).0.buckets == s.buckets,
        g.sprite_columns(s, i, count).0.cycles == s.cycles,
        g.sprite_columns(s, i, count).0.at_zero == s.at_zero,
        g.sprite_columns(s, i, count).0.drawn == s.drawn,
        g.sprite_columns(s, i, count).0.full == s.full,
    decreases count,
{
    if count > 0 {
        lemma_columns_frame(g, s, i, (count - 1) as nat);
    }
}

/// The T-cycles mode 3 takes before the window and sprites: 175, plus a stall for fine
/// scrolling of 4 (SCX mod 8 in 1..=4) or 8 (SCX mod 8 in 5..=7).
pub open spec fn m3_base(scx: u8) -> u32 {
    if scx % 8 == 0 {
        175
    } else if scx % 8 <= 4 {
        179
    } else {
        183
    }
}

impl GpuView {
    /// The state after line LY is rendered at the start of mode 3: the caches cleared, the
    /// background, window and sprites drawn as enabled, and the length of mode 3 set.
    pub open spec fn rendered(self) -> Self {
        let s0 = GpuView {
            m3_cycles: m3_base(self.scx),
            priority_cache: zeros((WIDTH * HEIGHT) as nat),
            sprite_x_cache: zeros((WIDTH * HEIGHT) as nat),
            ..self
        };
        let s1 = if self.lcd_enable && self.background_display { s0.bg_rendered() } else { s0 };
        let s2 = if self.lcd_enable && self.window_enable {
            GpuView { m3_cycles: (s1.m3_cycles + s1.window_cycles()) as u32, ..s1.window_rendered() }
        } else {
            s1
        };
        if self.lcd_enable && self.sprite_enable {
            GpuView { m3_cycles: (s2.m3_cycles + s2.sprite_cycles()) as u32, ..s2.sprites_rendered() }
        } else {
            s2
        }
    }
}

/// Extending a drawn stretch of a line by one column is one more pixel put.
pub(crate) proof fn lemma_line_step(fb: Seq<u8>, ly: int, first: int, last: int, level: spec_fn(int) -> u8)
    requires
        0 <= ly < 144,
        0 <= first <= last < 160,
        fb.len() == fb_len(),
    ensures
        line_written(fb, ly, first, last + 1, level) == pixel_put(
            line_written(fb, ly, first, last, level),
            ly * 160 + last,
            level(last),
        ),
{
    let p = ly * 160 + last;
    let a = line_written(fb, ly, first, last + 1, level);
    let b = pixel_put(line_written(fb, ly, first, last, level), p, level(last));
    assert forall|k: int| 0 <= k < a.len() implies a[k] == b[k] by {
        if 4 * p <= k < 4 * p + 4 {
            assert(k / 4 == p);
        } else {
            assert(k / 4 != p);
        }
    }
    assert(a =~= b);
}

/// An empty stretch leaves the framebuffer as it was.
pub(crate) proof fn lemma_line_empty(fb: Seq<u8>, ly: int, first: int, level: spec_fn(int) -> u8)
    ensures
        line_written(fb, ly, first, first, level) == fb,
{
    assert(line_written(fb, ly, first, first, level) =~= fb);
}

/// Extending a written stretch of a cache line by one column is one more update.
proof fn lemma_cache_step(c: Seq<u8>, ly: int, first: int, last: int, value: spec_fn(int) -> u8)
    requires
        0 <= ly < 144,
        0 <= first <= last < 160,
        c.len() == WIDTH * HEIGHT,
    ensures
        cache_written(c, ly, first, last + 1, value) == cache_written(c, ly, first, last, value).update(
            ly * 160 + last,
            value(last),
        ),
{
    assert(cache_written(c, ly, first, last + 1, value) =~= cache_written(c, ly, first, last, value).update(
        ly * 160 + last,
        value(last),
    ));
}

/// An empty stretch leaves the cache as it was.
proof fn lemma_cache_empty(c: Seq<u8>, ly: int, first: int, value: spec_fn(int) -> u8)
    ensures
        cache_written(c, ly, first, first, value) == c,
{
    assert(cache_written(c, ly, first, first, value) =~= c);
}

impl GPU {
    /// Put one pixel of grey level `v` into the framebuffer.
    fn put_pixel(&mut self, p: usize, v: u8)
        requires
            p < WIDTH * HEIGHT,
            old(self)@.framebuffer.len() == fb_len(),
        ensures
            final(self)@ == (GpuView { framebuffer: pixel_put(old(self)@.framebuffer, p as int, v), ..old(self)@ }),
    {
        self.framebuffer.set(p * 4, v);
        self.framebuffer.set(p * 4 + 1, v);
        self.framebuffer.set(p * 4 + 2, v);
        self.framebuffer.set(p * 4 + 3, 0xFF);
    }

    /// Set one entry of the priority cache.
    fn set_priority(&mut self, p: usize, v: u8)
        requires
            p < old(self)@.priority_cache.len(),
        ensures
            final(self)@ == (GpuView { priority_cache: old(self)@.priority_cache.update(p as int, v), ..old(self)@ }),
    {
        self.priority_cache.set(p, v);
    }

    /// Draw one background or window pixel: its priority-cache bit and its grey level.
    fn put_bg_pixel(&mut self, p: usize, color: u8, level: u8)
        requires
            p < WIDTH * HEIGHT,
            old(self)@.renderable(),
        ensures
            final(self)@ == (GpuView {
                framebuffer: pixel_put(old(self)@.framebuffer, p as int, level),
                priority_cache: old(self)@.priority_cache.update(p as int, bg_priority(color)),
                ..old(self)@
            }),
    {
        self.set_priority(p, if color > 0 { 1 } else { 0 });
        self.put_pixel(p, level);
    }

    /// The colour number of column `i` of the background on line LY.
    fn background_pixel(&self, i: usize) -> (r: u8)
        requires
            self@.renderable(),
            i < WIDTH,
        ensures
            r == self@.bg_color_number(i as int),
            r <= 3,
    {
        let line: u8 = self.ly.wrapping_add(self.scy);
        let row: usize = (if self.background_tile_map_select { 0x1C00 } else { 0x1800 }) + ((line
            as usize) / 8) * 32;
        let x: u8 = self.scx % 8 + i as u8;
        let col: u8 = ((self.scx / 8) + (x / 8)) % 32;
        let tile_idx = self.get_tile(row, col as usize);
        self.get_tile_data(tile_idx, x % 8, line % 8)
    }

    /// Render Background (for Scanline)
    fn render_background(&mut self)
        requires
            old(self)@.renderable(),
        ensures
            final(self)@ == old(self)@.bg_rendered(),
            final(self)@.renderable(),
    {
        let ghost g = self@;
        let ghost level = g.bg_level();
        let ghost prio = g.bg_priorities();
        let offset = (self.ly as usize) * WIDTH;
        proof {
            lemma_line_empty(g.framebuffer, g.ly as int, 0, level);
            lemma_cache_empty(g.priority_cache, g.ly as int, 0, prio);
        }
        for i in 0..WIDTH
            invariant
                g.renderable(),
                level == g.bg_level(),
                prio == g.bg_priorities(),
                offset == g.ly * 160,
                self@ == (GpuView {
                    framebuffer: line_written(g.framebuffer, g.ly as int, 0, i as int, level),
                    priority_cache: cache_written(g.priority_cache, g.ly as int, 0, i as int, prio),
                    ..g
                }),
        {
            let pal_idx = self.background_pixel(i);
            let c = self.get_color(pal_idx, self.bgp);
            assert(pal_idx == g.bg_color_number(i as int));
            assert(c == level(i as int));
            assert(bg_priority(pal_idx) == prio(i as int));
            proof {
                lemma_line_step(g.framebuffer, g.ly as int, 0, i as int, level);
                lemma_cache_step(g.priority_cache, g.ly as int, 0, i as int, prio);
            }
            self.put_bg_pixel(offset + i, pal_idx, c);
        }
    }

    /// The colour number of column `i` of the window on line LY.
    fn window_pixel(&self, i: usize) -> (r: u8)
        requires
            self@.renderable(),
            self@.window_visible(),
            self@.window_start() <= i < WIDTH,
        ensures
            r == self@.window_color_number(i as int),
            r <= 3,
    {
        let line: u8 = self.window_line;
        let row: usize = (if self.window_tile_map_select { 0x1C00 } else { 0x1800 }) + ((line
            as usize) / 8) * 32;
        let start: usize = if self.wx > 7 { (self.wx - 7) as usize } else { 0 };
        let x: u8 = (i - start) as u8;
        let col: u8 = (x / 8) % 32;
        let tile_idx = self.get_tile(row, col as usize);
        self.get_tile_data(tile_idx, x % 8, line % 8)
    }

    /// Render Window (for Scanline); returns the T-cycles it adds to mode 3.
    fn render_window(&mut self) -> (cycles: u32)
        requires
            old(self)@.renderable(),
        ensures
            final(self)@ == old(self)@.window_rendered(),
            final(self)@.renderable(),
            cycles == old(self)@.window_cycles(),
    {
        if self.window_line > 143 || self.wx > 159 || (self.wy > 143) || (self.wy > self.ly) {
            return 0;
        }
        self.draw_window()
    }

    /// Draw the window's columns on line LY and advance the window line.
    fn draw_window(&mut self) -> (cycles: u32)
        requires
            old(self)@.renderable(),
            old(self)@.window_visible(),
        ensures
            final(self)@ == old(self)@.window_rendered(),
            cycles == old(self)@.window_cycles(),
    {
        // Rendering the window takes 30 cycles, one more when WX <= 7
        let cycles: u32 = if self.wx <= 7 { 31 } else { 30 };
        self.window_columns();
        self.next_window_line();
        cycles
    }

    /// Draw the window's columns (from WX - 7 on) of line LY.
    fn window_columns(&mut self)
        requires
            old(self)@.renderable(),
            old(self)@.window_visible(),
        ensures
            final(self)@ == old(self)@.window_drawn(),
    {
        let ghost g = self@;
        let ghost level = g.window_level();
        let ghost prio = g.window_priorities();
        let offset = (self.ly as usize) * WIDTH;
        let start: usize = self.window_first_column();
        proof {
            lemma_line_empty(g.framebuffer, g.ly as int, start as int, level);
            lemma_cache_empty(g.priority_cache, g.ly as int, start as int, prio);
        }
        for i in start..WIDTH
            invariant
                g.renderable(),
                g.window_visible(),
                start == g.window_start(),
                level == g.window_level(),
                prio == g.window_priorities(),
                offset == g.ly * 160,
                self@ == (GpuView {
                    framebuffer: line_written(g.framebuffer, g.ly as int, start as int, i as int, level),
                    priority_cache: cache_written(g.priority_cache, g.ly as int, start as int, i as int, prio),
                    ..g
                }),
        {
            let pal_idx = self.window_pixel(i);
            let c = self.get_color(pal_idx, self.bgp);
            assert(c == level(i as int));
            assert(bg_priority(pal_idx) == prio(i as int));
            proof {
                lemma_line_step(g.framebuffer, g.ly as int, start as int, i as int, level);
                lemma_cache_step(g.priority_cache, g.ly as int, start as int, i as int, prio);
            }
            self.put_bg_pixel(offset + i, pal_idx, c);
        }
    }

    /// The first column the window covers.
    fn window_first_column(&self) -> (r: usize)
        ensures
            r == self@.window_start(),
    {
        if self.wx > 7 {
            (self.wx - 7) as usize
        } else {
            0
        }
    }

    /// Advance the window line counter.
    fn next_window_line(&mut self)
        requires
            old(self)@.window_line < 255,
        ensures
            final(self)@ == (GpuView { window_line: (old(self)@.window_line + 1) as u8, ..old(self)@ }),
    {
        self.window_line += 1;
    }
}

/// The stall bucket of a sprite whose OAM X byte is `raw` (it starts at `raw + SCX` on the
/// 8-pixel grid), the stall it causes there (5 minus its offset in the bucket, at least 0),
/// and whether it starts at 0.
fn bucket_of(raw: u8, scx: u8) -> (r: (usize, u8, bool))
    requires
        raw < 168,
    ensures
        r.0 == (raw + scx) / 8,
        r.0 < (175 + scx) / 8,
        r.1 == (if (raw + scx) % 8 > 5 { 0 } else { 5 - (raw + scx) % 8 }),
        r.2 == (raw + scx == 0),
{
    let x: u16 = raw as u16 + scx as u16;
    proof {
        lemma_bucket_index(raw as int, scx as int);
    }
    let stall: u8 = if x % 8 > 5 { 0 } else { 5 - (x % 8) as u8 };
    ((x / 8) as usize, stall, x == 0)
}

/// The running counters of the sprite pass.
#[derive(Clone, Copy)]
struct SpriteCounters {
    cycles: u32,
    at_zero: bool,
    drawn: u8,
    full: bool,
}

/// Whether the counters hold the counts of the scan.
spec fn counts(s: SpriteScan, c: SpriteCounters) -> bool {
    &&& s.cycles == c.cycles as int
    &&& s.at_zero == c.at_zero
    &&& s.drawn == c.drawn as int
    &&& s.full == c.full
}

impl GPU {
    /// Record a sprite pixel in the priority cache (bit 1 when not colour 0) and its X in
    /// the sprite X cache.
    fn mark_sprite_pixel(&mut self, ci: usize, color: u8, x_raw: u8)
        requires
            ci < WIDTH * HEIGHT,
            old(self)@.priority_cache.len() == WIDTH * HEIGHT,
            old(self)@.sprite_x_cache.len() == WIDTH * HEIGHT,
        ensures
            final(self)@ == (GpuView {
                priority_cache: old(self)@.priority_cache.update(
                    ci as int,
                    old(self)@.priority_cache[ci as int] | (if color > 0 { 2u8 } else { 0u8 }),
                ),
                sprite_x_cache: old(self)@.sprite_x_cache.update(ci as int, x_raw),
                ..old(self)@
            }),
    {
        let p = self.priority_cache[ci];
        self.priority_cache.set(ci, p | if color > 0 { 2 } else { 0 });
        self.sprite_x_cache.set(ci, x_raw);
    }

    /// Set one stall bucket.
    fn set_bucket(&mut self, b: usize, v: u8)
        requires
            b < old(self)@.sprite_stall_buckets.len(),
        ensures
            final(self)@ == (GpuView {
                sprite_stall_buckets: old(self)@.sprite_stall_buckets.update(b as int, v),
                ..old(self)@
            }),
    {
        self.sprite_stall_buckets.set(b, v);
    }

    /// Draw column `x` of sprite `i` (tile `tile`, tile row `tile_y`); returns whether the
    /// column counts as rendered.
    fn sprite_column(
        &mut self,
        Ghost(g): Ghost<GpuView>,
        Ghost(s): Ghost<SpriteScan>,
        i: usize,
        x: u8,
        tile: usize,
        tile_y: u8,
    ) -> (rendered: bool)
        requires
            g.renderable(),
            i < 40,
            x < 8,
            old(self)@ == g.with_scan(s),
            s.priority.len() == WIDTH * HEIGHT,
            s.x_cache.len() == WIDTH * HEIGHT,
            s.framebuffer.len() == fb_len(),
            tile == g.sprite_tile(i as int),
            tile_y == g.sprite_tile_row(i as int),
            tile < 384,
            tile_y < 8,
        ensures
            final(self)@ == g.with_scan(g.sprite_column(s, i as int, x as int).0),
            rendered == g.sprite_column(s, i as int, x as int).1,
    {
        let raw_x = self.oam[i * 4 + 1];
        let sx: i16 = (raw_x as i16) - 8 + (x as i16);
        assert(sx == g.sprite_x(i as int) + x);
        if sx < 0 || sx >= 160 {
            assert(g.sprite_column(s, i as int, x as int) == (s, true));
            return true;
        }
        let ci = (self.ly as usize) * WIDTH + (sx as usize);
        assert(ci == g.ly * 160 + g.sprite_x(i as int) + x);
        let pcache = self.priority_cache[ci];
        let attr = self.oam[i * 4 + 3];
        // Another sprite at the same or a smaller X drew here, the background has forced
        // priority, or the sprite is behind a background/window pixel
        if (bits::test(pcache, 1) && self.sprite_x_cache[ci] <= raw_x) || bits::test(pcache, 2)
            || (bits::test(pcache, 0) && bits::test(attr, 7)) {
            assert(g.sprite_hidden(s, i as int, ci as int));
            assert(g.sprite_column(s, i as int, x as int) == (s, false));
            return false;
        }
        assert(!g.sprite_hidden(s, i as int, ci as int));
        let tile_x: u8 = if bits::test(attr, 5) { 7 - x } else { x };
        let pal_idx = self.get_tile_data(tile, tile_x, tile_y);
        assert(pal_idx == g.sprite_color_number(i as int, x as int));
        self.draw_sprite_pixel(Ghost(g), Ghost(s), i, x, ci, pal_idx);
        true
    }

    /// Draw a visible column of sprite `i` whose colour number is `pal_idx`.
    fn draw_sprite_pixel(
        &mut self,
        Ghost(g): Ghost<GpuView>,
        Ghost(s): Ghost<SpriteScan>,
        i: usize,
        x: u8,
        ci: usize,
        pal_idx: u8,
    )
        requires
            g.renderable(),
            i < 40,
            x < 8,
            old(self)@ == g.with_scan(s),
            s.priority.len() == WIDTH * HEIGHT,
            s.x_cache.len() == WIDTH * HEIGHT,
            s.framebuffer.len() == fb_len(),
            0 <= g.sprite_x(i as int) + x < 160,
            ci == g.ly * 160 + g.sprite_x(i as int) + x,
            !g.sprite_hidden(s, i as int, ci as int),
            pal_idx == g.sprite_color_number(i as int, x as int),
            pal_idx <= 3,
        ensures
            final(self)@ == g.with_scan(g.sprite_column(s, i as int, x as int).0),
    {
        let raw_x = self.oam[i * 4 + 1];
        proof {
            lemma_column_drawn(g, s, i as int, x as int, ci as int);
        }
        self.mark_sprite_pixel(ci, pal_idx, raw_x);
        if pal_idx != 0 {
            let attr = self.oam[i * 4 + 3];
            let palette = if bits::test(attr, 4) { self.obp1 } else { self.obp0 };
            let level = self.get_color(pal_idx, palette);
            self.put_pixel(ci, level);
        }
    }

    /// Time a rendered sprite: 6 T-cycles and the stall in its bucket, unless it is past the
    /// right edge.
    fn time_sprite(
        &mut self,
        Ghost(g): Ghost<GpuView>,
        Ghost(s): Ghost<SpriteScan>,
        i: usize,
        c: SpriteCounters,
    ) -> (r: SpriteCounters)
        requires
            g.renderable(),
            i < 40,
            old(self)@ == g.with_scan(s),
            counts(s, c),
            s.buckets.len() == (175 + g.scx) / 8,
            c.cycles <= 100,
        ensures
            final(self)@ == g.with_scan(g.sprite_timed(s, i as int)),
            counts(g.sprite_timed(s, i as int), r),
            r.cycles <= c.cycles + 6,
            g.sprite_timed(s, i as int).buckets.len() == s.buckets.len(),
            sum_bytes(g.sprite_timed(s, i as int).buckets) <= sum_bytes(s.buckets) + 5,
    {
        let raw = self.oam[i * 4 + 1];
        if raw >= 168 {
            return c;
        }
        let (b, stall, at_zero) = bucket_of(raw, self.scx);
        let prev = self.sprite_stall_buckets[b];
        let newv = if prev >= stall { prev } else { stall };
        proof {
            lemma_sum_update(s.buckets, b as int, newv);
            lemma_timed(g, s, i as int);
        }
        self.bump_bucket(Ghost(g), Ghost(s), b, newv);
        SpriteCounters { cycles: c.cycles + 6, at_zero: c.at_zero || at_zero, ..c }
    }

    /// Set stall bucket `b` of the scan `s` to `v`.
    fn bump_bucket(&mut self, Ghost(g): Ghost<GpuView>, Ghost(s): Ghost<SpriteScan>, b: usize, v: u8)
        requires
            old(self)@ == g.with_scan(s),
            b < s.buckets.len(),
        ensures
            final(self)@ == g.with_scan(SpriteScan { buckets: s.buckets.update(b as int, v), ..s }),
    {
        self.set_bucket(b, v);
    }

    /// Process OAM entry `i` in the sprite pass.
    fn scan_sprite(
        &mut self,
        Ghost(g): Ghost<GpuView>,
        Ghost(s): Ghost<SpriteScan>,
        i: usize,
        c: SpriteCounters,
    ) -> (r: SpriteCounters)
        requires
            g.renderable(),
            i < 40,
            old(self)@ == g.with_scan(s),
            counts(s, c),
            g.scan_ok(s),
        ensures
            final(self)@ == g.with_scan(g.sprite_scanned(s, i as int)),
            counts(g.sprite_scanned(s, i as int), r),
            g.scan_ok(g.sprite_scanned(s, i as int)),
    {
        if c.full {
            return c;
        }
        let ly = self.ly as i16;
        let sprite_y = (self.oam[i * 4] as i16) - 16;
        let sz: i16 = if self.sprite_16 { 16 } else { 8 };
        if !((sprite_y <= ly) && (sprite_y + sz) > ly) {
            return c;
        }
        // A maximum of 10 drawn sprites per line are allowed
        if c.drawn >= 10 {
            return SpriteCounters { full: true, ..c };
        }
        let attr = self.oam[i * 4 + 3];
        // Row within the sprite (applying y-mirroring)
        let mut tile_y: u8 = (ly - sprite_y) as u8;
        if bits::test(attr, 6) {
            tile_y = (sz as u8) - 1 - tile_y;
        }
        // 8x16 sprites: the upper or the lower tile of the pair
        let t: u8 = self.oam[i * 4 + 2];
        let mut tile: u8 = t;
        if sz == 16 {
            if tile_y < 8 {
                tile = t & 0xFE;
            } else {
                tile_y -= 8;
                tile = t | 1;
            }
        }
        let mut rendered = false;
        for x in 0..8u8
            invariant
                g.renderable(),
                i < 40,
                g.scan_ok(s),
                tile as int == g.sprite_tile(i as int),
                tile_y as int == g.sprite_tile_row(i as int),
                tile_y < 8,
                self@ == g.with_scan(g.sprite_columns(s, i as int, x as nat).0),
                rendered == g.sprite_columns(s, i as int, x as nat).1,
        {
            proof {
                lemma_columns_frame(g, s, i as int, x as nat);
            }
            let r = self.sprite_column(
                Ghost(g),
                Ghost(g.sprite_columns(s, i as int, x as nat).0),
                i,
                x,
                tile as usize,
                tile_y,
            );
            rendered = rendered || r;
        }
        proof {
            lemma_columns_frame(g, s, i as int, 8);
        }
        if !rendered {
            return c;
        }
        let ghost s1 = g.sprite_columns(s, i as int, 8).0;
        let c2 = self.time_sprite(Ghost(g), Ghost(s1), i, c);
        proof {
            lemma_sum_nonneg(g.sprite_timed(s1, i as int).buckets);
        }
        SpriteCounters { drawn: c2.drawn + 1, ..c2 }
    }

    /// Render Sprites (for Scanline); returns the T-cycles they add to mode 3.
    fn render_sprites(&mut self) -> (cycles: u32)
        requires
            old(self)@.renderable(),
        ensures
            final(self)@ == old(self)@.sprites_rendered(),
            final(self)@.renderable(),
            cycles == old(self)@.sprite_cycles(),
            cycles <= 124,
    {
        let ghost g = self@;
        let n_buckets: usize = (168 + self.scx as usize + 7) / 8;
        self.reset_buckets(n_buckets);
        let mut c = SpriteCounters { cycles: (self.scx % 8) as u32, at_zero: false, drawn: 0, full: false };
        proof {
            lemma_sum_zeros(n_buckets as nat);
        }
        for i in 0..40usize
            invariant
                g.renderable(),
                self@ == g.with_scan(g.sprites_scanned(i as nat)),
                counts(g.sprites_scanned(i as nat), c),
                g.scan_ok(g.sprites_scanned(i as nat)),
        {
            c = self.scan_sprite(Ghost(g), Ghost(g.sprites_scanned(i as nat)), i, c);
        }
        let ghost fin = g.sprites_scanned(40);
        // Sum the 8-pixel bucket stalls
        let mut total: u32 = c.cycles;
        let n = self.sprite_stall_buckets.len();
        for j in 0..n
            invariant
                n == fin.buckets.len(),
                self@.sprite_stall_buckets == fin.buckets,
                g.scan_ok(fin),
                counts(fin, c),
                total == c.cycles + sum_bytes(fin.buckets.take(j as int)),
        {
            proof {
                lemma_sum_prefix(fin.buckets, j as int + 1);
                lemma_sum_nonneg(fin.buckets.take(j as int));
                assert(fin.buckets.take(j as int + 1).drop_last() =~= fin.buckets.take(j as int));
            }
            total += self.sprite_stall_buckets[j] as u32;
        }
        assert(fin.buckets.take(n as int) =~= fin.buckets);
        // A sprite at x <= 0 stalls for another SCX mod 8
        if c.at_zero {
            total += (self.scx % 8) as u32;
        }
        // Floor T-cycles to the lowest M-cycle
        (total / 4) * 4
    }

    /// Replace the stall buckets with `n` empty ones.
    fn reset_buckets(&mut self, n: usize)
        ensures
            final(self)@ == (GpuView { sprite_stall_buckets: zeros(n as nat), ..old(self)@ }),
    {
        self.sprite_stall_buckets = bits::filled(n, 0);
        assert(self@.sprite_stall_buckets =~= zeros(n as nat));
    }

    /// Start mode 3: clear the caches and set the base length of mode 3.
    fn start_mode3(&mut self)
        ensures
            final(self)@ == (GpuView {
                m3_cycles: m3_base(old(self)@.scx),
                priority_cache: zeros((WIDTH * HEIGHT) as nat),
                sprite_x_cache: zeros((WIDTH * HEIGHT) as nat),
                ..old(self)@
            }),
    {
        // The PPU stalls for fine SCX adjustments for up to 2 M-Cycles depending on SCX
        let scx_ = self.scx % 8;
        let m3: u32 = if scx_ == 0 {
            175
        } else if scx_ <= 4 {
            179
        } else {
            183
        };
        self.m3_cycles = m3;
        self.priority_cache = bits::filled(WIDTH * HEIGHT, 0);
        self.sprite_x_cache = bits::filled(WIDTH * HEIGHT, 0);
        assert(self@.priority_cache =~= zeros((WIDTH * HEIGHT) as nat));
        assert(self@.sprite_x_cache =~= zeros((WIDTH * HEIGHT) as nat));
    }

    /// Lengthen mode 3.
    fn add_m3_cycles(&mut self, n: u32)
        requires
            old(self)@.m3_cycles + n <= u32::MAX,
        ensures
            final(self)@ == (GpuView { m3_cycles: (old(self)@.m3_cycles + n) as u32, ..old(self)@ }),
    {
        self.m3_cycles += n;
    }

    /// Render (Scanline)
    pub(super) fn render(&mut self)
        requires
            old(self)@.renderable(),
        ensures
            final(self)@ == old(self)@.rendered(),
            final(self)@.renderable(),
            175 <= final(self)@.m3_cycles <= 338,
    {
        self.start_mode3();
        if self.lcd_enable && self.background_display {
            self.render_background();
        }
        if self.lcd_enable && self.window_enable {
            let c = self.render_window();
            self.add_m3_cycles(c);
        }
        if self.lcd_enable && self.sprite_enable {
            let c = self.render_sprites();
            self.add_m3_cycles(c);
        }
    }
}

} // verus!
