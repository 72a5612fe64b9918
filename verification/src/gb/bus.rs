//! The interconnect between the CPU and the other components of the machine: the memory map
//! of the cartridge, PPU, APU, joypad, work and high RAM and the interrupt registers, and
//! the OAM DMA transfer. The timer registers (0xFF04 - 0xFF07) are not mapped by this bus.

use vstd::prelude::*;
use super::apu::{APUView, APU};
use super::cart::Cartridge;
use super::gpu::{GpuView, GPU};
use super::joypad::{Joypad, JoypadView};
use crate::bits;
use crate::mode::Mode;

verus! {

/// The Bus is the interconnect that facilitates communication from the CPU and the various
/// other components in the machine.
#[derive(Default)]
pub struct Bus {
    /// Component: Cartridge (Reader)
    pub cart: Cartridge,
    /// Component: GPU
    pub gpu: GPU,
    /// Component: APU
    pub apu: APU,
    /// Component: Joypad
    pub joypad: Joypad,
    /// [0xC000 - 0xDFFF] Work RAM (WRAM)
    pub wram: Vec<u8>,
    /// [0xFF70] WRAM Bank 0 - 7 (SVBK) — CGB Only
    pub wram_bank: u8,
    /// [0xFF80 - 0xFFFE] High RAM (HRAM) — 127 Bytes
    pub hram: Vec<u8>,
    /// [0xFFFF] Interrupt Enable (IE) R/W
    pub ie: u8,
    /// [0xFF0F] Interrupt Flag (IF) R/W
    pub if_: u8,
    /// [OAM DMA] Source Address for the running OAM DMA
    pub oam_dma_source: u16,
    /// [OAM DMA] Source Address for the next OAM DMA (scheduled by `_delay_timer`)
    pub oam_dma_next_source: u16,
    /// [OAM DMA] Delay (in M-cycles) until the next OAM DMA begins
    pub oam_dma_delay_timer: u8,
    /// [OAM DMA] Index into the running OAM DMA
    pub oam_dma_index: u16,
    /// [OAM DMA] Timer (in M-Cycles) of how long we have left in OAM DMA
    pub oam_dma_timer: u16,
}

/// The OAM DMA state: source, next source, delay, index and remaining length.
pub struct Dma {
    pub source: u16,
    pub next_source: u16,
    pub delay: u8,
    pub index: u16,
    pub timer: u16,
}

/// 0x0000 - 0x7FFF: the external bus of the cartridge ROM.
pub open spec fn in_ext1(a: u16) -> bool {
    a < 0x8000
}

/// 0xA000 - 0xFDFF: the external bus of cartridge RAM and work RAM.
pub open spec fn in_ext2(a: u16) -> bool {
    0xA000 <= a < 0xFE00
}

/// 0x8000 - 0x9FFF: the video RAM bus.
pub open spec fn in_vram_bus(a: u16) -> bool {
    0x8000 <= a < 0xA000
}

/// The cartridge's addresses: ROM and external RAM.
pub open spec fn in_cart(a: u16) -> bool {
    a <= 0x7FFF || 0xA000 <= a <= 0xBFFF
}

/// The PPU's addresses: VRAM, OAM and its registers.
pub open spec fn in_gpu(a: u16) -> bool {
    ||| 0x8000 <= a <= 0x9FFF
    ||| 0xFE00 <= a <= 0xFE9F
    ||| 0xFF40 <= a <= 0xFF45
    ||| 0xFF47 <= a <= 0xFF4F
    ||| 0xFF68 <= a <= 0xFF6B
}

/// Work RAM and its echo.
pub open spec fn in_wram(a: u16) -> bool {
    0xC000 <= a <= 0xFDFF
}

/// The APU's registers and wave RAM.
pub open spec fn in_apu(a: u16) -> bool {
    0xFF10 <= a <= 0xFF3F
}

/// High RAM.
pub open spec fn in_hram(a: u16) -> bool {
    0xFF80 <= a <= 0xFFFE
}

/// The PPU and IF after `n` T-cycles of the PPU.
pub open spec fn gpu_steps(g: GpuView, if_: u8, n: nat) -> (GpuView, u8)
    decreases n,
{
    if n == 0 {
        (g, if_)
    } else {
        let (g1, f1) = gpu_steps(g, if_, (n - 1) as nat);
        let (g2, f2, _) = g1.stepped(f1);
        (g2, f2)
    }
}

/// The index of a work RAM address in the selected bank.
pub open spec fn wram_index(a: u16, bank: u8) -> int {
    (a & 0x1FFF) + bank * 0x2000
}

impl Bus {
    /// The OAM DMA state.
    pub open spec fn dma(&self) -> Dma {
        Dma {
            source: self.oam_dma_source,
            next_source: self.oam_dma_next_source,
            delay: self.oam_dma_delay_timer,
            index: self.oam_dma_index,
            timer: self.oam_dma_timer,
        }
    }

    /// The component and RAM sizes after a reset, and a DMA transfer within OAM.
    pub open spec fn wf(&self) -> bool {
        &&& self.gpu@.wf()
        &&& self.wram@.len() == 32 * 1024
        &&& self.wram_bank <= 3
        &&& self.hram@.len() == 127
        &&& self.apu@.ch3.wave_ram.len() == 16
        &&& self.dma().source <= 0xFF00
        &&& self.dma().next_source <= 0xFF00
        &&& self.dma().index + self.dma().timer <= 160
    }

    /// The address a CPU read of `address` accesses: during OAM DMA, a read on the bus
    /// the DMA is using sees the byte the DMA just read.
    pub open spec fn effective(&self, address: u16) -> u16 {
        let src = self.dma().source;
        if self.dma().timer > 0 && ((in_ext1(src) && in_ext1(address)) || (in_ext2(src) && in_ext2(address))
            || (in_vram_bus(src) && in_vram_bus(address))) {
            (src + self.dma().index) as u16
        } else {
            address
        }
    }

    /// The byte at `a` of the memory map (without the DMA redirection).
    pub open spec fn mapped(&self, a: u16) -> u8 {
        if in_cart(a) {
            self.cart.read_spec(a)
        } else if in_gpu(a) {
            self.gpu@.read_spec(a, self.dma().timer != 0)
        } else if in_wram(a) {
            self.wram@[wram_index(a, self.wram_bank)]
        } else if a == 0xFF00 {
            self.joypad@.read_spec(a)
        } else if a == 0xFF01 {
            0
        } else if a == 0xFF02 {
            0x7E
        } else if in_apu(a) {
            self.apu@.read_spec(a)
        } else if in_hram(a) {
            self.hram@[a - 0xFF80]
        } else if a == 0xFF0F {
            self.if_ | 0xE0
        } else if a == 0xFFFF {
            self.ie
        } else {
            0xFF
        }
    }

    /// The value a CPU read of `address` returns.
    pub open spec fn read_spec(&self, address: u16) -> u8 {
        self.mapped(self.effective(address))
    }

    /// Whether a read of `address` stays within the cartridge's banks.
    pub open spec fn read_ok(&self, address: u16) -> bool {
        self.wf() && self.cart.read_ok(self.effective(address))
    }

    /// Everything but the DMA state, the GPU and IF is as in `other` (what a read keeps, and
    /// what the writes to other components keep).
    pub open spec fn others_kept(&self, other: &Bus) -> bool {
        &&& self.cart == other.cart
        &&& self.apu@ == other.apu@
        &&& self.joypad@ == other.joypad@
        &&& self.wram@ == other.wram@
        &&& self.wram_bank == other.wram_bank
        &&& self.hram@ == other.hram@
        &&& self.ie == other.ie
    }

    /// The byte at an address of the memory map.
    fn read_mapped(&mut self, a: u16) -> (r: u8)
        requires
            old(self).wf(),
            old(self).cart.read_ok(a),
        ensures
            r == old(self).mapped(a),
            final(self).others_kept(&*old(self)),
            final(self).gpu@ == old(self).gpu@,
            final(self).if_ == old(self).if_,
            final(self).dma() == old(self).dma(),
    {
        if a <= 0x7FFF || (0xA000 <= a && a <= 0xBFFF) {
            // Cartridge
            self.cart.read(a)
        } else if (0x8000 <= a && a <= 0x9FFF) || (0xFE00 <= a && a <= 0xFE9F) || (0xFF40 <= a && a <= 0xFF45) || (
        0xFF47 <= a && a <= 0xFF4F) || (0xFF68 <= a && a <= 0xFF6B) {
            // Video RAM, OAM, GPU registers
            self.gpu.read(a, self.oam_dma_timer != 0)
        } else if 0xC000 <= a && a <= 0xFDFF {
            // Work RAM
            proof {
                bits::lemma_and_bound();
            }
            self.wram[((a & 0x1FFF) as usize) + (self.wram_bank as usize) * 0x2000]
        } else if a == 0xFF00 {
            // Joypad
            self.joypad.read(a)
        } else if a == 0xFF01 {
            // Serial Data Transfer (Link Cable): the boot values
            0
        } else if a == 0xFF02 {
            0x7E
        } else if 0xFF10 <= a && a <= 0xFF3F {
            // APU
            self.apu.read(a)
        } else if 0xFF80 <= a && a <= 0xFFFE {
            // High RAM
            self.hram[(a - 0xFF80) as usize]
        } else if a == 0xFF0F {
            // Interrupt Flag (IF)
            self.if_ | 0xE0
        } else if a == 0xFFFF {
            // Interrupt Enable (IE)
            self.ie
        } else {
            // Unhandled
            0xFF
        }
    }

    /// Read
    pub fn read(&mut self, address: u16) -> (r: u8)
        requires
            old(self).read_ok(address),
        ensures
            r == old(self).read_spec(address),
            final(self).others_kept(&*old(self)),
            final(self).gpu@ == old(self).gpu@,
            final(self).if_ == old(self).if_,
            final(self).dma() == old(self).dma(),
    {
        // During an OAM DMA, a CPU access to the bus the DMA is using sees the byte the DMA
        // process just read.
        let mut a = address;
        if self.oam_dma_timer > 0 {
            let src = self.oam_dma_source;
            if (src < 0x8000 && a < 0x8000) || (0xA000 <= src && src < 0xFE00 && 0xA000 <= a && a < 0xFE00) || (
            0x8000 <= src && src < 0xA000 && 0x8000 <= a && a < 0xA000) {
                a = self.oam_dma_source + self.oam_dma_index;
            }
        }
        self.read_mapped(a)
    }

    /// Whether a write of `value` to `address` is within the components' bounds.
    pub open spec fn write_ok(&self, address: u16, value: u8) -> bool {
        &&& self.wf()
        &&& self.cart.write_ok(address)
        &&& in_apu(address) ==> self.apu@.write_ok(address, value)
    }

    /// Write
    pub fn write(&mut self, address: u16, value: u8)
        requires
            old(self).write_ok(address, value),
        ensures
            final(self).wf(),
            in_cart(address) ==> {
                &&& final(self).cart.banking() == old(self).cart.banking_written(address, value)
                &&& final(self).cart.ram@ == old(self).cart.ram_written(address, value)
                &&& final(self).cart.rom@ == old(self).cart.rom@
                &&& final(self).cart.header() == old(self).cart.header()
                &&& final(self).cart.title@ == old(self).cart.title@
            },
            !in_cart(address) ==> final(self).cart == old(self).cart,
            final(self).gpu@ == if in_gpu(address) {
                old(self).gpu@.written(address, value, old(self).dma().timer != 0)
            } else {
                old(self).gpu@
            },
            final(self).wram@ == if in_wram(address) {
                old(self).wram@.update(wram_index(address, old(self).wram_bank), value)
            } else {
                old(self).wram@
            },
            final(self).joypad@ == old(self).joypad@.written(address, value),
            final(self).apu@ == if in_apu(address) { old(self).apu@.written(address, value) } else { old(self).apu@ },
            final(self).hram@ == if in_hram(address) {
                old(self).hram@.update(address - 0xFF80, value)
            } else {
                old(self).hram@
            },
            final(self).if_ == if address == 0xFF0F { value & !0xE0u8 } else { old(self).if_ },
            final(self).ie == if address == 0xFFFF { value } else { old(self).ie },
            final(self).wram_bank == old(self).wram_bank,
            final(self).dma() == if address == 0xFF46 {
                Dma { next_source: (value * 256) as u16, delay: 2, ..old(self).dma() }
            } else {
                old(self).dma()
            },
    {
        if address <= 0x7FFF || (0xA000 <= address && address <= 0xBFFF) {
            // Cartridge
            self.cart.write(address, value);
        } else if address == 0xFF46 {
            // DMA - DMA Transfer and Start Address (W): the transfer starts after a delay
            self.oam_dma_next_source = (value as u16) * 256;
            self.oam_dma_delay_timer = 2;
        } else if (0x8000 <= address && address <= 0x9FFF) || (0xFE00 <= address && address <= 0xFE9F) || (0xFF40
            <= address && address <= 0xFF45) || (0xFF47 <= address && address <= 0xFF4F) || (0xFF68 <= address
            && address <= 0xFF6B) {
            // Video RAM, OAM, GPU registers
            let in_oam_dma = self.oam_dma_timer != 0;
            self.gpu.write(address, value, in_oam_dma);
        } else if 0xC000 <= address && address <= 0xFDFF {
            // Work RAM
            proof {
                bits::lemma_and_bound();
            }
            let i = ((address & 0x1FFF) as usize) + (self.wram_bank as usize) * 0x2000;
            self.wram.set(i, value);
        } else if address == 0xFF00 {
            // Joypad
            self.joypad.write(address, value);
        } else if 0xFF10 <= address && address <= 0xFF3F {
            // APU
            proof {
                super::apu::lemma_written_keeps_wave_ram_len(self.apu@, address, value);
            }
            self.apu.write(address, value);
        } else if 0xFF80 <= address && address <= 0xFFFE {
            // High RAM
            self.hram.set((address - 0xFF80) as usize, value);
        } else if address == 0xFF0F {
            // Interrupt Flag (IF)
            self.if_ = value & !0xE0;
        } else if address == 0xFFFF {
            // Interrupt Enable (IE)
            self.ie = value;
        }
    }

    /// The byte the running OAM DMA copies this M-cycle: the byte at source + index.
    pub open spec fn dma_byte(&self) -> u8 {
        self.read_spec((self.oam_dma_source + self.oam_dma_index) as u16)
    }

    /// The PPU after this M-cycle's OAM DMA write, if a transfer is running.
    pub open spec fn gpu_after_dma(&self) -> GpuView {
        if self.oam_dma_timer > 0 {
            GpuView { oam: self.gpu@.oam.update(self.oam_dma_index as int, self.dma_byte()), ..self.gpu@ }
        } else {
            self.gpu@
        }
    }

    /// The DMA state after one M-cycle: a running transfer advances by a byte; a scheduled
    /// one counts its delay down and, when it reaches 0, starts 160 bytes from the next
    /// source (replacing a running one).
    pub open spec fn dma_stepped(d: Dma) -> Dma {
        let d1 = if d.timer > 0 {
            Dma { index: (d.index + 1) as u16, timer: (d.timer - 1) as u16, ..d }
        } else {
            d
        };
        if d1.delay == 1 {
            Dma { delay: 0, timer: 160, index: 0, source: d1.next_source, ..d1 }
        } else if d1.delay > 1 {
            Dma { delay: (d1.delay - 1) as u8, ..d1 }
        } else {
            d1
        }
    }

    /// Whether the DMA read of this M-cycle stays within the cartridge's banks.
    pub open spec fn step_ok(&self) -> bool {
        &&& self.wf()
        &&& self.oam_dma_timer > 0 ==> self.cart.read_ok((self.oam_dma_source + self.oam_dma_index) as u16)
    }

    /// Step: one M-cycle of OAM DMA, then four T-cycles of the PPU (the APU has no per-cycle
    /// work yet).
    pub fn step(&mut self)
        requires
            old(self).step_ok(),
        ensures
            final(self).gpu@ == gpu_steps(old(self).gpu_after_dma(), old(self).if_, 4).0,
            final(self).if_ == gpu_steps(old(self).gpu_after_dma(), old(self).if_, 4).1,
            final(self).dma() == Bus::dma_stepped(old(self).dma()),
            final(self).others_kept(&*old(self)),
            final(self).wf(),
    {
        // [OAM DMA] Run next iteration (if active): each M-cycle copies a single byte
        if self.oam_dma_timer > 0 {
            let src = self.oam_dma_source + self.oam_dma_index;
            let r = self.read(src);
            self.gpu.dma_write(self.oam_dma_index, r);
            self.oam_dma_index = self.oam_dma_index + 1;
            self.oam_dma_timer = self.oam_dma_timer - 1;
        }
        // When OAM DMA starts a delay timer is set to 2; the M-cycle of the write that starts
        // it and the one after are wait cycles. A running DMA continues until the next
        // one starts.
        if self.oam_dma_delay_timer > 0 {
            self.oam_dma_delay_timer = self.oam_dma_delay_timer - 1;
            if self.oam_dma_delay_timer == 0 {
                self.oam_dma_timer = 160;
                self.oam_dma_index = 0;
                self.oam_dma_source = self.oam_dma_next_source;
            }
        }
        // The bus is stepped by the CPU each M-cycle and steps the components 4 T-cycles
        let ghost g0 = self.gpu@;
        let ghost f0 = self.if_;
        let ghost before = *self;
        let mut i: usize = 0;
        while i < 4
            invariant
                i <= 4,
                self.gpu@.wf(),
                (self.gpu@, self.if_) == gpu_steps(g0, f0, i as nat),
                self.dma() == before.dma(),
                self.others_kept(&before),
            decreases 4 - i,
        {
            self.gpu.step(&mut self.if_);
            self.apu.step();
            i = i + 1;
        }
    }

    /// Reset: IE clear, IF with V-Blank set, 32 KiB of work RAM and high RAM cleared, every
    /// component reset, no OAM DMA.
    pub fn reset(&mut self, mode: Mode)
        requires
            old(self).gpu@.counters_ok(),
            old(self).wram_bank <= 3,
        ensures
            final(self).ie == 0,
            final(self).if_ == 1,
            final(self).wram@ == Seq::new(32 * 1024, |i: int| 0u8),
            final(self).hram@ == Seq::new(127, |i: int| 0u8),
            final(self).wram_bank == old(self).wram_bank,
            final(self).gpu@ == old(self).gpu@.reset_spec(mode),
            final(self).joypad@ == (JoypadView { sel_button: true, sel_direction: true, ..old(self).joypad@ }),
            final(self).cart.rom_bank == 1,
            final(self).cart.ram_bank == 0,
            !final(self).cart.ram_enable,
            final(self).cart.rom@ == old(self).cart.rom@,
            final(self).cart.ram@ == old(self).cart.ram@,
            final(self).apu@.ch3.wave_ram == super::apu::ch3::initial_wave_ram(),
            final(self).dma() == (Dma { source: 0, next_source: 0, delay: 0, index: 0, timer: 0 }),
            final(self).wf(),
    {
        self.ie = 0;
        self.if_ = 0x1;
        self.wram = bits::filled(32 * 1024, 0);
        self.hram = bits::filled(127, 0);
        self.cart.reset();
        self.gpu.reset(mode);
        self.apu.reset();
        self.joypad.reset();
        self.oam_dma_source = 0;
        self.oam_dma_next_source = 0;
        self.oam_dma_delay_timer = 0;
        self.oam_dma_index = 0;
        self.oam_dma_timer = 0;
    }
}

/// 0xE000 - 0xFDFF mirror what is at 0xC000 - 0xDDFF: outside OAM DMA, a read of the echo
/// gives the byte of work RAM 0x2000 below.
pub proof fn law_wram_echo(b: Bus, k: u16)
    requires
        k < 0x1E00,
        b.dma().timer == 0,
    ensures
        b.read_spec((0xE000 + k) as u16) == b.read_spec((0xC000 + k) as u16),
{
    let e = (0xE000 + k) as u16;
    let c = (0xC000 + k) as u16;
    assert(e & 0x1FFF == c & 0x1FFF) by (bit_vector)
        requires
            e == 0xE000 + k,
            c == 0xC000 + k,
            k < 0x1E00,
    ;
}

/// The unused top three bits of IF always read as 1.
pub proof fn law_if_top_bits_read_set(b: Bus)
    requires
        b.dma().timer == 0,
    ensures
        b.read_spec(0xFF0F) & 0xE0 == 0xE0,
{
    let f = b.if_;
    assert((f | 0xE0u8) & 0xE0u8 == 0xE0u8) by (bit_vector);
}

/// A DMA started by writing 0xFF46 runs after two M-cycles of delay: 160 bytes from the
/// written page.
pub proof fn law_dma_starts_after_delay(d: Dma)
    requires
        d.delay == 2,
        d.timer == 0,
    ensures
        Bus::dma_stepped(Bus::dma_stepped(d)) == (Dma { delay: 0, timer: 160, index: 0, source: d.next_source, ..d }),
{
}

/// A running DMA copies 160 bytes: it stops after as many M-cycles as it has bytes left,
/// when no other transfer is scheduled.
pub proof fn law_dma_runs_down(d: Dma)
    requires
        d.delay == 0,
        d.timer > 0,
        d.index + d.timer <= 160,
    ensures
        Bus::dma_stepped(d).timer == d.timer - 1,
        Bus::dma_stepped(d).index == d.index + 1,
        Bus::dma_stepped(d).source == d.source,
{
}

} // verus!
