//! A CHIP-8 interpreter: 4 KiB of RAM with the program loaded at 0x200, sixteen 8-bit
//! registers V0-VF, and the instructions decoded so far.

use vstd::prelude::*;
use crate::ascii::push_char;
use crate::bits;
use crate::error::{hex_code, hex_code_of};

verus! {

/// Size of RAM.
pub const RAM_SIZE: usize = 0x1000;

/// Where programs are loaded and execution starts.
pub const ENTRY_POINT: usize = 0x200;

/// A 16-bit CHIP-8 opcode.
#[derive(Debug, Clone, Copy, PartialEq, Eq, Structural)]
pub struct Opcode(pub u16);

impl Opcode {
    /// The four hex digits of the opcode, most significant first.
    pub open spec fn digits_spec(self) -> (u8, u8, u8, u8) {
        (
            ((self.0 >> 12u16) & 0xF) as u8,
            ((self.0 >> 8u16) & 0xF) as u8,
            ((self.0 >> 4u16) & 0xF) as u8,
            (self.0 & 0xF) as u8,
        )
    }

    /// Each digit is below 16.
    pub proof fn lemma_digits_bounds(self)
        ensures
            self.digits_spec().0 < 16,
            self.digits_spec().1 < 16,
            self.digits_spec().2 < 16,
            self.digits_spec().3 < 16,
    {
        let op = self.0;
        assert((op >> 12u16) & 0xF < 16 && (op >> 8u16) & 0xF < 16 && (op >> 4u16) & 0xF < 16 && op & 0xF < 16) by (bit_vector);
    }

    /// The four hex digits of the opcode, most significant first.
    pub fn digits(self) -> (r: (u8, u8, u8, u8))
        ensures
            r == self.digits_spec(),
            r.0 < 16 && r.1 < 16 && r.2 < 16 && r.3 < 16,
    {
        let op = self.0;
        proof {
            self.lemma_digits_bounds();
        }
        (((op >> 12) & 0xF) as u8, ((op >> 8) & 0xF) as u8, ((op >> 4) & 0xF) as u8, (op & 0xF) as u8)
    }

    /// The low 12 bits: an address.
    pub fn nnn(self) -> (r: u16)
        ensures
            r == self.0 & 0xFFF,
    {
        self.0 & 0xFFF
    }

    /// The low byte: an immediate value.
    pub fn kk(self) -> (r: u8)
        ensures
            r == (self.0 & 0xFF) as u8,
    {
        (self.0 & 0xFF) as u8
    }

    /// Read the big-endian opcode at `pc` and advance `pc` past it.
    pub fn fetch(ram: &Vec<u8>, pc: &mut usize) -> (r: Opcode)
        requires
            *old(pc) + 1 < ram.len(),
        ensures
            r.0 == ram@[*old(pc) as int] as u16 * 256 + ram@[*old(pc) + 1],
            *final(pc) == *old(pc) + 2,
    {
        let hi = ram[*pc] as u16;
        let lo = ram[*pc + 1] as u16;
        *pc = *pc + 2;
        Opcode(hi * 256 + lo)
    }
}

/// A decoded CHIP-8 instruction.
#[derive(Debug, Clone, Copy, PartialEq, Eq, Structural)]
pub enum Instruction {
    /// Clear the display (`00E0`).
    ClearScreen,
    /// Return from a subroutine (`00EE`).
    Return,
    /// Jump to location `nnn` (`1nnn`).
    Jump { nnn: u16 },
    /// Call the subroutine at `nnn` (`2nnn`).
    Call { nnn: u16 },
    /// Skip next instruction if `Vx` is equal to `kk` (`3xkk`).
    SkipIfEqualToValue { x: u8, kk: u8 },
    /// Skip next instruction if `Vx` is not equal to `kk` (`4xkk`).
    SkipIfNotEqualToValue { x: u8, kk: u8 },
    /// Skip next instruction if `Vx` is equal to `Vy` (`5xy0`).
    SkipIfEqualToRegister { x: u8, y: u8 },
    /// Skip next instruction if `Vx` is not equal to `Vy` (`9xy0`).
    SkipIfNotEqualToRegister { x: u8, y: u8 },
    /// Puts the value `kk` into the register `Vx` (`6xkk`).
    LoadRegister { x: u8, kk: u8 },
    /// Sets `Vx` to the result of `Vx` and `kk` (`7xkk`).
    AddValue { x: u8, kk: u8 },
    /// Puts the value of register `Vy` into the register `Vx` (`8xy0`).
    CopyRegister { x: u8, y: u8 },
    /// Sets `Vx` to the bitwise OR of `Vx` and `Vy` (`8xy1`).
    Or { x: u8, y: u8 },
    /// Sets `Vx` to the bitwise AND of `Vx` and `Vy` (`8xy2`).
    And { x: u8, y: u8 },
    /// Sets `Vx` to the bitwise exclusive OR of `Vx` and `Vy` (`8xy3`).
    Xor { x: u8, y: u8 },
    /// Sets `Vx` to the result of adding `Vx` and `Vy` together (`8xy4`).
    Add { x: u8, y: u8 },
    /// Sets `Vx` to the result of subtracting `Vy` from `Vx` (`8xy5`).
    Subtract { x: u8, y: u8 },
    /// Sets `Vx` to the result of subtracting `Vx` from `Vy` (`8xy7`).
    SubtractFrom { x: u8, y: u8 },
    /// Divides `Vx` by 2 (`8x_6`).
    ShiftRight { x: u8 },
    /// Multiples `Vx` by 2 (`8x_E`).
    ShiftLeft { x: u8 },
    /// Sets the Index (I) register to the value `nnn` (`Annn`).
    LoadIndex { nnn: u16 },
    /// Jump to location `nnn` offset by `V0` (`Bnnn`).
    JumpWithOffset { nnn: u16 },
    /// Sets `Vx` to the bitwise AND of a random number from 0 to 255 and `kk` (`Cxkk`).
    Random { x: u8, kk: u8 },
    /// Draw (`Dxyn`).
    Draw { x: u8, y: u8, n: u8 },
}

/// The error of decoding an opcode that is not (yet) understood.
#[derive(Debug, Clone, Copy, PartialEq, Eq, Structural)]
pub struct UnknownOpcode(pub Opcode);

/// The instruction an opcode encodes, or `None` when it is not one of those understood:
/// 00E0, 00EE, 1nnn, 2nnn, 3xkk, 4xkk, 5xy_, 6xkk, 7xkk and 8xy5.
pub open spec fn decoded(op: Opcode) -> Option<Instruction> {
    let (a, x, y, n) = op.digits_spec();
    let nnn = op.0 & 0xFFF;
    let kk = (op.0 & 0xFF) as u8;
    if a == 0 && x == 0 && y == 0xE && n == 0 {
        Some(Instruction::ClearScreen)
    } else if a == 0 && x == 0 && y == 0xE && n == 0xE {
        Some(Instruction::Return)
    } else if a == 1 {
        Some(Instruction::Jump { nnn })
    } else if a == 2 {
        Some(Instruction::Call { nnn })
    } else if a == 3 {
        Some(Instruction::SkipIfEqualToValue { x, kk })
    } else if a == 4 {
        Some(Instruction::SkipIfNotEqualToValue { x, kk })
    } else if a == 5 {
        Some(Instruction::SkipIfEqualToRegister { x, y })
    } else if a == 6 {
        Some(Instruction::LoadRegister { x, kk })
    } else if a == 7 {
        Some(Instruction::AddValue { x, kk })
    } else if a == 8 && n == 5 {
        Some(Instruction::Subtract { x, y })
    } else {
        None
    }
}

impl Instruction {
    /// Decode an opcode.
    pub fn decode(opcode: Opcode) -> (r: Result<Instruction, UnknownOpcode>)
        ensures
            decoded(opcode) is Some ==> r == Ok::<Instruction, UnknownOpcode>(decoded(opcode).unwrap()),
            decoded(opcode) is None ==> r == Err::<Instruction, UnknownOpcode>(UnknownOpcode(opcode)),
    {
        let (a, x, y, n) = opcode.digits();
        if a == 0 && x == 0 && y == 0xE && n == 0 {
            Ok(Instruction::ClearScreen)
        } else if a == 0 && x == 0 && y == 0xE && n == 0xE {
            Ok(Instruction::Return)
        } else if a == 1 {
            Ok(Instruction::Jump { nnn: opcode.nnn() })
        } else if a == 2 {
            Ok(Instruction::Call { nnn: opcode.nnn() })
        } else if a == 3 {
            Ok(Instruction::SkipIfEqualToValue { x, kk: opcode.kk() })
        } else if a == 4 {
            Ok(Instruction::SkipIfNotEqualToValue { x, kk: opcode.kk() })
        } else if a == 5 {
            Ok(Instruction::SkipIfEqualToRegister { x, y })
        } else if a == 6 {
            Ok(Instruction::LoadRegister { x, kk: opcode.kk() })
        } else if a == 7 {
            Ok(Instruction::AddValue { x, kk: opcode.kk() })
        } else if a == 8 && n == 5 {
            Ok(Instruction::Subtract { x, y })
        } else {
            Err(UnknownOpcode(opcode))
        }
    }
}

/// `v` in upper-case hex without leading zeros.
pub open spec fn hex_text(v: u16) -> Seq<char> {
    let d = |n: u16| hex_code((n % 16) as u8) as char;
    if v >= 0x1000 {
        seq![d(v / 0x1000), d(v / 0x100), d(v / 0x10), d(v)]
    } else if v >= 0x100 {
        seq![d(v / 0x100), d(v / 0x10), d(v)]
    } else if v >= 0x10 {
        seq![d(v / 0x10), d(v)]
    } else {
        seq![d(v)]
    }
}

/// Whether an instruction has a listing: the ones `decode` produces but `Subtract`.
pub open spec fn listed(i: Instruction) -> bool {
    match i {
        Instruction::ClearScreen | Instruction::Return | Instruction::Jump { .. } | Instruction::Call { .. }
        | Instruction::SkipIfEqualToValue { .. } | Instruction::SkipIfNotEqualToValue { .. }
        | Instruction::SkipIfEqualToRegister { .. } | Instruction::LoadRegister { .. }
        | Instruction::AddValue { .. } => true,
        _ => false,
    }
}

/// The listing of an instruction, e.g. `LD VA, 2F`: mnemonic and operands in hex.
pub open spec fn text_of(i: Instruction) -> Seq<char> {
    match i {
        Instruction::ClearScreen => seq!['C', 'L', 'S'],
        Instruction::Return => seq!['R', 'E', 'T'],
        Instruction::Jump { nnn } => seq!['J', 'P', ' '] + hex_text(nnn),
        Instruction::Call { nnn } => seq!['C', 'A', 'L', 'L', ' '] + hex_text(nnn),
        Instruction::SkipIfEqualToValue { x, kk } => seq!['S', 'E', ' ', 'V'] + hex_text(x as u16) + seq![' ']
            + hex_text(kk as u16),
        Instruction::SkipIfNotEqualToValue { x, kk } => seq!['S', 'N', 'E', ' ', 'V'] + hex_text(x as u16) + seq![
            ' ',
        ] + hex_text(kk as u16),
        Instruction::SkipIfEqualToRegister { x, y } => seq!['S', 'E', ' ', 'V'] + hex_text(x as u16) + seq![
            ' ',
            'V',
        ] + hex_text(y as u16),
        Instruction::LoadRegister { x, kk } => seq!['L', 'D', ' ', 'V'] + hex_text(x as u16) + seq![',', ' ']
            + hex_text(kk as u16),
        Instruction::AddValue { x, kk } => seq!['A', 'D', 'D', ' ', 'V'] + hex_text(x as u16) + seq![',', ' ']
            + hex_text(kk as u16),
        _ => Seq::empty(),
    }
}

/// Append the characters of `text` (ASCII codes).
fn push_all(s: &mut String, text: &[u8])
    requires
        forall|i: int| 0 <= i < text@.len() ==> text@[i] < 0x80,
    ensures
        final(s)@ == old(s)@ + text@.map_values(|b: u8| b as char),
{
    let mut i: usize = 0;
    while i < text.len()
        invariant
            i <= text@.len(),
            forall|k: int| 0 <= k < text@.len() ==> text@[k] < 0x80,
            s@ == old(s)@ + text@.take(i as int).map_values(|b: u8| b as char),
        decreases text@.len() - i,
    {
        push_char(s, text[i]);
        i += 1;
        assert(text@.take(i as int).map_values(|b: u8| b as char) =~= text@.take(i - 1).map_values(
            |b: u8| b as char,
        ).push(text@[i - 1] as char));
    }
    assert(text@.take(text@.len() as int) =~= text@);
}

/// Append `v` in hex without leading zeros.
fn push_hex(s: &mut String, v: u16)
    ensures
        final(s)@ == old(s)@ + hex_text(v),
{
    if v >= 0x1000 {
        push_char(s, hex_code_of(((v / 0x1000) % 16) as u8));
    }
    if v >= 0x100 {
        push_char(s, hex_code_of(((v / 0x100) % 16) as u8));
    }
    if v >= 0x10 {
        push_char(s, hex_code_of(((v / 0x10) % 16) as u8));
    }
    push_char(s, hex_code_of((v % 16) as u8));
    assert(final(s)@ =~= old(s)@ + hex_text(v));
}

impl Instruction {
    /// The listing of the instruction (see `text_of`).
    pub fn to_text(&self) -> (s: String)
        requires
            listed(*self),
        ensures
            s@ == text_of(*self),
    {
        let mut s = String::new();
        match *self {
            Instruction::ClearScreen => push_all(&mut s, &[0x43, 0x4C, 0x53]),
            Instruction::Return => push_all(&mut s, &[0x52, 0x45, 0x54]),
            Instruction::Jump { nnn } => {
                push_all(&mut s, &[0x4A, 0x50, 0x20]);
                push_hex(&mut s, nnn);
            },
            Instruction::Call { nnn } => {
                push_all(&mut s, &[0x43, 0x41, 0x4C, 0x4C, 0x20]);
                push_hex(&mut s, nnn);
            },
            Instruction::SkipIfEqualToValue { x, kk } => {
                push_all(&mut s, &[0x53, 0x45, 0x20, 0x56]);
                push_hex(&mut s, x as u16);
                push_all(&mut s, &[0x20]);
                push_hex(&mut s, kk as u16);
            },
            Instruction::SkipIfNotEqualToValue { x, kk } => {
                push_all(&mut s, &[0x53, 0x4E, 0x45, 0x20, 0x56]);
                push_hex(&mut s, x as u16);
                push_all(&mut s, &[0x20]);
                push_hex(&mut s, kk as u16);
            },
            Instruction::SkipIfEqualToRegister { x, y } => {
                push_all(&mut s, &[0x53, 0x45, 0x20, 0x56]);
                push_hex(&mut s, x as u16);
                push_all(&mut s, &[0x20, 0x56]);
                push_hex(&mut s, y as u16);
            },
            Instruction::LoadRegister { x, kk } => {
                push_all(&mut s, &[0x4C, 0x44, 0x20, 0x56]);
                push_hex(&mut s, x as u16);
                push_all(&mut s, &[0x2C, 0x20]);
                push_hex(&mut s, kk as u16);
            },
            Instruction::AddValue { x, kk } => {
                push_all(&mut s, &[0x41, 0x44, 0x44, 0x20, 0x56]);
                push_hex(&mut s, x as u16);
                push_all(&mut s, &[0x2C, 0x20]);
                push_hex(&mut s, kk as u16);
            },
            _ => {},
        }
        s
    }
}

pub struct Chip8 {
    /// A copy of the ROM, used to quickly reset the state.
    rom: Vec<u8>,
    /// CHIP-8 has direct access to up to 4 kB of RAM.
    ram: Vec<u8>,
    /// A program counter (PC) which points at the current instruction in memory.
    pc: usize,
    /// CHIP-8 has 16 8-bit general-purpose variable registers called `V0` through `VF`.
    v: [u8; 0x10],
    /// The return addresses of the subroutines being run, the innermost last; the stack
    /// pointer (SP) is its length.
    stack: Vec<u16>,
}

/// The machine as values.
pub struct Chip8View {
    pub rom: Seq<u8>,
    pub ram: Seq<u8>,
    pub pc: usize,
    pub v: Seq<u8>,
    pub stack: Seq<u16>,
}

impl View for Chip8 {
    type V = Chip8View;

    closed spec fn view(&self) -> Chip8View {
        Chip8View { rom: self.rom@, ram: self.ram@, pc: self.pc, v: self.v@, stack: self.stack@ }
    }
}

impl Chip8View {
    /// RAM is 4 KiB and there are sixteen registers.
    pub open spec fn wf(self) -> bool {
        self.ram.len() == RAM_SIZE && self.v.len() == 16
    }

    /// RAM after a reset: the ROM at the entry point, zero elsewhere.
    pub open spec fn ram_with_rom(rom: Seq<u8>) -> Seq<u8> {
        Seq::new(
            RAM_SIZE as nat,
            |i: int| if ENTRY_POINT <= i < ENTRY_POINT + rom.len() { rom[i - ENTRY_POINT] } else { 0u8 },
        )
    }

    /// The opcode at PC.
    pub open spec fn opcode(self) -> Opcode {
        Opcode((self.ram[self.pc as int] as u16 * 256 + self.ram[self.pc + 1]) as u16)
    }

    /// Whether `step` can run: the opcode at PC lies in RAM, and it is neither a return
    /// with no subroutine running nor an `ADD Vx, kk` that overflows.
    pub open spec fn step_ok(self) -> bool {
        &&& self.pc + 1 < RAM_SIZE
        &&& match decoded(self.opcode()) {
            Some(Instruction::Return) => self.stack.len() > 0,
            Some(Instruction::AddValue { x, kk }) => self.v[x as int] + kk <= 255,
            _ => true,
        }
    }

    /// The state after `step`: the opcode at PC is fetched (PC + 2) and carried out, a skip
    /// adding 2 more to PC, a jump setting PC to `nnn`, a call pushing PC (past the call)
    /// and jumping, a return popping PC, a subtraction leaving `Vx - Vy` (modulo 256) in
    /// `Vx`; an opcode that does not decode is an error, after the fetch.
    pub open spec fn stepped(self) -> (Chip8View, Result<(), UnknownOpcode>) {
        let op = self.opcode();
        let s = Chip8View { pc: (self.pc + 2) as usize, ..self };
        match decoded(op) {
            None => (s, Err(UnknownOpcode(op))),
            Some(Instruction::LoadRegister { x, kk }) => (Chip8View { v: s.v.update(x as int, kk), ..s }, Ok(())),
            Some(Instruction::Jump { nnn }) => (Chip8View { pc: nnn as usize, ..s }, Ok(())),
            Some(Instruction::Call { nnn }) => (
                Chip8View { pc: nnn as usize, stack: s.stack.push(s.pc as u16), ..s },
                Ok(()),
            ),
            Some(Instruction::Return) => (
                Chip8View { pc: s.stack.last() as usize, stack: s.stack.drop_last(), ..s },
                Ok(()),
            ),
            Some(Instruction::Subtract { x, y }) => (
                Chip8View { v: s.v.update(x as int, s.v[x as int].wrapping_sub(s.v[y as int])), ..s },
                Ok(()),
            ),
            Some(Instruction::AddValue { x, kk }) => (
                Chip8View { v: s.v.update(x as int, (s.v[x as int] + kk) as u8), ..s },
                Ok(()),
            ),
            Some(Instruction::SkipIfEqualToValue { x, kk }) => (
                if s.v[x as int] == kk { Chip8View { pc: (s.pc + 2) as usize, ..s } } else { s },
                Ok(()),
            ),
            Some(Instruction::SkipIfNotEqualToValue { x, kk }) => (
                if s.v[x as int] != kk { Chip8View { pc: (s.pc + 2) as usize, ..s } } else { s },
                Ok(()),
            ),
            Some(Instruction::SkipIfEqualToRegister { x, y }) => (
                if s.v[x as int] == s.v[y as int] { Chip8View { pc: (s.pc + 2) as usize, ..s } } else { s },
                Ok(()),
            ),
            _ => (s, Ok(())),
        }
    }
}

impl Chip8 {
    /// A machine with no program: registers and RAM clear, PC at the entry point.
    pub fn new() -> (c: Self)
        ensures
            c@ == (Chip8View {
                rom: Seq::empty(),
                ram: Seq::new(RAM_SIZE as nat, |i: int| 0u8),
                pc: ENTRY_POINT,
                v: Seq::new(16, |i: int| 0u8),
                stack: Seq::empty(),
            }),
    {
        let c = Chip8 {
            v: [0; 0x10],
            pc: ENTRY_POINT,
            rom: Vec::new(),
            ram: bits::filled(RAM_SIZE, 0),
            stack: Vec::new(),
        };
        assert(c@.v =~= Seq::new(16, |i: int| 0u8));
        c
    }

    /// The program counter.
    pub fn pc(&self) -> (r: usize)
        ensures
            r == self@.pc,
    {
        self.pc
    }

    /// Register `Vx`.
    pub fn register(&self, x: usize) -> (r: u8)
        requires
            x < 16,
        ensures
            r == self@.v[x as int],
    {
        self.v[x]
    }

    /// Load a program (the bytes of a ROM file) and reset.
    pub fn load(&mut self, rom: Vec<u8>)
        requires
            rom.len() <= RAM_SIZE - ENTRY_POINT,
        ensures
            final(self)@ == (Chip8View {
                rom: rom@,
                ram: Chip8View::ram_with_rom(rom@),
                pc: ENTRY_POINT,
                v: Seq::new(16, |i: int| 0u8),
                stack: Seq::empty(),
            }),
    {
        self.rom = rom;
        self.reset();
    }

    /// Clear the registers and RAM, copy the ROM to the entry point and start there.
    pub fn reset(&mut self)
        requires
            old(self)@.rom.len() <= RAM_SIZE - ENTRY_POINT,
        ensures
            final(self)@ == (Chip8View {
                rom: old(self)@.rom,
                ram: Chip8View::ram_with_rom(old(self)@.rom),
                pc: ENTRY_POINT,
                v: Seq::new(16, |i: int| 0u8),
                stack: Seq::empty(),
            }),
    {
        self.v = [0; 0x10];
        self.stack = Vec::new();
        self.pc = ENTRY_POINT;
        let mut ram = bits::filled(RAM_SIZE, 0);
        let n = self.rom.len();
        let mut i: usize = 0;
        while i < n
            invariant
                n == self.rom@.len(),
                n <= RAM_SIZE - ENTRY_POINT,
                i <= n,
                ram@.len() == RAM_SIZE,
                forall|k: int|
                    0 <= k < RAM_SIZE ==> #[trigger] ram@[k] == if ENTRY_POINT <= k < ENTRY_POINT + i {
                        self.rom@[k - ENTRY_POINT]
                    } else {
                        0u8
                    },
            decreases n - i,
        {
            ram.set(ENTRY_POINT + i, self.rom[i]);
            i += 1;
        }
        self.ram = ram;
        assert(self@.ram =~= Chip8View::ram_with_rom(self@.rom));
        assert(self@.v =~= Seq::new(16, |i: int| 0u8));
    }

    /// Whether `step` can run (see `step_ok`): the opcode at PC is in RAM and is neither a
    /// return with no subroutine running nor an `ADD Vx, kk` that overflows.
    pub fn can_step(&self) -> (r: bool)
        ensures
            r == (self@.wf() && self@.step_ok()),
    {
        if self.ram.len() != RAM_SIZE || self.pc >= RAM_SIZE - 1 {
            return false;
        }
        let mut pc = self.pc;
        let opcode = Opcode::fetch(&self.ram, &mut pc);
        proof {
            opcode.lemma_digits_bounds();
        }
        match Instruction::decode(opcode) {
            Ok(Instruction::Return) => self.stack.len() > 0,
            Ok(Instruction::AddValue { x, kk }) => self.v[x as usize] as u16 + kk as u16 <= 255,
            _ => true,
        }
    }

    /// Fetch, decode and carry out the instruction at PC.
    pub fn step(&mut self) -> (r: Result<(), UnknownOpcode>)
        requires
            old(self)@.wf(),
            old(self)@.step_ok(),
        ensures
            (final(self)@, r) == old(self)@.stepped(),
            final(self)@.wf(),
    {
        let opcode = Opcode::fetch(&self.ram, &mut self.pc);
        proof {
            opcode.lemma_digits_bounds();
        }
        let instr = match Instruction::decode(opcode) {
            Ok(i) => i,
            Err(e) => {
                return Err(e);
            },
        };
        match instr {
            Instruction::LoadRegister { x, kk } => {
                self.v[x as usize] = kk;
            },
            Instruction::AddValue { x, kk } => {
                self.v[x as usize] += kk;
            },
            Instruction::SkipIfEqualToValue { x, kk } => {
                if self.v[x as usize] == kk {
                    self.pc += 2;
                }
            },
            Instruction::SkipIfNotEqualToValue { x, kk } => {
                if self.v[x as usize] != kk {
                    self.pc += 2;
                }
            },
            Instruction::SkipIfEqualToRegister { x, y } => {
                if self.v[x as usize] == self.v[y as usize] {
                    self.pc += 2;
                }
            },
            Instruction::Jump { nnn } => {
                self.pc = nnn as usize;
            },
            Instruction::Call { nnn } => {
                self.stack.push(self.pc as u16);
                self.pc = nnn as usize;
            },
            Instruction::Return => {
                let top = self.stack.pop().unwrap();
                self.pc = top as usize;
            },
            Instruction::Subtract { x, y } => {
                self.v[x as usize] = self.v[x as usize].wrapping_sub(self.v[y as usize]);
            },
            _ => {},
        }
        Ok(())
    }
}

/// What one step does with the instruction at PC, PC then pointing past it (PC + 2):
/// `SE Vx, kk` skips the next instruction (PC + 4) exactly when Vx equals kk, `SNE Vx, kk`
/// exactly when it differs, `SE Vx, Vy` exactly when Vx equals Vy; `JP nnn` goes to nnn,
/// `CALL nnn` goes to nnn with PC + 2 pushed, `RET` goes to the address it pops; `LD Vx, kk`
/// puts kk in Vx, `ADD Vx, kk` adds kk to it and `SUB Vx, Vy` leaves
/// Vx - Vy modulo 256 in Vx. RAM, the ROM and the registers not named
/// stay as they were.
pub proof fn law_step_effects(c: Chip8View)
    requires
        c.wf(),
        c.step_ok(),
    ensures
        ({
            let (c2, r) = c.stepped();
            let next = c.pc + 2;
            &&& c2.ram == c.ram && c2.rom == c.rom
            &&& decoded(c.opcode()) is Some ==> r is Ok
            &&& match decoded(c.opcode()) {
                Some(Instruction::SkipIfEqualToValue { x, kk }) => c2.pc == (if c.v[x as int] == kk {
                    next + 2
                } else {
                    next
                }) && c2.v == c.v && c2.stack == c.stack,
                Some(Instruction::SkipIfNotEqualToValue { x, kk }) => c2.pc == (if c.v[x as int] != kk {
                    next + 2
                } else {
                    next
                }) && c2.v == c.v && c2.stack == c.stack,
                Some(Instruction::SkipIfEqualToRegister { x, y }) => c2.pc == (if c.v[x as int] == c.v[y as int] {
                    next + 2
                } else {
                    next
                }) && c2.v == c.v && c2.stack == c.stack,
                Some(Instruction::Jump { nnn }) => c2.pc == nnn && c2.v == c.v && c2.stack == c.stack,
                Some(Instruction::Call { nnn }) => c2.pc == nnn && c2.v == c.v && c2.stack.len() == c.stack.len() + 1
                    && c2.stack.last() == next && c2.stack.drop_last() == c.stack,
                Some(Instruction::Return) => c2.pc == c.stack.last() && c2.v == c.v && c2.stack
                    == c.stack.drop_last(),
                Some(Instruction::LoadRegister { x, kk }) => c2.pc == next && c2.v[x as int] == kk
                    && c2.stack == c.stack && forall|j: int| 0 <= j < 16 && j != x ==> c2.v[j] == c.v[j],
                Some(Instruction::AddValue { x, kk }) => c2.pc == next && c2.v[x as int] == c.v[x as int]
                    + kk && c2.stack == c.stack && forall|j: int| 0 <= j < 16 && j != x ==> c2.v[j] == c.v[j],
                Some(Instruction::Subtract { x, y }) => c2.pc == next && c2.v[x as int] == (c.v[x as int]
                    - c.v[y as int] + 256) % 256 && c2.stack == c.stack && forall|j: int|
                    0 <= j < 16 && j != x ==> c2.v[j] == c.v[j],
                _ => true,
            }
        }),
{
    c.opcode().lemma_digits_bounds();
}

} // verus!
