# wadatsumi

Emulator cores for several machines, written in Verus: each component's behaviour is
stated as a contract over a mathematical model of its state, and proved.

- `gb` — Game Boy: the LR35902 CPU (`cpu`: opcode decoding, execution over an abstract
  bus, disassembly), the PPU (`gpu`: registers, mode timing, scanline rendering), the APU
  (`apu` and its four channels), the cartridge with its memory bank controllers (`cart`),
  the joypad and the bus that maps them all.
- `gpu`, `cart`, `cartridge`, `mmu`, `high_ram` — a simpler Game Boy LCD controller, a
  ROM-only cartridge, header validation and memory management.
- `nes` — the 2A03 (6502) core: status flags, registers, addressing modes, the
  arithmetic, logical, transfer and system operations, and the opcode table.
- `arm` — the GBA ARM7TDMI: ARM decoding, the THUMB and ARM instructions executed so far,
  and the memory map.
- `chip8` — a CHIP-8 interpreter.

Laws that span several operations (read-after-write of registers and memory, what a
step of the PPU may raise, inverse rotations, the DMA schedule, ...) are public proof
functions named `law_*`, next to the code they speak of.

`tests/` runs the library on concrete values; `app/` is the command-line front-end
(argument parsing, file reading, the keyboard mapping and the frame callback).
