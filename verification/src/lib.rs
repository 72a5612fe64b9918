//! Emulation cores for the Game Boy, the NES 2A03, the GBA ARM7TDMI and CHIP-8,
//! with their register, memory-map and instruction semantics stated as contracts.

pub mod arm;
pub mod ascii;
pub mod bits;
pub mod cart;
pub mod cartridge;
pub mod chip8;
pub mod error;
pub mod frame;
pub mod gb;
pub mod gpu;
pub mod high_ram;
pub mod mmu;
pub mod mode;
pub mod nes;
