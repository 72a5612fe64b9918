//! ARM7TDMI (GBA) core: instruction decoding, the register file, the memory map and the
//! instructions executed so far.

pub mod decode;
pub mod execute;
pub mod instruction;
pub mod intr;
pub mod memory;
pub mod state;
