//! The Sharp LR35902, the Game Boy CPU: its operands and register file, the decoding of
//! opcodes into operations, and their execution against a bus.

pub mod operands;
pub mod state;
pub mod operations;
pub mod disassembler;
pub mod executor;
pub mod laws;
