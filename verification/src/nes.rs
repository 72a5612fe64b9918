//! The 2A03 (NES 6502) CPU core: registers, status flags, addressing modes and the effect
//! of each instruction mnemonic.

pub mod addressing;
pub mod arithmetic;
pub mod logical;
pub mod operation;
pub mod state;
pub mod system;
pub mod table;
pub mod transfer;
