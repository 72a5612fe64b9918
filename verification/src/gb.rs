//! Game Boy (DMG/CGB) components.

pub mod apu;
pub mod bus;
pub mod cart;
pub mod cpu;
pub mod gpu;
pub mod joypad;
