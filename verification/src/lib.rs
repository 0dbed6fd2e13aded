//! A cycle-aware emulator of a 6502-class processor: the register file, the bus
//! that routes addresses to devices, the addressing modes and the instructions.

pub mod bus;
pub mod devices;
pub mod cpu;
pub mod platform;
