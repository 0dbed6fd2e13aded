//! The processor: its registers, addressing modes, instructions and the driver
//! that executes them one at a time.

pub mod config;
pub mod cpu;
pub mod isa;
pub mod laws;
pub mod load;
mod addresing;
pub mod execute;
mod instruction;
pub mod model;
mod stack;
mod status;

pub use self::cpu::CPU;
