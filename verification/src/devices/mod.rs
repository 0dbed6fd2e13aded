//! Devices that can be put on the bus.

#[allow(non_snake_case)]
pub mod BBCMicro;
pub mod mem;
