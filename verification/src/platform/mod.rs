//! What the emulator needs from the machine it runs on.

pub mod framebuffer;
pub mod logging;
