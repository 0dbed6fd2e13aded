//! Devices of the BBC Micro.

pub mod paged_rom;
pub mod video_system;
