//! Verified core of a Nintendo 64 emulator: the register files of the
//! RCP peripherals, the RSP vector unit's data paths, the serial (PIF)
//! JoyBus protocol, texture decoding and the RDP command pipeline.

pub mod bits;
pub mod interrupt;
pub mod memory;
pub mod audio;
pub mod mips_interface;
pub mod dma;
pub mod peripheral;
pub mod rdram;
pub mod rsp;
pub mod rdp;
pub mod video;
pub mod joypad;
pub mod serial;
pub mod header;
pub mod md;
pub mod mips;
pub mod bus;
