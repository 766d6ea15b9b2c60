//! The instructions that the two MIPS processors share.

pub mod arithmetic;
pub mod misc;
pub mod shift;
pub mod store;
pub mod trap;
