//! The Mega Drive's video display processor.

pub mod vdp;
