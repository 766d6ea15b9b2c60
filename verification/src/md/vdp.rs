//! The VDP's ports: only the status port reads are handled so far.

use crate::memory::Masked;
use vstd::prelude::*;

verus! {

pub struct Vdp {}

impl Vdp {
    pub fn new() -> (r: Self)
        ensures
            r == (Vdp {}),
    {
        Vdp {  }
    }

    /// Reads the VDP status port (0x04 or 0x06 in the port range), which
    /// reports zero.
    pub fn read_register(&self, address: u32) -> (r: u16)
        requires
            address & 0xffff == 0x0004 || address & 0xffff == 0x0006,
        ensures
            r == 0,
    {
        0
    }

    /// Writes to the VDP ports are ignored.
    pub fn write_register(&mut self, _address: u32, _value: Masked)
        ensures
            *final(self) == *old(self),
    {
    }
}

} // verus!
