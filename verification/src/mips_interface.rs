//! The MIPS Interface (MI): MI_MODE, MI_VERSION and the RCP interrupt
//! status and mask as seen by the CPU.

use crate::interrupt::{rcp_line, RcpIntType, RcpInterrupt};
use crate::memory::{apply_pair_update, pair_update, spec_apply, Masked};
use vstd::prelude::*;

verus! {

pub const MI_VERSION: u32 = 0x0202_0102;

/// MI_MODE bit layout: init length in bits 0-6, init mode in bit 7, EBUS
/// test mode in bit 8, RDRAM register mode in bit 9.
pub struct MipsInterface {
    mode: u32,
}

/// The MI_MODE value after a write whose merged input is `input`.
pub open spec fn mode_after_write(mode: u32, input: u32) -> u32 {
    let m0 = (mode & !0x7fu32) | (input & 0x7f);
    let m1 = if input & 0x0080 != 0 { m0 & !0x80u32 } else { m0 };
    let m2 = if input & 0x0100 != 0 { m1 | 0x80 } else { m1 };
    let m3 = if input & 0x0200 != 0 { m2 & !0x100u32 } else { m2 };
    let m4 = if input & 0x0400 != 0 { m3 | 0x100 } else { m3 };
    let m5 = if input & 0x1000 != 0 { m4 & !0x200u32 } else { m4 };
    if input & 0x2000 != 0 { m5 | 0x200 } else { m5 }
}

/// The value that a read of MI at `address` gives.
pub open spec fn mi_read_value(m: MipsInterface, rcp_int: RcpInterrupt, address: u32) -> u32 {
    let index = (address >> 2) & 3;
    if index == 0 {
        m.spec_mode()
    } else if index == 1 {
        MI_VERSION
    } else if index == 2 {
        rcp_int.spec_status() as u32
    } else {
        rcp_int.spec_mask() as u32
    }
}

/// MI after a write of `value` at `address`: `o` and `oi` (the interrupt
/// state) before, `n` and `ni` after.
pub open spec fn mi_write_post(
    o: MipsInterface,
    n: MipsInterface,
    oi: RcpInterrupt,
    ni: RcpInterrupt,
    address: u32,
    value: Masked,
) -> bool {
    let index = (address >> 2) & 3;
    let input0 = spec_apply(value.value, value.mask, o.spec_mode() & 0x7f);
    let input3 = value.value & value.mask;
    if index == 0 {
        &&& n.spec_mode() == mode_after_write(o.spec_mode(), input0)
        &&& if input0 & 0x0800 != 0 {
            ni.cleared_from(oi, RcpIntType::DP)
        } else {
            ni == oi
        }
    } else if index == 3 {
        &&& n.spec_mode() == o.spec_mode()
        &&& ni.wf()
        &&& ni.spec_mask() == pair_update(oi.spec_mask(), input3, 0, 6)
        &&& ni.spec_status() == oi.spec_status()
        &&& ni.spec_cpu() == rcp_line(oi.spec_cpu(), oi.spec_status(), pair_update(oi.spec_mask(), input3, 0, 6))
    } else {
        n.spec_mode() == o.spec_mode() && ni == oi
    }
}

impl MipsInterface {
    pub closed spec fn spec_mode(&self) -> u32 {
        self.mode
    }

    pub fn new() -> (r: Self)
        ensures
            r.spec_mode() == 0,
    {
        MipsInterface { mode: 0 }
    }

    /// Reads MI_MODE, MI_VERSION, MI_INTR or MI_INTR_MASK, selected by
    /// bits 2-3 of the address.
    pub fn read_u32(&self, rcp_int: &RcpInterrupt, address: u32) -> (r: u32)
        ensures
            (address >> 2) & 3 == 0 ==> r == self.spec_mode(),
            (address >> 2) & 3 == 1 ==> r == MI_VERSION,
            (address >> 2) & 3 == 2 ==> r == rcp_int.spec_status() as u32,
            (address >> 2) & 3 == 3 ==> r == rcp_int.spec_mask() as u32,
            r == mi_read_value(*self, *rcp_int, address),
    {
        let index = (address >> 2) & 3;
        proof {
            crate::bits::lemma_mask_bounds();
        }
        assert(index <= 3);
        if index == 0 {
            self.mode
        } else if index == 1 {
            MI_VERSION
        } else if index == 2 {
            rcp_int.poll() as u32
        } else {
            rcp_int.mask() as u32
        }
    }

    /// Writes MI_MODE (bits 2-3 of the address are 0) or MI_INTR_MASK (3);
    /// MI_VERSION and MI_INTR are read-only. A write to MI_MODE with bit 11
    /// set acknowledges the DP interrupt.
    pub fn write_u32(&mut self, rcp_int: &mut RcpInterrupt, address: u32, value: Masked)
        requires
            old(rcp_int).wf(),
        ensures
            mi_write_post(*old(self), *final(self), *old(rcp_int), *final(rcp_int), address, value),
    {
        let index = (address >> 2) & 3;
        if index == 0 {
            let input = value.apply(self.mode & 0x7f);
            let mut mode = (self.mode & !0x7fu32) | (input & 0x7f);

            if (input & 0x0080) != 0 {
                mode = mode & !0x80u32;
            }
            if (input & 0x0100) != 0 {
                mode = mode | 0x80;
            }
            if (input & 0x0200) != 0 {
                mode = mode & !0x100u32;
            }
            if (input & 0x0400) != 0 {
                mode = mode | 0x100;
            }
            if (input & 0x0800) != 0 {
                rcp_int.clear(RcpIntType::DP);
            }
            if (input & 0x1000) != 0 {
                mode = mode & !0x200u32;
            }
            if (input & 0x2000) != 0 {
                mode = mode | 0x200;
            }
            self.mode = mode;
        } else if index == 3 {
            let input = value.get();
            let mask = apply_pair_update(rcp_int.mask(), input, 0, 6);
            rcp_int.set_mask(mask);
        }
    }
}

} // verus!
