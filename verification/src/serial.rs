//! The Serial Interface (SI): DMA between RDRAM and PIF RAM, through which
//! the CPU talks to the controllers.

pub mod pif;

use crate::dma::DmaRequest;
use crate::interrupt::{RcpIntType, RcpInterrupt};
use crate::memory::{spec_apply, Masked};
use pif::Pif;
use vstd::prelude::*;

verus! {

/// SI_STATUS bit reporting a pending SI interrupt.
pub const SI_STATUS_INTERRUPT: u32 = 0x1000;

pub struct SerialInterface {
    dram_addr: u32,
    status: u32,
    pif: Pif,
}

/// The value that a read of SI_DRAM_ADDR (0x00) or SI_STATUS (0x18) gives.
pub open spec fn si_read_value(si: SerialInterface, rcp_int: RcpInterrupt, address: u32) -> u32 {
    if address == 0x00 {
        si.spec_dram_addr()
    } else if rcp_int.spec_has(RcpIntType::SI) {
        si.spec_status() | SI_STATUS_INTERRUPT
    } else {
        si.spec_status() & !SI_STATUS_INTERRUPT
    }
}

/// The serial interface after a write of `value` at `address`, and the
/// DMA `r` that the write requests: `o` and `oi` (the interrupt state)
/// before, `n` and `ni` after.
pub open spec fn si_write_post(
    o: SerialInterface,
    n: SerialInterface,
    oi: RcpInterrupt,
    ni: RcpInterrupt,
    address: u32,
    value: Masked,
    r: Option<DmaRequest>,
) -> bool {
    let input = value.value & value.mask;
    &&& address == 0x00 ==> {
        &&& r is None
        &&& n.spec_dram_addr() == spec_apply(value.value, value.mask, o.spec_dram_addr())
        &&& n.spec_pif() == o.spec_pif()
        &&& ni == oi
    }
    &&& address == 0x04 ==> {
        &&& r == Some(
            DmaRequest {
                src: o.spec_dram_addr() & 0x00ff_ffff,
                dst: input & 0x07fc,
                len: 64,
                mode: true,
            },
        )
        &&& n.spec_pif().processed_from(o.spec_pif())
        &&& n.spec_dram_addr() == o.spec_dram_addr()
        &&& ni == oi
    }
    &&& address == 0x10 ==> {
        &&& r == Some(
            DmaRequest {
                src: o.spec_dram_addr() & 0x00ff_ffff,
                dst: input & 0x07fc,
                len: 64,
                mode: false,
            },
        )
        &&& n.spec_pif() == o.spec_pif()
        &&& n.spec_dram_addr() == o.spec_dram_addr()
        &&& ni == oi
    }
    &&& address == 0x18 ==> {
        &&& r is None
        &&& n.spec_pif() == o.spec_pif()
        &&& n.spec_dram_addr() == o.spec_dram_addr()
        &&& ni.cleared_from(oi, RcpIntType::SI)
    }
    &&& n.spec_status() == o.spec_status()
}

impl SerialInterface {
    pub closed spec fn spec_dram_addr(&self) -> u32 {
        self.dram_addr
    }

    pub closed spec fn spec_status(&self) -> u32 {
        self.status
    }

    pub closed spec fn spec_pif(&self) -> Pif {
        self.pif
    }

    pub fn new() -> (r: Self)
        ensures
            r.spec_dram_addr() == 0,
            r.spec_status() == 0,
            r.spec_pif().wf(),
            r.spec_pif().spec_data() == Seq::new(0x800, |i: int| 0u8),
    {
        SerialInterface { dram_addr: 0, status: 0, pif: Pif::new() }
    }

    pub fn pif(&self) -> (r: &Pif)
        ensures
            *r == self.spec_pif(),
    {
        &self.pif
    }

    pub fn pif_mut(&mut self) -> (r: &mut Pif)
        ensures
            *r == old(self).spec_pif(),
            final(self).spec_pif() == *final(r),
            final(self).spec_dram_addr() == old(self).spec_dram_addr(),
            final(self).spec_status() == old(self).spec_status(),
    {
        &mut self.pif
    }

    /// Signals the end of an SI DMA transfer.
    pub fn finish_dma(&mut self, rcp_int: &mut RcpInterrupt)
        ensures
            *final(self) == *old(self),
            final(rcp_int).raised_from(*old(rcp_int), RcpIntType::SI),
    {
        rcp_int.raise(RcpIntType::SI);
    }

    /// Reads SI_DRAM_ADDR (0x00) or SI_STATUS (0x18), whose bit 12 reports
    /// the pending SI interrupt.
    pub fn read_register(&self, rcp_int: &RcpInterrupt, address: u32) -> (r: u32)
        requires
            address == 0x00 || address == 0x18,
        ensures
            address == 0x00 ==> r == self.spec_dram_addr(),
            address == 0x18 ==> r == if rcp_int.spec_has(RcpIntType::SI) {
                self.spec_status() | SI_STATUS_INTERRUPT
            } else {
                self.spec_status() & !SI_STATUS_INTERRUPT
            },
            r == si_read_value(*self, *rcp_int, address),
    {
        if address == 0x00 {
            self.dram_addr
        } else if rcp_int.has(RcpIntType::SI) {
            self.status | SI_STATUS_INTERRUPT
        } else {
            self.status & !SI_STATUS_INTERRUPT
        }
    }

    /// Writes SI_DRAM_ADDR (0x00), SI_PIF_AD_RD64B (0x04: runs the PIF
    /// command program, then requests a 64-byte transfer from PIF RAM to
    /// RDRAM), SI_PIF_AD_WR64B (0x10: requests a transfer from RDRAM to
    /// PIF RAM) or SI_STATUS (0x18: acknowledges the SI interrupt).
    pub fn write_register(&mut self, rcp_int: &mut RcpInterrupt, address: u32, value: Masked) -> (r:
        Option<DmaRequest>)
        requires
            address == 0x00 || address == 0x04 || address == 0x10 || address == 0x18,
            address == 0x04 ==> old(self).spec_pif().wf(),
            address == 0x04 ==> pif::commands_ok(old(self).spec_pif()),
        ensures
            si_write_post(*old(self), *final(self), *old(rcp_int), *final(rcp_int), address, value, r),
    {
        if address == 0x00 {
            self.dram_addr = value.apply(self.dram_addr);
            None
        } else if address == 0x04 {
            self.pif.process();
            Some(
                DmaRequest {
                    src: self.dram_addr & 0x00ff_ffff,
                    dst: value.get() & 0x07fc,
                    len: 64,
                    mode: true,
                },
            )
        } else if address == 0x10 {
            Some(
                DmaRequest {
                    src: self.dram_addr & 0x00ff_ffff,
                    dst: value.get() & 0x07fc,
                    len: 64,
                    mode: false,
                },
            )
        } else {
            rcp_int.clear(RcpIntType::SI);
            None
        }
    }
}

} // verus!
