//! The Peripheral Interface (PI): DMA between cartridge space and RDRAM.

use crate::dma::DmaRequest;
use crate::interrupt::{RcpIntType, RcpInterrupt};
use crate::memory::{spec_apply, Masked};
use vstd::prelude::*;

verus! {

pub const PI_DRAM_ADDR: usize = 0;
pub const PI_CART_ADDR: usize = 1;
pub const PI_RD_LEN: usize = 2;
pub const PI_WR_LEN: usize = 3;
pub const PI_STATUS: usize = 4;
pub const PI_BSD_DOM1_LAT: usize = 5;
pub const PI_BSD_DOM1_PWD: usize = 6;
pub const PI_BSD_DOM1_PGS: usize = 7;
pub const PI_BSD_DOM1_RLS: usize = 8;

pub struct PeripheralInterface {
    regs: [u32; 13],
}

impl View for PeripheralInterface {
    type V = Seq<u32>;

    closed spec fn view(&self) -> Seq<u32> {
        self.regs@
    }
}

/// The register index that an address selects.
pub open spec fn reg_index(address: u32) -> int {
    (address >> 2) as int
}

/// The value that a read of PI at `address` gives.
pub open spec fn pi_read_value(regs: Seq<u32>, rcp_int: RcpInterrupt, address: u32) -> u32 {
    if reg_index(address) == PI_STATUS {
        if rcp_int.spec_has(RcpIntType::PI) {
            0x08u32
        } else {
            0
        }
    } else {
        regs[reg_index(address)]
    }
}

/// The PI registers after a write of `value` at `address`, and the DMA
/// `r` that the write requests: `o` and `oi` (the interrupt state) before,
/// `n` and `ni` after.
pub open spec fn pi_write_post(
    o: Seq<u32>,
    n: Seq<u32>,
    oi: RcpInterrupt,
    ni: RcpInterrupt,
    address: u32,
    value: Masked,
    r: Option<DmaRequest>,
) -> bool {
    let index = reg_index(address);
    let input = value.value & value.mask;
    if index == PI_RD_LEN || index == PI_WR_LEN {
        &&& r == Some(
            DmaRequest {
                src: o[PI_CART_ADDR as int] & 0xffff_fffe,
                dst: o[PI_DRAM_ADDR as int] & 0x00ff_fffe,
                len: input & 0x00ff_ffff,
                mode: index == PI_RD_LEN,
            },
        )
        &&& n == o
        &&& ni == oi
    } else if index == PI_STATUS {
        &&& r is None
        &&& n == o
        &&& if input & 0x02 != 0 {
            ni.cleared_from(oi, RcpIntType::PI)
        } else {
            ni == oi
        }
    } else {
        &&& r is None
        &&& n == o.update(
            index,
            spec_apply(value.value, value.mask, o[index]),
        )
        &&& ni == oi
    }
}

impl PeripheralInterface {
    pub fn new() -> (r: Self)
        ensures
            r@ == seq![0u32, 0, 0x7f, 0x7f, 0, 64, 18, 7, 3, 0, 0, 0, 0],
    {
        let mut regs: [u32; 13] = [0;13];

        // These always read as 0x7f
        regs[PI_RD_LEN] = 0x7f;
        regs[PI_WR_LEN] = 0x7f;

        regs[PI_BSD_DOM1_LAT] = 64;
        regs[PI_BSD_DOM1_PWD] = 18;
        regs[PI_BSD_DOM1_PGS] = 7;
        regs[PI_BSD_DOM1_RLS] = 3;

        let r = PeripheralInterface { regs };
        assert(r@ =~= seq![0u32, 0, 0x7f, 0x7f, 0, 64, 18, 7, 3, 0, 0, 0, 0]);
        r
    }

    /// Signals the end of a PI DMA transfer.
    pub fn finish_dma(&mut self, rcp_int: &mut RcpInterrupt)
        ensures
            final(self)@ == old(self)@,
            final(rcp_int).raised_from(*old(rcp_int), RcpIntType::PI),
    {
        rcp_int.raise(RcpIntType::PI);
    }

    /// Reads a PI register; PI_STATUS reports the pending PI interrupt as
    /// bit 3.
    pub fn read_u32(&self, rcp_int: &RcpInterrupt, address: u32) -> (r: u32)
        requires
            reg_index(address) < 13,
        ensures
            reg_index(address) == PI_STATUS ==> r == (if rcp_int.spec_has(RcpIntType::PI) {
                0x08u32
            } else {
                0
            }),
            reg_index(address) != PI_STATUS ==> r == self@[reg_index(address)],
            r == pi_read_value(self@, *rcp_int, address),
    {
        let index = (address >> 2) as usize;

        if index == PI_STATUS {
            if rcp_int.has(RcpIntType::PI) {
                0x08
            } else {
                0
            }
        } else {
            self.regs[index]
        }
    }

    /// Writes a PI register. A write to PI_RD_LEN or PI_WR_LEN requests a
    /// DMA transfer between the cartridge address and the RDRAM address
    /// (in the direction cartridge to RDRAM for PI_WR_LEN); a write to
    /// PI_STATUS with bit 1 set acknowledges the PI interrupt.
    pub fn write_u32(&mut self, rcp_int: &mut RcpInterrupt, address: u32, value: Masked) -> (r:
        Option<DmaRequest>)
        requires
            reg_index(address) < 13,
            reg_index(address) == PI_STATUS ==> (value.value & value.mask) & 1 == 0,
        ensures
            pi_write_post(old(self)@, final(self)@, *old(rcp_int), *final(rcp_int), address, value, r),
    {
        let index = (address >> 2) as usize;

        if index == PI_RD_LEN {
            return Some(
                DmaRequest {
                    src: self.regs[PI_CART_ADDR] & 0xffff_fffe,
                    dst: self.regs[PI_DRAM_ADDR] & 0x00ff_fffe,
                    len: value.get() & 0x00ff_ffff,
                    mode: true,
                },
            );
        } else if index == PI_WR_LEN {
            return Some(
                DmaRequest {
                    src: self.regs[PI_CART_ADDR] & 0xffff_fffe,
                    dst: self.regs[PI_DRAM_ADDR] & 0x00ff_fffe,
                    len: value.get() & 0x00ff_ffff,
                    mode: false,
                },
            );
        } else if index == PI_STATUS {
            let input = value.get();

            if (input & 0x02) != 0 {
                rcp_int.clear(RcpIntType::PI);
            }
        } else {
            self.regs[index] = value.apply(self.regs[index]);
        }
        None
    }
}

} // verus!
