//! The SP and DP command registers of the RSP's first register layout, in
//! which a DP_END write always hands the whole command buffer to the RDP.

use crate::dma::{Dma, RdpDma};
use crate::interrupt::{RcpIntType, RcpInterrupt};
use crate::memory::with_bits;
use vstd::prelude::*;

verus! {

/// A DMA transfer that a register write has requested.
#[derive(Copy, Clone, Debug, PartialEq, Eq, Structural)]
pub enum DmaType {
    Idle,
    Rsp(Dma),
    Rdp(RdpDma),
}

// SP_STATUS bits.
pub const HALTED: u32 = 0x0001;
pub const BROKE: u32 = 0x0002;
pub const DMA_BUSY: u32 = 0x0004;
pub const DMA_FULL: u32 = 0x0008;
pub const SSTEP: u32 = 0x0020;
pub const INTBREAK: u32 = 0x0040;
pub const SIG_SHIFT: u32 = 7;

// DP_STATUS bits.
pub const START_PENDING: u32 = 0x0400;

pub struct RegistersView {
    pub dma_requested: DmaType,
    pub sp_dma_spaddr: u32,
    pub sp_dma_ramaddr: u32,
    pub sp_status: u32,
    pub dp_start: u32,
    pub dp_end: u32,
    pub dp_status: u32,
}

pub struct Registers {
    dma_requested: DmaType,
    sp_dma_spaddr: u32,
    sp_dma_ramaddr: u32,
    sp_status: u32,
    dp_start: u32,
    dp_end: u32,
    dp_status: u32,
}

impl View for Registers {
    type V = RegistersView;

    closed spec fn view(&self) -> RegistersView {
        RegistersView {
            dma_requested: self.dma_requested,
            sp_dma_spaddr: self.sp_dma_spaddr,
            sp_dma_ramaddr: self.sp_dma_ramaddr,
            sp_status: self.sp_status,
            dp_start: self.dp_start,
            dp_end: self.dp_end,
            dp_status: self.dp_status,
        }
    }
}

/// One step of this layout's signal update: input bit `9 + 2 * bit` masks
/// the signals down to signal `bit` alone (the signals other than `bit`
/// are cleared), then input bit `10 + 2 * bit` sets signal `bit`.
pub open spec fn sig_step(sig: u8, value: u32, bit: u32) -> u8 {
    let s1 = if value & (0x200u32 << (bit * 2)) != 0 { sig & (1u8 << bit) } else { sig };
    if value & (0x400u32 << (bit * 2)) != 0 { s1 | (1u8 << bit) } else { s1 }
}

/// The signals after the updates for bits `0..n`.
pub open spec fn sig_update(sig: u8, value: u32, n: u32) -> u8
    decreases n,
{
    if n == 0 {
        sig
    } else {
        sig_step(sig_update(sig, value, (n - 1) as u32), value, (n - 1) as u32)
    }
}

/// SP_STATUS after a write of `value`.
pub open spec fn status_after_write(status: u32, value: u32) -> u32 {
    let s1 = if value & 0x01 != 0 { with_bits(status, HALTED, false) } else { status };
    let s2 = if value & 0x02 != 0 { with_bits(s1, HALTED, true) } else { s1 };
    let s3 = if value & 0x04 != 0 { with_bits(s2, BROKE, false) } else { s2 };
    let s4 = if value & 0x20 != 0 { with_bits(s3, SSTEP, false) } else { s3 };
    let s5 = if value & 0x40 != 0 { with_bits(s4, SSTEP, true) } else { s4 };
    let s6 = if value & 0x80 != 0 { with_bits(s5, INTBREAK, false) } else { s5 };
    let s7 = if value & 0x100 != 0 { with_bits(s6, INTBREAK, true) } else { s6 };
    let sig = sig_update((s7 >> SIG_SHIFT) as u8, value, 8);
    (s7 & !(0xffu32 << SIG_SHIFT)) | ((sig as u32) << SIG_SHIFT)
}

fn apply_sig_update(sig: u8, value: u32) -> (r: u8)
    ensures
        r == sig_update(sig, value, 8),
{
    let mut r = sig;
    let mut bit: u32 = 0;
    while bit <= 7
        invariant
            bit <= 8,
            r == sig_update(sig, value, bit),
        decreases 8 - bit,
    {
        proof {
            crate::bits::lemma_mask_bounds();
        }
        assert(bit << 1 == bit * 2);
        if (value & (0x200u32 << (bit << 1))) != 0 {
            r = r & (1u8 << bit);
        }
        if (value & (0x400u32 << (bit << 1))) != 0 {
            r = r | (1u8 << bit);
        }
        bit = bit + 1;
    }
    r
}

impl Registers {
    pub const NAMES: [&'static str; 16] = [
        "DMA_CACHE",
        "DMA_DRAM",
        "DMA_READ_LENGTH",
        "DMA_WRITE_LENGTH",
        "SP_STATUS",
        "DMA_FULL",
        "DMA_BUSY",
        "SP_SEMAPHORE",
        "CMD_START",
        "CMD_END",
        "CMD_CURRENT",
        "CMD_STATUS",
        "CMD_CLOCK",
        "CMD_BUSY",
        "CMD_PIPE_BUSY",
        "CMD_TMEM_BUSY",
    ];

    pub fn new() -> (r: Self)
        ensures
            r@ == (RegistersView {
                dma_requested: DmaType::Idle,
                sp_dma_spaddr: 0,
                sp_dma_ramaddr: 0,
                sp_status: HALTED,
                dp_start: 0,
                dp_end: 0,
                dp_status: 0,
            }),
    {
        Registers {
            dma_requested: DmaType::Idle,
            sp_dma_spaddr: 0,
            sp_dma_ramaddr: 0,
            sp_status: HALTED,
            dp_start: 0,
            dp_end: 0,
            dp_status: 0,
        }
    }

    pub fn halted(&self) -> (r: bool)
        ensures
            r == (self@.sp_status & HALTED != 0),
    {
        self.sp_status & HALTED != 0
    }

    pub fn single_step(&self) -> (r: bool)
        ensures
            r == (self@.sp_status & SSTEP != 0),
    {
        self.sp_status & SSTEP != 0
    }

    /// Reads SP_STATUS (4), DMA_FULL (5), DMA_BUSY (6), SP_SEMAPHORE (7,
    /// always zero), CMD_START (8), CMD_END (9) or CMD_STATUS (11).
    pub fn get(&self, index: usize) -> (r: u32)
        requires
            index == 4 || index == 5 || index == 6 || index == 7 || index == 8 || index == 9
                || index == 11,
        ensures
            index == 4 ==> r == self@.sp_status,
            index == 5 ==> r == (if self@.sp_status & DMA_FULL != 0 {
                1u32
            } else {
                0
            }),
            index == 6 ==> r == (if self@.sp_status & DMA_BUSY != 0 {
                1u32
            } else {
                0
            }),
            index == 7 ==> r == 0,
            index == 8 ==> r == self@.dp_start,
            index == 9 ==> r == self@.dp_end,
            index == 11 ==> r == self@.dp_status,
    {
        if index == 4 {
            self.sp_status
        } else if index == 5 {
            if self.sp_status & DMA_FULL != 0 {
                1
            } else {
                0
            }
        } else if index == 6 {
            if self.sp_status & DMA_BUSY != 0 {
                1
            } else {
                0
            }
        } else if index == 7 {
            0
        } else if index == 8 {
            self.dp_start
        } else if index == 9 {
            self.dp_end
        } else {
            self.dp_status
        }
    }

    /// Writes DMA_CACHE (0), DMA_DRAM (1), DMA_READ_LENGTH (2),
    /// DMA_WRITE_LENGTH (3), SP_STATUS (4), SP_SEMAPHORE (7, ignored),
    /// CMD_START (8) or CMD_END (9). The length registers request an RSP
    /// DMA; CMD_END requests the RDP transfer of the whole buffer.
    pub fn set(&mut self, interrupt: &mut RcpInterrupt, index: usize, value: u32)
        requires
            old(interrupt).wf(),
            index <= 4 || index == 7 || index == 8 || index == 9,
        ensures
            ({
                let o = old(self)@;
                let n = final(self)@;
                if index == 0 {
                    n == RegistersView { sp_dma_spaddr: value & 0x1ff8, ..o } && *final(interrupt)
                        == *old(interrupt)
                } else if index == 1 {
                    n == RegistersView { sp_dma_ramaddr: value & 0x00ff_fff8, ..o }
                        && *final(interrupt) == *old(interrupt)
                } else if index == 2 || index == 3 {
                    n == RegistersView {
                        dma_requested: DmaType::Rsp(
                            Dma {
                                src_addr: o.sp_dma_spaddr,
                                dst_addr: o.sp_dma_ramaddr,
                                len: value & 0xff8f_fff8,
                                reverse: index == 2,
                            },
                        ),
                        ..o
                    } && *final(interrupt) == *old(interrupt)
                } else if index == 4 {
                    &&& n == RegistersView {
                        sp_status: status_after_write(o.sp_status, value),
                        ..o
                    }
                    &&& final(interrupt).wf()
                    &&& final(interrupt).spec_mask() == old(interrupt).spec_mask()
                    &&& final(interrupt).spec_status() == {
                        let s1 = if value & 0x08 != 0 {
                            old(interrupt).spec_status() & !RcpIntType::SP.spec_bit()
                        } else {
                            old(interrupt).spec_status()
                        };
                        if value & 0x10 != 0 {
                            s1 | RcpIntType::SP.spec_bit()
                        } else {
                            s1
                        }
                    }
                } else if index == 7 {
                    n == o && *final(interrupt) == *old(interrupt)
                } else if index == 8 {
                    n == RegistersView {
                        dp_start: value & 0x00ff_ffff,
                        dp_status: o.dp_status | START_PENDING,
                        ..o
                    } && *final(interrupt) == *old(interrupt)
                } else {
                    n == RegistersView {
                        dp_end: value & 0x00ff_ffff,
                        dp_status: o.dp_status & !START_PENDING,
                        dma_requested: DmaType::Rdp(
                            RdpDma { start: o.dp_start, end: value & 0x00ff_ffff },
                        ),
                        ..o
                    } && *final(interrupt) == *old(interrupt)
                }
            }),
    {
        if index == 0 {
            self.sp_dma_spaddr = value & 0x1ff8;
        } else if index == 1 {
            self.sp_dma_ramaddr = value & 0x00ff_fff8;
        } else if index == 2 || index == 3 {
            self.dma_requested = DmaType::Rsp(
                Dma {
                    src_addr: self.sp_dma_spaddr,
                    dst_addr: self.sp_dma_ramaddr,
                    len: value & 0xff8f_fff8,
                    reverse: index == 2,
                },
            );
        } else if index == 4 {
            let mut status = self.sp_status;

            if (value & 0x01) != 0 {
                status = status & !HALTED;
            }
            if (value & 0x02) != 0 {
                status = status | HALTED;
            }
            if (value & 0x04) != 0 {
                status = status & !BROKE;
            }
            if (value & 0x08) != 0 {
                interrupt.clear(RcpIntType::SP);
            }
            if (value & 0x10) != 0 {
                interrupt.raise(RcpIntType::SP);
            }
            if (value & 0x20) != 0 {
                status = status & !SSTEP;
            }
            if (value & 0x40) != 0 {
                status = status | SSTEP;
            }
            if (value & 0x80) != 0 {
                status = status & !INTBREAK;
            }
            if (value & 0x100) != 0 {
                status = status | INTBREAK;
            }

            let sig = apply_sig_update((status >> SIG_SHIFT) as u8, value);
            self.sp_status = (status & !(0xffu32 << SIG_SHIFT)) | ((sig as u32) << SIG_SHIFT);
        } else if index == 7 {
        } else if index == 8 {
            self.dp_start = value & 0x00ff_ffff;
            self.dp_status = self.dp_status | START_PENDING;
        } else {
            self.dp_end = value & 0x00ff_ffff;
            self.dp_status = self.dp_status & !START_PENDING;
            self.dma_requested = DmaType::Rdp(RdpDma { start: self.dp_start, end: self.dp_end });
        }
    }

    /// Whether the RSP has stopped: a DMA is requested or it is halted.
    pub fn is_done(&self) -> (r: bool)
        ensures
            r == (!(self@.dma_requested is Idle) || self@.sp_status & HALTED != 0),
    {
        let requested = match self.dma_requested {
            DmaType::Idle => false,
            _ => true,
        };
        requested || self.halted()
    }

    /// The BREAK instruction: halts the RSP and sets the broke flag, raising
    /// the SP interrupt when interrupt-on-break is enabled.
    pub fn break_(&mut self, interrupt: &mut RcpInterrupt)
        ensures
            final(self)@ == (RegistersView {
                sp_status: old(self)@.sp_status | HALTED | BROKE,
                ..old(self)@
            }),
            old(self)@.sp_status & INTBREAK != 0 ==> final(interrupt).raised_from(
                *old(interrupt),
                RcpIntType::SP,
            ),
            old(self)@.sp_status & INTBREAK == 0 ==> *final(interrupt) == *old(interrupt),
    {
        self.sp_status = self.sp_status | HALTED | BROKE;
        let ghost s = old(self).sp_status;
        proof {
            crate::bits::lemma_flag_bits();
        }
        assert((s | HALTED | BROKE) & INTBREAK == s & INTBREAK);

        if self.sp_status & INTBREAK != 0 {
            interrupt.raise(RcpIntType::SP);
        }
    }

    pub fn dma_requested(&self) -> (r: DmaType)
        ensures
            r == self@.dma_requested,
    {
        self.dma_requested
    }

    pub fn finish_dma(&mut self)
        ensures
            final(self)@ == (RegistersView { dma_requested: DmaType::Idle, ..old(self)@ }),
    {
        self.dma_requested = DmaType::Idle;
    }
}

} // verus!
