//! The SP and DP registers as mapped into RSP COP0: DMA addresses and
//! lengths, SP_STATUS, the semaphore and the RDP command buffer registers.

use crate::dma::DmaRequest;
use crate::interrupt::{RcpIntType, RcpInterrupt};
use crate::memory::{apply_pair_update, pair_update, spec_apply, with_bits, Masked};
use vstd::prelude::*;

verus! {

/// A DMA transfer that a register write has requested.
#[derive(Copy, Clone, Debug, PartialEq, Eq, Structural)]
pub enum DmaType {
    Idle,
    Rsp(DmaRequest),
    Rdp(DmaRequest),
}

impl Default for DmaType {
    fn default() -> (r: Self)
        ensures
            r == DmaType::Idle,
    {
        DmaType::Idle
    }
}

// SP_STATUS bits.
pub const SP_HALTED: u32 = 0x0001;
pub const SP_BROKE: u32 = 0x0002;
pub const SP_DMA_BUSY: u32 = 0x0004;
pub const SP_DMA_FULL: u32 = 0x0008;
pub const SP_IO_BUSY: u32 = 0x0010;
pub const SP_SSTEP: u32 = 0x0020;
pub const SP_INTBREAK: u32 = 0x0040;
/// SP_STATUS holds the eight signal bits at bits 7-14.
pub const SP_SIGNAL_SHIFT: u32 = 7;

// DP_STATUS bits.
pub const DP_XBUS: u32 = 0x0001;
pub const DP_FREEZE: u32 = 0x0002;
pub const DP_FLUSH: u32 = 0x0004;
pub const DP_START_GCLK: u32 = 0x0008;
pub const DP_TMEM_BUSY: u32 = 0x0010;
pub const DP_PIPE_BUSY: u32 = 0x0020;
pub const DP_BUFFER_BUSY: u32 = 0x0040;
pub const DP_READY: u32 = 0x0080;
pub const DP_DMA_BUSY: u32 = 0x0100;
pub const DP_END_PENDING: u32 = 0x0200;
pub const DP_START_PENDING: u32 = 0x0400;

/// The abstract state of the registers.
pub struct RegistersView {
    pub running: bool,
    pub dma_type: DmaType,
    pub sp_dma_spaddr: u32,
    pub sp_dma_ramaddr: u32,
    pub sp_status: u32,
    pub sp_semaphore: bool,
    pub dp_start: u32,
    pub dp_end: u32,
    pub dp_current: u32,
    pub dp_status: u32,
}

pub struct Registers {
    running: bool,
    dma_type: DmaType,
    sp_dma_spaddr: u32,
    sp_dma_ramaddr: u32,
    sp_status: RspStatus,
    sp_semaphore: bool,
    dp_start: u32,
    dp_end: u32,
    dp_current: u32,
    dp_status: RdpStatus,
}

impl View for Registers {
    type V = RegistersView;

    closed spec fn view(&self) -> RegistersView {
        RegistersView {
            running: self.running,
            dma_type: self.dma_type,
            sp_dma_spaddr: self.sp_dma_spaddr,
            sp_dma_ramaddr: self.sp_dma_ramaddr,
            sp_status: self.sp_status@,
            sp_semaphore: self.sp_semaphore,
            dp_start: self.dp_start,
            dp_end: self.dp_end,
            dp_current: self.dp_current,
            dp_status: self.dp_status@,
        }
    }
}

/// The signal field of SP_STATUS.
pub open spec fn sp_signal(status: u32) -> u8 {
    (status >> SP_SIGNAL_SHIFT) as u8
}

/// SP_STATUS with its signal field replaced.
pub open spec fn with_signal(status: u32, signal: u8) -> u32 {
    (status & !(0xffu32 << SP_SIGNAL_SHIFT)) | ((signal as u32) << SP_SIGNAL_SHIFT)
}

/// SP_STATUS after a write of `input`: each flag has a clear bit and a set
/// bit in the input, and the signals have a clear/set pair each from bit 9.
pub open spec fn sp_status_after_write(status: u32, input: u32) -> u32 {
    let s1 = if input & 0x01 != 0 { with_bits(status, SP_HALTED, false) } else { status };
    let s2 = if input & 0x02 != 0 { with_bits(s1, SP_HALTED, true) } else { s1 };
    let s3 = if input & 0x04 != 0 { with_bits(s2, SP_BROKE, false) } else { s2 };
    let s4 = if input & 0x20 != 0 { with_bits(s3, SP_SSTEP, false) } else { s3 };
    let s5 = if input & 0x40 != 0 { with_bits(s4, SP_SSTEP, true) } else { s4 };
    let s6 = if input & 0x80 != 0 { with_bits(s5, SP_INTBREAK, false) } else { s5 };
    let s7 = if input & 0x100 != 0 { with_bits(s6, SP_INTBREAK, true) } else { s6 };
    with_signal(s7, pair_update(sp_signal(s7), input, 9, 8))
}

/// DP_STATUS after a write of `input` to it.
pub open spec fn dp_status_after_write(status: u32, input: u32) -> u32 {
    let s1 = if input & 0x0001 != 0 { with_bits(status, DP_XBUS, false) } else { status };
    let s2 = if input & 0x0002 != 0 { with_bits(s1, DP_XBUS, true) } else { s1 };
    let s3 = if input & 0x0004 != 0 { with_bits(s2, DP_FREEZE, false) } else { s2 };
    let s4 = if input & 0x0008 != 0 { with_bits(s3, DP_FREEZE, true) } else { s3 };
    let s5 = if input & 0x0010 != 0 { with_bits(s4, DP_FLUSH, false) } else { s4 };
    let s6 = if input & 0x0020 != 0 { with_bits(s5, DP_FLUSH, true) } else { s5 };
    let s7 = if input & 0x0040 != 0 { with_bits(s6, DP_TMEM_BUSY, false) } else { s6 };
    let s8 = if input & 0x0080 != 0 { with_bits(s7, DP_PIPE_BUSY, false) } else { s7 };
    if input & 0x0100 != 0 { with_bits(s8, DP_BUFFER_BUSY, false) } else { s8 }
}

/// Whether the RSP may run: it is not halted, no SP interrupt is pending
/// and no DMA is waiting to be carried out.
pub open spec fn can_run(view: RegistersView, rcp_int: RcpInterrupt) -> bool {
    view.sp_status & SP_HALTED == 0 && !rcp_int.spec_has(RcpIntType::SP) && view.dma_type
        is Idle
}

/// The valid register indices for a write.
pub open spec fn is_writable_index(index: usize) -> bool {
    index == 0 || index == 1 || index == 2 || index == 3 || index == 4 || index == 7 || index == 8
        || index == 9 || index == 11
}

/// The value that reading register `index` gives.
pub open spec fn read_value(v: RegistersView, index: int) -> u32 {
    if index == 0 {
        v.sp_dma_spaddr
    } else if index == 1 {
        v.sp_dma_ramaddr
    } else if index == 2 || index == 3 {
        0xff8
    } else if index == 4 {
        v.sp_status
    } else if index == 5 {
        if v.sp_status & SP_DMA_FULL != 0 {
            1
        } else {
            0
        }
    } else if index == 6 {
        if v.sp_status & SP_DMA_BUSY != 0 {
            1
        } else {
            0
        }
    } else if index == 7 {
        if v.sp_semaphore {
            1
        } else {
            0
        }
    } else if index == 8 {
        v.dp_start
    } else if index == 9 {
        v.dp_end
    } else if index == 10 {
        v.dp_current
    } else {
        v.dp_status
    }
}

/// The registers after `Registers::set` writes `value` to register
/// `index`, from `o`, with `new_int` the interrupt state after the write.
pub open spec fn written(o: RegistersView, new_int: RcpInterrupt, index: int, value: Masked) -> RegistersView {
    let input = value.value & value.mask;
    let merged = |prev: u32| spec_apply(value.value, value.mask, prev);
    if index == 0 {
        RegistersView { sp_dma_spaddr: merged(o.sp_dma_spaddr), ..o }
    } else if index == 1 {
        RegistersView { sp_dma_ramaddr: merged(o.sp_dma_ramaddr), ..o }
    } else if index == 2 || index == 3 {
        RegistersView {
            dma_type: DmaType::Rsp(
                DmaRequest {
                    src: o.sp_dma_spaddr,
                    dst: o.sp_dma_ramaddr,
                    len: input,
                    mode: index == 2,
                },
            ),
            running: false,
            ..o
        }
    } else if index == 4 {
        let status = sp_status_after_write(o.sp_status, input);
        RegistersView {
            sp_status: status,
            running: can_run(RegistersView { sp_status: status, ..o }, new_int),
            ..o
        }
    } else if index == 7 {
        RegistersView { sp_semaphore: input & 1 != 0, ..o }
    } else if index == 8 {
        if o.dp_status & DP_START_PENDING == 0 {
            RegistersView {
                dp_start: merged(o.dp_start) & 0x00ff_fff8,
                dp_status: o.dp_status | DP_START_PENDING,
                ..o
            }
        } else {
            o
        }
    } else if index == 9 {
        let end = merged(o.dp_end) & 0x00ff_fff8;
        let pending = o.dp_status & DP_START_PENDING != 0;
        let start = if pending {
            o.dp_start
        } else {
            o.dp_current
        };
        let status1 = o.dp_status | DP_BUFFER_BUSY;
        let status2 = if pending {
            status1 & !DP_START_PENDING
        } else {
            status1
        };
        if end > start {
            RegistersView {
                dp_end: end,
                dp_current: end,
                dp_status: status2 & !DP_READY,
                dma_type: DmaType::Rdp(
                    DmaRequest {
                        src: start,
                        dst: 0,
                        len: (end - start) as u32,
                        mode: o.dp_status & DP_XBUS != 0,
                    },
                ),
                running: false,
                ..o
            }
        } else {
            RegistersView { dp_end: end, dp_current: end, dp_status: status2, ..o }
        }
    } else {
        RegistersView { dp_status: dp_status_after_write(o.dp_status, input), ..o }
    }
}

/// A write to DP_STATUS (register 11) sets the XBUS flag (bit 0) when
/// input bit 1 is set, clears it when only input bit 0 is set, and leaves
/// it as it was when neither is.
pub proof fn lemma_dp_status_xbus(
    o: RegistersView,
    n: RegistersView,
    oi: RcpInterrupt,
    ni: RcpInterrupt,
    value: Masked,
)
    requires
        write_post(o, n, oi, ni, 11, value),
    ensures
        ({
            let input = value.value & value.mask;
            &&& input & 2 != 0 ==> n.dp_status & 1 == 1
            &&& input & 2 == 0 && input & 1 != 0 ==> n.dp_status & 1 == 0
            &&& input & 3 == 0 ==> n.dp_status & 1 == o.dp_status & 1
        }),
{
    crate::bits::lemma_law_bits();
    let input = value.value & value.mask;
    assert((input & 3u32) == 0 <==> (input & 1 == 0 && input & 2 == 0));
}

/// The interrupt state after `Registers::set` writes `value` to register
/// `index`: only SP_STATUS (4) acknowledges (bit 3) or raises (bit 4) the
/// SP interrupt.
pub open spec fn interrupt_after_write(old_int: RcpInterrupt, new_int: RcpInterrupt, index: int, value: Masked) -> bool {
    let input = value.value & value.mask;
    if index == 4 {
        &&& new_int.wf()
        &&& new_int.spec_mask() == old_int.spec_mask()
        &&& new_int.spec_status() == {
            let s1 = if input & 0x08 != 0 {
                old_int.spec_status() & !RcpIntType::SP.spec_bit()
            } else {
                old_int.spec_status()
            };
            if input & 0x10 != 0 {
                s1 | RcpIntType::SP.spec_bit()
            } else {
                s1
            }
        }
    } else {
        new_int == old_int
    }
}

/// The registers and the interrupt state after `Registers::set` writes
/// `value` to register `index`: `o` and `old_int` before, `n` and `new_int`
/// after.
pub open spec fn write_post(
    o: RegistersView,
    n: RegistersView,
    old_int: RcpInterrupt,
    new_int: RcpInterrupt,
    index: int,
    value: Masked,
) -> bool {
    n == written(o, new_int, index, value) && interrupt_after_write(old_int, new_int, index, value)
}

impl Registers {
    pub const NAMES: [&'static str; 16] = [
        "SP_DMA_SPADDR",
        "SP_DMA_RAMADDR",
        "SP_DMA_RDLEN",
        "SP_DMA_WRLEN",
        "SP_STATUS",
        "SP_DMA_FULL",
        "SP_DMA_BUSY",
        "SP_SEMAPHORE",
        "DP_START",
        "DP_END",
        "DP_CURRENT",
        "DP_STATUS",
        "DP_CLOCK",
        "DPC_BUSY",
        "DPC_PIPE_BUSY",
        "DPC_TMEM_BUSY",
    ];

    /// The state after reset: the RSP is halted and idle.
    pub open spec fn initial() -> RegistersView {
        RegistersView {
            running: false,
            dma_type: DmaType::Idle,
            sp_dma_spaddr: 0,
            sp_dma_ramaddr: 0,
            sp_status: SP_HALTED,
            sp_semaphore: false,
            dp_start: 0,
            dp_end: 0,
            dp_current: 0,
            dp_status: 0,
        }
    }

    pub fn new() -> (r: Self)
        ensures
            r@ == Self::initial(),
    {
        Registers {
            running: false,
            dma_type: DmaType::Idle,
            sp_dma_spaddr: 0,
            sp_dma_ramaddr: 0,
            sp_status: RspStatus::from_bits(SP_HALTED),
            sp_semaphore: false,
            dp_start: 0,
            dp_end: 0,
            dp_current: 0,
            dp_status: RdpStatus::new(),
        }
    }

    /// Reads register `index` (0-11). Reading SP_SEMAPHORE (7) returns its
    /// value and then sets it.
    pub fn get(&mut self, index: usize) -> (r: u32)
        requires
            index <= 11,
        ensures
            index == 0 ==> r == old(self)@.sp_dma_spaddr,
            index == 1 ==> r == old(self)@.sp_dma_ramaddr,
            index == 2 || index == 3 ==> r == 0xff8,
            index == 4 ==> r == old(self)@.sp_status,
            index == 5 ==> r == (if old(self)@.sp_status & SP_DMA_FULL != 0 {
                1u32
            } else {
                0
            }),
            index == 6 ==> r == (if old(self)@.sp_status & SP_DMA_BUSY != 0 {
                1u32
            } else {
                0
            }),
            index == 7 ==> r == (if old(self)@.sp_semaphore {
                1u32
            } else {
                0
            }),
            index == 8 ==> r == old(self)@.dp_start,
            index == 9 ==> r == old(self)@.dp_end,
            index == 10 ==> r == old(self)@.dp_current,
            index == 11 ==> r == old(self)@.dp_status,
            r == read_value(old(self)@, index as int),
            index == 7 ==> final(self)@ == (RegistersView { sp_semaphore: true, ..old(self)@ }),
            index != 7 ==> final(self)@ == old(self)@,
    {
        if index == 0 {
            self.sp_dma_spaddr
        } else if index == 1 {
            self.sp_dma_ramaddr
        } else if index == 2 || index == 3 {
            0xff8
        } else if index == 4 {
            self.sp_status.into_bits()
        } else if index == 5 {
            if self.sp_status.dma_full() {
                1
            } else {
                0
            }
        } else if index == 6 {
            if self.sp_status.dma_busy() {
                1
            } else {
                0
            }
        } else if index == 7 {
            let value = self.sp_semaphore;
            self.sp_semaphore = true;
            if value {
                1
            } else {
                0
            }
        } else if index == 8 {
            self.dp_start
        } else if index == 9 {
            self.dp_end
        } else if index == 10 {
            self.dp_current
        } else {
            self.dp_status.into_bits()
        }
    }

    /// Writes register `index`.
    ///
    /// - SP_DMA_SPADDR (0), SP_DMA_RAMADDR (1): merged into the register.
    /// - SP_DMA_RDLEN (2), SP_DMA_WRLEN (3): request an RSP DMA (RDRAM to
    ///   SP memory for RDLEN) and stop the RSP.
    /// - SP_STATUS (4): update the flags and signals, raise or acknowledge
    ///   the SP interrupt, then decide whether the RSP runs.
    /// - SP_SEMAPHORE (7): set to bit 0 of the value.
    /// - DP_START (8): latched, unless a start is already pending.
    /// - DP_END (9): ends the command buffer; when it is non-empty an RDP
    ///   DMA is requested from the pending start (or the current position)
    ///   and the RSP stops.
    /// - DP_STATUS (11): update the flags.
    pub fn set(&mut self, rcp_int: &mut RcpInterrupt, index: usize, value: Masked)
        requires
            old(rcp_int).wf(),
            is_writable_index(index),
            index == 9 ==> old(self)@.dma_type is Idle,
        ensures
            write_post(old(self)@, final(self)@, *old(rcp_int), *final(rcp_int), index as int, value),
    {
        if index == 0 {
            self.sp_dma_spaddr = value.apply(self.sp_dma_spaddr);
        } else if index == 1 {
            self.sp_dma_ramaddr = value.apply(self.sp_dma_ramaddr);
        } else if index == 2 {
            self.dma_type = DmaType::Rsp(
                DmaRequest {
                    src: self.sp_dma_spaddr,
                    dst: self.sp_dma_ramaddr,
                    len: value.get(),
                    mode: true,
                },
            );
            self.running = false;
        } else if index == 3 {
            self.dma_type = DmaType::Rsp(
                DmaRequest {
                    src: self.sp_dma_spaddr,
                    dst: self.sp_dma_ramaddr,
                    len: value.get(),
                    mode: false,
                },
            );
            self.running = false;
        } else if index == 4 {
            let input = value.get();
            let mut status = self.sp_status;

            if (input & 0x01) != 0 {
                status.set_halted(false);
            }
            if (input & 0x02) != 0 {
                status.set_halted(true);
            }
            if (input & 0x04) != 0 {
                status.set_broke(false);
            }
            if (input & 0x08) != 0 {
                rcp_int.clear(RcpIntType::SP);
            }
            if (input & 0x10) != 0 {
                rcp_int.raise(RcpIntType::SP);
            }
            if (input & 0x20) != 0 {
                status.set_sstep(false);
            }
            if (input & 0x40) != 0 {
                status.set_sstep(true);
            }
            if (input & 0x80) != 0 {
                status.set_intbreak(false);
            }
            if (input & 0x100) != 0 {
                status.set_intbreak(true);
            }

            let signal = apply_pair_update(status.signal(), input, 9, 8);
            status.set_signal(signal);
            self.sp_status = status;

            self.try_restart(rcp_int);
        } else if index == 7 {
            self.sp_semaphore = (value.get() & 1) != 0;
        } else if index == 8 {
            if !self.dp_status.start_pending() {
                self.dp_start = value.apply(self.dp_start) & 0x00ff_fff8;
                self.dp_status.set_flag(DP_START_PENDING, true);
            }
        } else if index == 9 {
            let xbus = self.dp_status.xbus();
            let pending = self.dp_status.start_pending();
            self.dp_end = value.apply(self.dp_end) & 0x00ff_fff8;
            self.dp_status.set_flag(DP_BUFFER_BUSY, true);

            let start = if pending {
                self.dp_status.set_flag(DP_START_PENDING, false);
                self.dp_start
            } else {
                self.dp_current
            };

            if self.dp_end > start {
                self.dma_type = DmaType::Rdp(
                    DmaRequest {
                        src: start,
                        dst: 0,
                        len: self.dp_end - start,
                        mode: xbus,
                    },
                );
                self.set_dp_ready(false);
                self.running = false;
            }
            self.dp_current = self.dp_end;
        } else {
            let input = value.get();
            let mut status = self.dp_status;

            if (input & 0x0001) != 0 {
                status.set_flag(DP_XBUS, false);
            }
            if (input & 0x0002) != 0 {
                status.set_flag(DP_XBUS, true);
            }
            if (input & 0x0004) != 0 {
                status.set_flag(DP_FREEZE, false);
            }
            if (input & 0x0008) != 0 {
                status.set_flag(DP_FREEZE, true);
            }
            if (input & 0x0010) != 0 {
                status.set_flag(DP_FLUSH, false);
            }
            if (input & 0x0020) != 0 {
                status.set_flag(DP_FLUSH, true);
            }
            if (input & 0x0040) != 0 {
                status.set_flag(DP_TMEM_BUSY, false);
            }
            if (input & 0x0080) != 0 {
                status.set_flag(DP_PIPE_BUSY, false);
            }
            if (input & 0x0100) != 0 {
                status.set_flag(DP_BUFFER_BUSY, false);
            }
            self.dp_status = status;
        }
    }

    /// Reads one of the RDP command registers: DP_START (8), DP_END (9),
    /// DP_CURRENT (10) or DP_STATUS (11).
    pub fn get_command(&self, index: usize) -> (r: u32)
        requires
            8 <= index <= 11,
        ensures
            index == 8 ==> r == self@.dp_start,
            index == 9 ==> r == self@.dp_end,
            index == 10 ==> r == self@.dp_current,
            index == 11 ==> r == self@.dp_status,
    {
        if index == 8 {
            self.dp_start
        } else if index == 9 {
            self.dp_end
        } else if index == 10 {
            self.dp_current
        } else {
            self.dp_status.into_bits()
        }
    }

    pub fn is_running(&self) -> (r: bool)
        ensures
            r == self@.running,
    {
        self.running
    }

    pub fn is_single_step(&self) -> (r: bool)
        ensures
            r == (self@.sp_status & SP_SSTEP != 0),
    {
        self.sp_status.sstep()
    }

    /// Hands out the requested DMA, if any, leaving none requested; the RSP
    /// runs afterwards unless it is halted or an SP interrupt is pending.
    pub fn take_dma_type(&mut self, rcp_int: &RcpInterrupt) -> (r: DmaType)
        ensures
            r == old(self)@.dma_type,
            final(self)@ == (RegistersView {
                dma_type: DmaType::Idle,
                running: old(self)@.sp_status & SP_HALTED == 0 && !rcp_int.spec_has(
                    RcpIntType::SP,
                ),
                ..old(self)@
            }),
    {
        self.running = !self.sp_status.halted() && !rcp_int.has(RcpIntType::SP);
        let dma_type = self.dma_type;
        self.dma_type = DmaType::Idle;
        dma_type
    }

    /// Records where an RSP DMA transfer ended.
    pub fn finish_rsp_dma(&mut self, sp_dma_spaddr: u32, sp_dma_ramaddr: u32)
        ensures
            final(self)@ == (RegistersView { sp_dma_spaddr, sp_dma_ramaddr, ..old(self)@ }),
    {
        self.sp_dma_spaddr = sp_dma_spaddr;
        self.sp_dma_ramaddr = sp_dma_ramaddr;
    }

    /// Decides whether the RSP runs, and reports it.
    pub fn try_restart(&mut self, rcp_int: &RcpInterrupt) -> (r: bool)
        ensures
            r == can_run(old(self)@, *rcp_int),
            final(self)@ == (RegistersView { running: r, ..old(self)@ }),
    {
        self.running = !self.sp_status.halted() && !rcp_int.has(RcpIntType::SP) && match self.dma_type {
            DmaType::Idle => true,
            _ => false,
        };
        self.running
    }

    pub fn halt(&mut self)
        ensures
            final(self)@ == (RegistersView {
                sp_status: old(self)@.sp_status | SP_HALTED,
                running: false,
                ..old(self)@
            }),
    {
        self.sp_status.set_halted(true);
        self.running = false;
    }

    /// The BREAK instruction: halts the RSP, sets the broke flag and raises
    /// the SP interrupt when interrupt-on-break is enabled.
    pub fn break_(&mut self, rcp_int: &mut RcpInterrupt)
        ensures
            final(self)@ == (RegistersView {
                sp_status: old(self)@.sp_status | SP_HALTED | SP_BROKE,
                running: false,
                ..old(self)@
            }),
            old(self)@.sp_status & SP_INTBREAK != 0 ==> final(rcp_int).raised_from(
                *old(rcp_int),
                RcpIntType::SP,
            ),
            old(self)@.sp_status & SP_INTBREAK == 0 ==> *final(rcp_int) == *old(rcp_int),
    {
        self.halt();
        self.sp_status.set_broke(true);
        let ghost s = old(self)@.sp_status;
        proof {
            crate::bits::lemma_flag_bits();
        }
        assert((s | SP_HALTED | SP_BROKE) & SP_INTBREAK == s & SP_INTBREAK);

        if self.sp_status.intbreak() {
            rcp_int.raise(RcpIntType::SP);
        }
    }

    pub fn set_dp_ready(&mut self, ready: bool)
        ensures
            final(self)@ == (RegistersView {
                dp_status: with_bits(old(self)@.dp_status, DP_READY, ready),
                ..old(self)@
            }),
    {
        self.dp_status.set_flag(DP_READY, ready);
    }

    pub fn clear_buffer_busy(&mut self)
        ensures
            final(self)@ == (RegistersView {
                dp_status: old(self)@.dp_status & !DP_BUFFER_BUSY,
                ..old(self)@
            }),
    {
        self.dp_status.set_flag(DP_BUFFER_BUSY, false);
    }
}

/// A status flag reads back what was last set, and setting one leaves the
/// bits of every other flag as they were; the signal field of SP_STATUS
/// reads back what was last set.
pub proof fn lemma_status_read_back(status: u32, mask: u32, other: u32, on: bool, signal: u8)
    requires
        mask != 0,
        mask & (mask - 1) as u32 == 0,
        other & mask == 0,
    ensures
        (with_bits(status, mask, on) & mask != 0) == on,
        with_bits(status, mask, on) & other == status & other,
        sp_signal(with_signal(status, signal)) == signal,
{
    assert((status | mask) & mask != 0) by (bit_vector)
        requires
            mask != 0,
    ;
    assert((status & !mask) & mask == 0) by (bit_vector);
    assert((status | mask) & other == status & other) by (bit_vector)
        requires
            other & mask == 0,
    ;
    assert((status & !mask) & other == status & other) by (bit_vector)
        requires
            other & mask == 0,
    ;
    assert((((status & !(0xffu32 << 7u32)) | ((signal as u32) << 7u32)) >> 7u32) as u8 == signal)
        by (bit_vector);
}

/// SP_STATUS as a typed word: seven flags and the eight signal bits.
#[derive(Copy, Clone, Debug, PartialEq, Eq, Structural)]
pub struct RspStatus {
    bits: u32,
}

impl View for RspStatus {
    type V = u32;

    closed spec fn view(&self) -> u32 {
        self.bits
    }
}

impl RspStatus {
    /// All flags and signals clear.
    pub fn new() -> (r: Self)
        ensures
            r@ == 0,
    {
        RspStatus { bits: 0 }
    }

    pub fn from_bits(bits: u32) -> (r: Self)
        ensures
            r@ == bits,
    {
        RspStatus { bits }
    }

    pub fn into_bits(self) -> (r: u32)
        ensures
            r == self@,
    {
        self.bits
    }

    pub fn halted(&self) -> (r: bool)
        ensures
            r == (self@ & SP_HALTED != 0),
    {
        self.bits & SP_HALTED != 0
    }

    pub fn broke(&self) -> (r: bool)
        ensures
            r == (self@ & SP_BROKE != 0),
    {
        self.bits & SP_BROKE != 0
    }

    pub fn dma_busy(&self) -> (r: bool)
        ensures
            r == (self@ & SP_DMA_BUSY != 0),
    {
        self.bits & SP_DMA_BUSY != 0
    }

    pub fn dma_full(&self) -> (r: bool)
        ensures
            r == (self@ & SP_DMA_FULL != 0),
    {
        self.bits & SP_DMA_FULL != 0
    }

    pub fn io_busy(&self) -> (r: bool)
        ensures
            r == (self@ & SP_IO_BUSY != 0),
    {
        self.bits & SP_IO_BUSY != 0
    }

    pub fn sstep(&self) -> (r: bool)
        ensures
            r == (self@ & SP_SSTEP != 0),
    {
        self.bits & SP_SSTEP != 0
    }

    pub fn intbreak(&self) -> (r: bool)
        ensures
            r == (self@ & SP_INTBREAK != 0),
    {
        self.bits & SP_INTBREAK != 0
    }

    pub fn signal(&self) -> (r: u8)
        ensures
            r == sp_signal(self@),
    {
        (self.bits >> SP_SIGNAL_SHIFT) as u8
    }

    pub fn set_halted(&mut self, on: bool)
        ensures
            final(self)@ == with_bits(old(self)@, SP_HALTED, on),
    {
        self.bits = set_flag(self.bits, SP_HALTED, on);
    }

    pub fn set_broke(&mut self, on: bool)
        ensures
            final(self)@ == with_bits(old(self)@, SP_BROKE, on),
    {
        self.bits = set_flag(self.bits, SP_BROKE, on);
    }

    pub fn set_dma_busy(&mut self, on: bool)
        ensures
            final(self)@ == with_bits(old(self)@, SP_DMA_BUSY, on),
    {
        self.bits = set_flag(self.bits, SP_DMA_BUSY, on);
    }

    pub fn set_dma_full(&mut self, on: bool)
        ensures
            final(self)@ == with_bits(old(self)@, SP_DMA_FULL, on),
    {
        self.bits = set_flag(self.bits, SP_DMA_FULL, on);
    }

    pub fn set_io_busy(&mut self, on: bool)
        ensures
            final(self)@ == with_bits(old(self)@, SP_IO_BUSY, on),
    {
        self.bits = set_flag(self.bits, SP_IO_BUSY, on);
    }

    pub fn set_sstep(&mut self, on: bool)
        ensures
            final(self)@ == with_bits(old(self)@, SP_SSTEP, on),
    {
        self.bits = set_flag(self.bits, SP_SSTEP, on);
    }

    pub fn set_intbreak(&mut self, on: bool)
        ensures
            final(self)@ == with_bits(old(self)@, SP_INTBREAK, on),
    {
        self.bits = set_flag(self.bits, SP_INTBREAK, on);
    }

    pub fn set_signal(&mut self, signal: u8)
        ensures
            final(self)@ == with_signal(old(self)@, signal),
    {
        self.bits = (self.bits & !(0xffu32 << SP_SIGNAL_SHIFT)) | ((signal as u32) << SP_SIGNAL_SHIFT);
    }
}

/// DP_STATUS as a typed word: eleven flags.
#[derive(Copy, Clone, Debug, PartialEq, Eq, Structural)]
pub struct RdpStatus {
    bits: u32,
}

impl View for RdpStatus {
    type V = u32;

    closed spec fn view(&self) -> u32 {
        self.bits
    }
}

impl RdpStatus {
    /// All flags clear.
    pub fn new() -> (r: Self)
        ensures
            r@ == 0,
    {
        RdpStatus { bits: 0 }
    }

    pub fn from_bits(bits: u32) -> (r: Self)
        ensures
            r@ == bits,
    {
        RdpStatus { bits }
    }

    pub fn into_bits(self) -> (r: u32)
        ensures
            r == self@,
    {
        self.bits
    }

    /// Whether the flag (or flags) `mask` is set.
    pub fn flag(&self, mask: u32) -> (r: bool)
        ensures
            r == (self@ & mask != 0),
    {
        self.bits & mask != 0
    }

    /// Sets (`on`) or clears the flag (or flags) `mask`.
    pub fn set_flag(&mut self, mask: u32, on: bool)
        ensures
            final(self)@ == with_bits(old(self)@, mask, on),
    {
        self.bits = set_flag(self.bits, mask, on);
    }

    pub fn xbus(&self) -> (r: bool)
        ensures
            r == (self@ & DP_XBUS != 0),
    {
        self.flag(DP_XBUS)
    }

    pub fn freeze(&self) -> (r: bool)
        ensures
            r == (self@ & DP_FREEZE != 0),
    {
        self.flag(DP_FREEZE)
    }

    pub fn flush(&self) -> (r: bool)
        ensures
            r == (self@ & DP_FLUSH != 0),
    {
        self.flag(DP_FLUSH)
    }

    pub fn start_gclk(&self) -> (r: bool)
        ensures
            r == (self@ & DP_START_GCLK != 0),
    {
        self.flag(DP_START_GCLK)
    }

    pub fn tmem_busy(&self) -> (r: bool)
        ensures
            r == (self@ & DP_TMEM_BUSY != 0),
    {
        self.flag(DP_TMEM_BUSY)
    }

    pub fn pipe_busy(&self) -> (r: bool)
        ensures
            r == (self@ & DP_PIPE_BUSY != 0),
    {
        self.flag(DP_PIPE_BUSY)
    }

    pub fn buffer_busy(&self) -> (r: bool)
        ensures
            r == (self@ & DP_BUFFER_BUSY != 0),
    {
        self.flag(DP_BUFFER_BUSY)
    }

    pub fn ready(&self) -> (r: bool)
        ensures
            r == (self@ & DP_READY != 0),
    {
        self.flag(DP_READY)
    }

    pub fn dma_busy(&self) -> (r: bool)
        ensures
            r == (self@ & DP_DMA_BUSY != 0),
    {
        self.flag(DP_DMA_BUSY)
    }

    pub fn end_pending(&self) -> (r: bool)
        ensures
            r == (self@ & DP_END_PENDING != 0),
    {
        self.flag(DP_END_PENDING)
    }

    pub fn start_pending(&self) -> (r: bool)
        ensures
            r == (self@ & DP_START_PENDING != 0),
    {
        self.flag(DP_START_PENDING)
    }
}

/// `v` with the bits of `mask` set or cleared.
fn set_flag(v: u32, mask: u32, on: bool) -> (r: u32)
    ensures
        r == with_bits(v, mask, on),
{
    if on {
        v | mask
    } else {
        v & !mask
    }
}

/// Whether one register operation takes `o` to `n`: a register write
/// (`Registers::set`), a read (`get`, which may take the semaphore),
/// handing out the requested DMA (`take_dma_type`), the end of an RSP DMA
/// (`finish_rsp_dma`), a restart (`try_restart`), a halt, a BREAK, or a
/// change of DP_STATUS's ready or buffer-busy flag.
pub open spec fn register_step(o: RegistersView, n: RegistersView) -> bool {
    ||| exists|oi: RcpInterrupt, ni: RcpInterrupt, index: int, value: Masked|
        #[trigger] write_post(o, n, oi, ni, index, value)
    ||| n == o
    ||| n == (RegistersView { sp_semaphore: true, ..o })
    ||| exists|rcp: RcpInterrupt|
        n == (RegistersView {
            dma_type: DmaType::Idle,
            running: o.sp_status & SP_HALTED == 0 && !#[trigger] rcp.spec_has(RcpIntType::SP),
            ..o
        })
    ||| n == (RegistersView { sp_dma_spaddr: n.sp_dma_spaddr, sp_dma_ramaddr: n.sp_dma_ramaddr, ..o })
    ||| exists|rcp: RcpInterrupt| n == (RegistersView { running: #[trigger] can_run(o, rcp), ..o })
    ||| n == (RegistersView { sp_status: o.sp_status | SP_HALTED, running: false, ..o })
    ||| n == (RegistersView { sp_status: o.sp_status | SP_HALTED | SP_BROKE, running: false, ..o })
    ||| n == (RegistersView { dp_status: n.dp_status, ..o })
}

/// The RSP is not reported running while SP_STATUS says it is halted.
pub open spec fn halted_not_running(v: RegistersView) -> bool {
    v.running ==> v.sp_status & SP_HALTED == 0
}

/// A halted RSP is never reported running: it holds after reset, and
/// every register operation keeps it.
pub proof fn lemma_halted_never_running(o: RegistersView, n: RegistersView)
    requires
        halted_not_running(o),
        register_step(o, n),
    ensures
        halted_not_running(Registers::initial()),
        halted_not_running(n),
{
    if exists|oi: RcpInterrupt, ni: RcpInterrupt, index: int, value: Masked|
        #[trigger] write_post(o, n, oi, ni, index, value) {
        let (oi, ni, index, value) = choose|oi: RcpInterrupt, ni: RcpInterrupt, index: int, value: Masked|
            #[trigger] write_post(o, n, oi, ni, index, value);
        assert(n == written(o, ni, index, value));
    }
}

} // verus!
