//! The RDP command buffer registers of the first register layout.

use crate::dma::Dma;
use vstd::prelude::*;

verus! {

pub const START_PENDING: u32 = 0x0400;

pub struct RegistersView {
    pub dma_requested: Option<Dma>,
    pub start: u32,
    pub end: u32,
    pub status: u32,
}

pub struct Registers {
    dma_requested: Option<Dma>,
    start: u32,
    end: u32,
    status: u32,
}

impl View for Registers {
    type V = RegistersView;

    closed spec fn view(&self) -> RegistersView {
        RegistersView {
            dma_requested: self.dma_requested,
            start: self.start,
            end: self.end,
            status: self.status,
        }
    }
}

impl Registers {
    pub const NAMES: [&'static str; 8] = [
        "CMD_START",
        "CMD_END",
        "CMD_CURRENT",
        "CMD_STATUS",
        "CMD_CLOCK",
        "CMD_BUSY",
        "CMD_PIPE_BUSY",
        "CMD_TMEM_BUSY",
    ];

    pub fn new() -> (r: Self)
        ensures
            r@ == (RegistersView { dma_requested: None, start: 0, end: 0, status: 0 }),
    {
        Registers { dma_requested: None, start: 0, end: 0, status: 0 }
    }

    /// Reads CMD_START (0), CMD_END (1) or CMD_STATUS (3).
    pub fn get(&self, index: usize) -> (r: u32)
        requires
            index == 0 || index == 1 || index == 3,
        ensures
            index == 0 ==> r == self@.start,
            index == 1 ==> r == self@.end,
            index == 3 ==> r == self@.status,
    {
        if index == 0 {
            self.start
        } else if index == 1 {
            self.end
        } else {
            self.status
        }
    }

    /// Writes CMD_START (0), which marks a start as pending, or CMD_END
    /// (1), which requests the transfer of the commands from the start to
    /// the new end.
    pub fn set(&mut self, index: usize, value: u32)
        requires
            index == 0 || index == 1,
            index == 1 ==> value & 0x00ff_ffff >= old(self)@.start,
        ensures
            index == 0 ==> final(self)@ == (RegistersView {
                start: value & 0x00ff_ffff,
                status: old(self)@.status | START_PENDING,
                ..old(self)@
            }),
            index == 1 ==> final(self)@ == (RegistersView {
                end: value & 0x00ff_ffff,
                status: old(self)@.status & !START_PENDING,
                dma_requested: Some(
                    Dma {
                        src_addr: old(self)@.start,
                        dst_addr: 0,
                        len: ((value & 0x00ff_ffff) - old(self)@.start) as u32,
                        reverse: false,
                    },
                ),
                ..old(self)@
            }),
    {
        if index == 0 {
            self.start = value & 0x00ff_ffff;
            self.status = self.status | START_PENDING;
        } else {
            self.end = value & 0x00ff_ffff;
            self.status = self.status & !START_PENDING;

            self.dma_requested = Some(
                Dma { src_addr: self.start, dst_addr: 0, len: self.end - self.start, reverse: false },
            );
        }
    }
}

} // verus!
