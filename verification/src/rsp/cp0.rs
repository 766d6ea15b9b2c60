//! RSP coprocessor 0: the SP and DP command registers.

pub mod registers;

use crate::interrupt::{RcpIntType, RcpInterrupt};
use crate::memory::Masked;
use crate::mips::opcode::{field_rd, field_rt, registers as fields};
use crate::mips::{setw_regs, Core, CoreView};
use registers::{is_writable_index, read_value, write_post, Registers, RegistersView, SP_BROKE, SP_HALTED, SP_INTBREAK};
use vstd::prelude::*;

verus! {

pub struct Cp0 {
    regs: Registers,
}

impl Cp0 {
    pub closed spec fn spec_regs(&self) -> Registers {
        self.regs
    }

    pub fn new() -> (r: Self)
        ensures
            r.spec_regs()@ == Registers::initial(),
    {
        Cp0 { regs: Registers::new() }
    }

    /// RSP addresses wrap at 4 KiB.
    pub fn translate(&self, address: u32) -> (r: u32)
        ensures
            r == address & 0xfff,
    {
        address & 0xfff
    }

    /// MFC0: moves SP/DP register `rd` into general-purpose register `rt`
    /// (reading SP_SEMAPHORE sets it).
    pub fn mfc0(core: &mut Core, cp0: &mut Cp0, word: u32)
        requires
            field_rd(word) <= 11,
        ensures
            final(core)@ == (CoreView {
                regs: setw_regs(
                    old(core)@.regs,
                    field_rt(word),
                    read_value(old(cp0).spec_regs()@, field_rd(word)),
                ),
                ..old(core)@
            }),
            field_rd(word) == 7 ==> final(cp0).spec_regs()@ == (RegistersView {
                sp_semaphore: true,
                ..old(cp0).spec_regs()@
            }),
            field_rd(word) != 7 ==> final(cp0).spec_regs()@ == old(cp0).spec_regs()@,
    {
        let (_rs, rt, rd) = fields(word);
        let value = cp0.regs.get(rd);
        core.setw(rt, value);
    }

    /// MTC0: writes the low word of general-purpose register `rt` to SP/DP
    /// register `rd`.
    pub fn mtc0(core: &Core, cp0: &mut Cp0, rcp_int: &mut RcpInterrupt, word: u32)
        requires
            old(rcp_int).wf(),
            is_writable_index(field_rd(word) as usize),
            field_rd(word) == 9 ==> old(cp0).spec_regs()@.dma_type is Idle,
        ensures
            write_post(
                old(cp0).spec_regs()@,
                final(cp0).spec_regs()@,
                *old(rcp_int),
                *final(rcp_int),
                field_rd(word),
                Masked { value: core@.regs[field_rt(word)] as u32, mask: 0xffff_ffff },
            ),
    {
        let (_rs, rt, rd) = fields(word);
        let value = core.getw(rt);
        cp0.regs.set(rcp_int, rd, Masked::full(value));
    }

    /// BREAK: halts the RSP and raises the SP interrupt if interrupt on
    /// break is enabled.
    pub fn break_(cp0: &mut Cp0, rcp_int: &mut RcpInterrupt)
        ensures
            final(cp0).spec_regs()@ == (RegistersView {
                sp_status: old(cp0).spec_regs()@.sp_status | SP_HALTED | SP_BROKE,
                running: false,
                ..old(cp0).spec_regs()@
            }),
            old(cp0).spec_regs()@.sp_status & SP_INTBREAK != 0 ==> final(rcp_int).raised_from(
                *old(rcp_int),
                RcpIntType::SP,
            ),
            old(cp0).spec_regs()@.sp_status & SP_INTBREAK == 0 ==> *final(rcp_int)
                == *old(rcp_int),
    {
        cp0.regs.break_(rcp_int);
    }

    pub fn regs(&self) -> (r: &Registers)
        ensures
            *r == self.spec_regs(),
    {
        &self.regs
    }

    pub fn regs_mut(&mut self) -> (r: &mut Registers)
        ensures
            *r == old(self).spec_regs(),
            final(self).spec_regs() == *final(r),
    {
        &mut self.regs
    }
}

} // verus!
