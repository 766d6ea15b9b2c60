//! The conditional trap instructions. Traps are not emulated, so each
//! runs only where its condition does not hold, and then does nothing.

use crate::mips::instruction::arithmetic::reg_d;
use crate::mips::opcode::{field_rs, field_rt, registers};
use crate::mips::Core;
use vstd::prelude::*;

verus! {

/// TEQ: traps when rs equals rt.
pub fn teq(core: &mut Core, word: u32)
    requires
        reg_d(old(core)@, field_rs(word)) != reg_d(old(core)@, field_rt(word)),
    ensures
        final(core)@ == old(core)@,
{
    let (rs, rt, _rd) = registers(word);
    let condition = core.getd(rs) == core.getd(rt);
    core.trap_if(condition);
}

/// TNE: traps when rs differs from rt.
pub fn tne(core: &mut Core, word: u32)
    requires
        reg_d(old(core)@, field_rs(word)) == reg_d(old(core)@, field_rt(word)),
    ensures
        final(core)@ == old(core)@,
{
    let (rs, rt, _rd) = registers(word);
    let condition = core.getd(rs) != core.getd(rt);
    core.trap_if(condition);
}

} // verus!
