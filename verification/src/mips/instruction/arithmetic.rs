//! The arithmetic and comparison instructions.

use crate::mips::opcode::{field_rd, field_rs, field_rt, field_sa, field_simm, registers};
use crate::mips::{add32, add64, setd_regs, setw_regs, sub32, sub64, wrapping_add32, wrapping_add64, wrapping_sub32, wrapping_sub64, Core, CoreView};
use vstd::prelude::*;

verus! {

/// The low 32 bits of register `reg`.
pub open spec fn reg_w(v: CoreView, reg: int) -> u32 {
    v.regs[reg] as u32
}

/// Register `reg`.
pub open spec fn reg_d(v: CoreView, reg: int) -> u64 {
    v.regs[reg]
}

/// The state after a 32-bit result is written to register `reg`.
pub open spec fn wrote_w(old: CoreView, new: CoreView, reg: int, value: u32) -> bool {
    new == (CoreView { regs: setw_regs(old.regs, reg, value), ..old })
}

/// The state after a 64-bit result is written to register `reg`.
pub open spec fn wrote_d(old: CoreView, new: CoreView, reg: int, value: u64) -> bool {
    new == (CoreView { regs: setd_regs(old.config, old.regs, reg, value), ..old })
}

fn simm(word: u32) -> (r: i16)
    ensures
        r == field_simm(word),
{
    (word & 0xffff) as u16 as i16
}

/// ADDI: rt = rs + immediate, as signed 32-bit values; the sum must not overflow (overflow traps are not emulated).
pub fn addi(core: &mut Core, word: u32)
    requires
        i32::MIN <= (reg_w(old(core)@, field_rs(word)) as i32) as int + field_simm(word) as int <= i32::MAX,
    ensures
        wrote_w(old(core)@, final(core)@, field_rt(word), (((reg_w(old(core)@, field_rs(word)) as i32) as int + field_simm(word) as int) as i32) as u32),
{
    let (rs, rt, rd) = registers(word);
    let result = core.getw(rs) as i32 + simm(word) as i32;
    core.setw(rt, result as u32);
}

/// ADDIU: rt = rs + immediate, modulo 2^32.
pub fn addiu(core: &mut Core, word: u32)
    ensures
        wrote_w(old(core)@, final(core)@, field_rt(word), add32(reg_w(old(core)@, field_rs(word)), field_simm(word) as u32)),
{
    let (rs, rt, rd) = registers(word);
    let result = wrapping_add32(core.getw(rs), simm(word) as u32);
    core.setw(rt, result);
}

/// DADDI: rt = rs + immediate, as signed 64-bit values; the sum must not overflow.
pub fn daddi(core: &mut Core, word: u32)
    requires
        i64::MIN <= (reg_d(old(core)@, field_rs(word)) as i64) as int + field_simm(word) as int <= i64::MAX,
    ensures
        wrote_d(old(core)@, final(core)@, field_rt(word), (((reg_d(old(core)@, field_rs(word)) as i64) as int + field_simm(word) as int) as i64) as u64),
{
    let (rs, rt, rd) = registers(word);
    let result = core.getd(rs) as i64 + simm(word) as i64;
    core.setd(rt, result as u64);
}

/// DADDIU: rt = rs + immediate, modulo 2^64.
pub fn daddiu(core: &mut Core, word: u32)
    ensures
        wrote_d(old(core)@, final(core)@, field_rt(word), add64(reg_d(old(core)@, field_rs(word)), field_simm(word) as u64)),
{
    let (rs, rt, rd) = registers(word);
    let result = wrapping_add64(core.getd(rs), simm(word) as u64);
    core.setd(rt, result);
}

/// SLTI: rt = 1 if rs is less than the immediate as signed values, else 0.
pub fn slti(core: &mut Core, word: u32)
    ensures
        wrote_d(old(core)@, final(core)@, field_rt(word), if (reg_d(old(core)@, field_rs(word)) as i64) < field_simm(word) as i64 { 1u64 } else { 0u64 }),
{
    let (rs, rt, rd) = registers(word);
    let result = (core.getd(rs) as i64) < simm(word) as i64;
    core.setd(rt, if result { 1 } else { 0 });
}

/// SLTIU: rt = 1 if rs is less than the sign-extended immediate as unsigned values, else 0.
pub fn sltiu(core: &mut Core, word: u32)
    ensures
        wrote_d(old(core)@, final(core)@, field_rt(word), if reg_d(old(core)@, field_rs(word)) < field_simm(word) as u64 { 1u64 } else { 0u64 }),
{
    let (rs, rt, rd) = registers(word);
    let result = core.getd(rs) < simm(word) as u64;
    core.setd(rt, if result { 1 } else { 0 });
}

/// ADD: rd = rs + rt, as signed 32-bit values; the sum must not overflow.
pub fn add(core: &mut Core, word: u32)
    requires
        i32::MIN <= (reg_w(old(core)@, field_rs(word)) as i32) as int + (reg_w(old(core)@, field_rt(word)) as i32) as int <= i32::MAX,
    ensures
        wrote_w(old(core)@, final(core)@, field_rd(word), (((reg_w(old(core)@, field_rs(word)) as i32) as int + (reg_w(old(core)@, field_rt(word)) as i32) as int) as i32) as u32),
{
    let (rs, rt, rd) = registers(word);
    let result = core.getw(rs) as i32 + core.getw(rt) as i32;
    core.setw(rd, result as u32);
}

/// ADDU: rd = rs + rt, modulo 2^32.
pub fn addu(core: &mut Core, word: u32)
    ensures
        wrote_w(old(core)@, final(core)@, field_rd(word), add32(reg_w(old(core)@, field_rs(word)), reg_w(old(core)@, field_rt(word)))),
{
    let (rs, rt, rd) = registers(word);
    let result = wrapping_add32(core.getw(rs), core.getw(rt));
    core.setw(rd, result);
}

/// SUB: rd = rs - rt, as signed 32-bit values; the difference must not overflow.
pub fn sub(core: &mut Core, word: u32)
    requires
        i32::MIN <= (reg_w(old(core)@, field_rs(word)) as i32) as int - (reg_w(old(core)@, field_rt(word)) as i32) as int <= i32::MAX,
    ensures
        wrote_w(old(core)@, final(core)@, field_rd(word), (((reg_w(old(core)@, field_rs(word)) as i32) as int - (reg_w(old(core)@, field_rt(word)) as i32) as int) as i32) as u32),
{
    let (rs, rt, rd) = registers(word);
    let result = core.getw(rs) as i32 - core.getw(rt) as i32;
    core.setw(rd, result as u32);
}

/// SUBU: rd = rs - rt, modulo 2^32.
pub fn subu(core: &mut Core, word: u32)
    ensures
        wrote_w(old(core)@, final(core)@, field_rd(word), sub32(reg_w(old(core)@, field_rs(word)), reg_w(old(core)@, field_rt(word)))),
{
    let (rs, rt, rd) = registers(word);
    let result = wrapping_sub32(core.getw(rs), core.getw(rt));
    core.setw(rd, result);
}

/// DADD: rd = rs + rt, as signed 64-bit values; the sum must not overflow.
pub fn dadd(core: &mut Core, word: u32)
    requires
        i64::MIN <= (reg_d(old(core)@, field_rs(word)) as i64) as int + (reg_d(old(core)@, field_rt(word)) as i64) as int <= i64::MAX,
    ensures
        wrote_d(old(core)@, final(core)@, field_rd(word), (((reg_d(old(core)@, field_rs(word)) as i64) as int + (reg_d(old(core)@, field_rt(word)) as i64) as int) as i64) as u64),
{
    let (rs, rt, rd) = registers(word);
    let result = core.getd(rs) as i64 + core.getd(rt) as i64;
    core.setd(rd, result as u64);
}

/// DADDU: rd = rs + rt, modulo 2^64.
pub fn daddu(core: &mut Core, word: u32)
    ensures
        wrote_d(old(core)@, final(core)@, field_rd(word), add64(reg_d(old(core)@, field_rs(word)), reg_d(old(core)@, field_rt(word)))),
{
    let (rs, rt, rd) = registers(word);
    let result = wrapping_add64(core.getd(rs), core.getd(rt));
    core.setd(rd, result);
}

/// DSUB: rd = rs - rt, as signed 64-bit values; the difference must not overflow.
pub fn dsub(core: &mut Core, word: u32)
    requires
        i64::MIN <= (reg_d(old(core)@, field_rs(word)) as i64) as int - (reg_d(old(core)@, field_rt(word)) as i64) as int <= i64::MAX,
    ensures
        wrote_d(old(core)@, final(core)@, field_rd(word), (((reg_d(old(core)@, field_rs(word)) as i64) as int - (reg_d(old(core)@, field_rt(word)) as i64) as int) as i64) as u64),
{
    let (rs, rt, rd) = registers(word);
    let result = core.getd(rs) as i64 - core.getd(rt) as i64;
    core.setd(rd, result as u64);
}

/// DSUBU: rd = rs - rt, modulo 2^64.
pub fn dsubu(core: &mut Core, word: u32)
    ensures
        wrote_d(old(core)@, final(core)@, field_rd(word), sub64(reg_d(old(core)@, field_rs(word)), reg_d(old(core)@, field_rt(word)))),
{
    let (rs, rt, rd) = registers(word);
    let result = wrapping_sub64(core.getd(rs), core.getd(rt));
    core.setd(rd, result);
}

/// SLT: rd = 1 if rs is less than rt as signed values, else 0.
pub fn slt(core: &mut Core, word: u32)
    ensures
        wrote_d(old(core)@, final(core)@, field_rd(word), if (reg_d(old(core)@, field_rs(word)) as i64) < (reg_d(old(core)@, field_rt(word)) as i64) { 1u64 } else { 0u64 }),
{
    let (rs, rt, rd) = registers(word);
    let result = (core.getd(rs) as i64) < core.getd(rt) as i64;
    core.setd(rd, if result { 1 } else { 0 });
}

/// SLTU: rd = 1 if rs is less than rt as unsigned values, else 0.
pub fn sltu(core: &mut Core, word: u32)
    ensures
        wrote_d(old(core)@, final(core)@, field_rd(word), if reg_d(old(core)@, field_rs(word)) < reg_d(old(core)@, field_rt(word)) { 1u64 } else { 0u64 }),
{
    let (rs, rt, rd) = registers(word);
    let result = core.getd(rs) < core.getd(rt);
    core.setd(rd, if result { 1 } else { 0 });
}

} // verus!
