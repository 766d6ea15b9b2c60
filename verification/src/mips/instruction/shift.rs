//! The shift instructions.

use crate::mips::opcode::{field_rd, field_rs, field_rt, field_sa, registers};
use crate::mips::instruction::arithmetic::{reg_d, reg_w, wrote_d, wrote_w};
use crate::mips::Core;
use vstd::prelude::*;

verus! {

fn shift_amount(word: u32) -> (r: u32)
    ensures
        r == field_sa(word),
        r < 32,
{
    proof {
        crate::bits::lemma_mask_bounds();
    }
    (word >> 6u32) & 31
}

/// SLL: rd = rt shifted left by sa (32-bit).
pub fn sll(core: &mut Core, word: u32)
    ensures
        wrote_w(old(core)@, final(core)@, field_rd(word), reg_w(old(core)@, field_rt(word)) << field_sa(word)),
{
    let (rs, rt, rd) = registers(word);
    let sa = shift_amount(word);
    proof {
        crate::bits::lemma_mask_bounds();
    }
    let result = core.getw(rt) << sa;
    core.setw(rd, result);
}

/// SRL: rd = rt shifted right logically by sa (32-bit).
pub fn srl(core: &mut Core, word: u32)
    ensures
        wrote_w(old(core)@, final(core)@, field_rd(word), reg_w(old(core)@, field_rt(word)) >> field_sa(word)),
{
    let (rs, rt, rd) = registers(word);
    let sa = shift_amount(word);
    proof {
        crate::bits::lemma_mask_bounds();
    }
    let result = core.getw(rt) >> sa;
    core.setw(rd, result);
}

/// SRA: rd = rt shifted right arithmetically by sa, from the 64-bit register.
pub fn sra(core: &mut Core, word: u32)
    ensures
        wrote_w(old(core)@, final(core)@, field_rd(word), (((reg_d(old(core)@, field_rt(word)) as i64) >> field_sa(word)) as u32)),
{
    let (rs, rt, rd) = registers(word);
    let sa = shift_amount(word);
    proof {
        crate::bits::lemma_mask_bounds();
    }
    let result = (core.getd(rt) as i64) >> sa;
    core.setw(rd, result as u32);
}

/// SLLV: rd = rt shifted left by the low five bits of rs.
pub fn sllv(core: &mut Core, word: u32)
    ensures
        wrote_w(old(core)@, final(core)@, field_rd(word), reg_w(old(core)@, field_rt(word)) << (reg_w(old(core)@, field_rs(word)) & 31)),
{
    let (rs, rt, rd) = registers(word);
    let sa = shift_amount(word);
    proof {
        crate::bits::lemma_mask_bounds();
    }
    let result = core.getw(rt) << (core.getw(rs) & 31);
    core.setw(rd, result);
}

/// SRLV: rd = rt shifted right logically by the low five bits of rs.
pub fn srlv(core: &mut Core, word: u32)
    ensures
        wrote_w(old(core)@, final(core)@, field_rd(word), reg_w(old(core)@, field_rt(word)) >> (reg_w(old(core)@, field_rs(word)) & 31)),
{
    let (rs, rt, rd) = registers(word);
    let sa = shift_amount(word);
    proof {
        crate::bits::lemma_mask_bounds();
    }
    let result = core.getw(rt) >> (core.getw(rs) & 31);
    core.setw(rd, result);
}

/// SRAV: rd = rt shifted right arithmetically by the low five bits of rs.
pub fn srav(core: &mut Core, word: u32)
    ensures
        wrote_w(old(core)@, final(core)@, field_rd(word), (((reg_d(old(core)@, field_rt(word)) as i64) >> (reg_w(old(core)@, field_rs(word)) & 31)) as u32)),
{
    let (rs, rt, rd) = registers(word);
    let sa = shift_amount(word);
    proof {
        crate::bits::lemma_mask_bounds();
    }
    let result = (core.getd(rt) as i64) >> (core.getw(rs) & 31);
    core.setw(rd, result as u32);
}

/// DSLL: rd = rt shifted left by sa (64-bit).
pub fn dsll(core: &mut Core, word: u32)
    ensures
        wrote_d(old(core)@, final(core)@, field_rd(word), reg_d(old(core)@, field_rt(word)) << field_sa(word)),
{
    let (rs, rt, rd) = registers(word);
    let sa = shift_amount(word);
    proof {
        crate::bits::lemma_mask_bounds();
    }
    let result = core.getd(rt) << sa;
    core.setd(rd, result);
}

/// DSRL: rd = rt shifted right logically by sa (64-bit).
pub fn dsrl(core: &mut Core, word: u32)
    ensures
        wrote_d(old(core)@, final(core)@, field_rd(word), reg_d(old(core)@, field_rt(word)) >> field_sa(word)),
{
    let (rs, rt, rd) = registers(word);
    let sa = shift_amount(word);
    proof {
        crate::bits::lemma_mask_bounds();
    }
    let result = core.getd(rt) >> sa;
    core.setd(rd, result);
}

/// DSRA: rd = rt shifted right arithmetically by sa (64-bit).
pub fn dsra(core: &mut Core, word: u32)
    ensures
        wrote_d(old(core)@, final(core)@, field_rd(word), (((reg_d(old(core)@, field_rt(word)) as i64) >> field_sa(word)) as u64)),
{
    let (rs, rt, rd) = registers(word);
    let sa = shift_amount(word);
    proof {
        crate::bits::lemma_mask_bounds();
    }
    let result = (core.getd(rt) as i64) >> sa;
    core.setd(rd, result as u64);
}

/// DSLL32: rd = rt shifted left by sa + 32.
pub fn dsll32(core: &mut Core, word: u32)
    ensures
        wrote_d(old(core)@, final(core)@, field_rd(word), reg_d(old(core)@, field_rt(word)) << ((field_sa(word) + 32) as u32)),
{
    let (rs, rt, rd) = registers(word);
    let sa = shift_amount(word);
    proof {
        crate::bits::lemma_mask_bounds();
    }
    let result = core.getd(rt) << (sa + 32);
    core.setd(rd, result);
}

/// DSRL32: rd = rt shifted right logically by sa + 32.
pub fn dsrl32(core: &mut Core, word: u32)
    ensures
        wrote_d(old(core)@, final(core)@, field_rd(word), reg_d(old(core)@, field_rt(word)) >> ((field_sa(word) + 32) as u32)),
{
    let (rs, rt, rd) = registers(word);
    let sa = shift_amount(word);
    proof {
        crate::bits::lemma_mask_bounds();
    }
    let result = core.getd(rt) >> (sa + 32);
    core.setd(rd, result);
}

/// DSRA32: rd = rt shifted right arithmetically by sa + 32.
pub fn dsra32(core: &mut Core, word: u32)
    ensures
        wrote_d(old(core)@, final(core)@, field_rd(word), (((reg_d(old(core)@, field_rt(word)) as i64) >> ((field_sa(word) + 32) as u32)) as u64)),
{
    let (rs, rt, rd) = registers(word);
    let sa = shift_amount(word);
    proof {
        crate::bits::lemma_mask_bounds();
    }
    let result = (core.getd(rt) as i64) >> (sa + 32);
    core.setd(rd, result as u64);
}

/// DSLLV: rd = rt shifted left by the low six bits of rs.
pub fn dsllv(core: &mut Core, word: u32)
    ensures
        wrote_d(old(core)@, final(core)@, field_rd(word), reg_d(old(core)@, field_rt(word)) << (reg_d(old(core)@, field_rs(word)) & 63)),
{
    let (rs, rt, rd) = registers(word);
    let sa = shift_amount(word);
    proof {
        crate::bits::lemma_mask_bounds();
    }
    let result = core.getd(rt) << (core.getd(rs) & 63);
    core.setd(rd, result);
}

/// DSRLV: rd = rt shifted right logically by the low six bits of rs.
pub fn dsrlv(core: &mut Core, word: u32)
    ensures
        wrote_d(old(core)@, final(core)@, field_rd(word), reg_d(old(core)@, field_rt(word)) >> (reg_d(old(core)@, field_rs(word)) & 63)),
{
    let (rs, rt, rd) = registers(word);
    let sa = shift_amount(word);
    proof {
        crate::bits::lemma_mask_bounds();
    }
    let result = core.getd(rt) >> (core.getd(rs) & 63);
    core.setd(rd, result);
}

/// DSRAV: rd = rt shifted right arithmetically by the low six bits of rs.
pub fn dsrav(core: &mut Core, word: u32)
    ensures
        wrote_d(old(core)@, final(core)@, field_rd(word), (((reg_d(old(core)@, field_rt(word)) as i64) >> (reg_d(old(core)@, field_rs(word)) & 63)) as u64)),
{
    let (rs, rt, rd) = registers(word);
    let sa = shift_amount(word);
    proof {
        crate::bits::lemma_mask_bounds();
    }
    let result = (core.getd(rt) as i64) >> (core.getd(rs) & 63);
    core.setd(rd, result as u64);
}

} // verus!
