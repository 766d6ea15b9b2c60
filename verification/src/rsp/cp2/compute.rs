//! The vector compute instructions: each works lane by lane on register
//! `vs` and the broadcast of register `vt`, updates the accumulator and
//! the flags of the lane, and writes register `vd`.
//!
//! Lane `k` of the little-endian arrays reads and writes the flag bits of
//! element `7 - k` (the select instructions read carry and
//! compare-extension at bit `k`, which no lane of theirs writes), so every
//! lane is computed from the flags as they were before the instruction.

use super::vector::{broadcast_source, spec_lane};
use super::{flag, get_flag, lemma_no_flags, sext48, set_flag, view_wf, Cp2, Cp2View, Flags};
use vstd::prelude::*;

verus! {

/// The operation that a compute instruction applies to each lane.
#[derive(Copy, Clone, Debug, PartialEq, Eq, Structural)]
pub enum ComputeOp {
    Vmulf,
    Vmulu,
    Vmacf,
    Vmacu,
    Vmudl,
    Vmudm,
    Vmudn,
    Vmudh,
    Vmadl,
    Vmadm,
    Vmadn,
    Vmadh,
    Vadd,
    Vsub,
    Vabs,
    Vaddc,
    Vsubc,
    Vand,
    Vnand,
    Vor,
    Vnor,
    Vxor,
    Vnxor,
    Vlt,
    Veq,
    Vne,
    Vge,
    Vcl,
    Vch,
    Vcr,
    Vmrg,
}

/// The five flag bits of one element.
#[derive(Copy, Clone, Debug, PartialEq, Eq, Structural)]
pub struct LaneFlags {
    pub carry: bool,
    pub not_equal: bool,
    pub compare: bool,
    pub clip_compare: bool,
    pub compare_extension: bool,
}

/// What one lane produces: the result, the new accumulator value (before
/// sign extension) and the flags of its element.
#[derive(Copy, Clone, Debug, PartialEq, Eq, Structural)]
pub struct LaneOut {
    pub result: u16,
    pub acc: u64,
    pub flags: LaneFlags,
}

/// The flag bits of element `j`.
pub open spec fn lane_flags(f: Flags, j: int) -> LaneFlags {
    LaneFlags {
        carry: flag(f.carry, j),
        not_equal: flag(f.not_equal, j),
        compare: flag(f.compare, j),
        clip_compare: flag(f.clip_compare, j),
        compare_extension: flag(f.compare_extension, j),
    }
}

/// A lane as a signed 16-bit value.
pub open spec fn s16(x: u16) -> int {
    x as i16 as int
}

/// An accumulator value as a signed 64-bit value.
pub open spec fn acc_signed(acc: u64) -> int {
    acc as i64 as int
}

/// `x` saturated to the signed 16-bit range.
pub open spec fn clamp_i16(x: int) -> i16 {
    if x < -32768 {
        -32768i16
    } else if x > 32767 {
        32767i16
    } else {
        x as i16
    }
}

/// `x` wrapped into the signed 16-bit range, for `x` within one wrap of it.
pub open spec fn wrap16(x: int) -> i16 {
    if x > 32767 {
        (x - 0x1_0000) as i16
    } else if x < -32768 {
        (x + 0x1_0000) as i16
    } else {
        x as i16
    }
}

/// The accumulator value with its low 16 bits replaced.
pub open spec fn low16(acc: u64, x: u16) -> u64 {
    (acc & !0xffffu64) | (x as u64)
}

/// The signed value of accumulator bits 16-47.
pub open spec fn acc_middle(value: u64) -> i32 {
    ((value >> 16u64) as u32) as i32
}

/// Bits 16-31 of a 48-bit accumulator value, saturated to the signed
/// 16-bit range as a whole.
pub open spec fn spec_clamp_signed(value: u64) -> u16 {
    if acc_middle(value) < -32768 {
        0x8000
    } else if acc_middle(value) > 32767 {
        0x7fff
    } else {
        (value >> 16u64) as u16
    }
}

/// Bits 0-15 of a 48-bit accumulator value, saturated by the signed
/// value of bits 16-47: zero below, 0xffff above.
pub open spec fn spec_clamp_signed_low(value: u64) -> u16 {
    if acc_middle(value) < -32768 {
        0
    } else if acc_middle(value) > 32767 {
        0xffff
    } else {
        value as u16
    }
}

/// The result of an unsigned fractional multiply from the accumulator.
pub open spec fn mulu_result(a: u64) -> u16 {
    if ((a >> 32u64) as i16) < 0 {
        0
    } else if (((a >> 32u64) as i16) ^ ((a >> 16u64) as i16)) < 0 {
        0xffff
    } else {
        (a >> 16u64) as u16
    }
}

/// The result of an unsigned fractional multiply-accumulate.
pub open spec fn macu_result(a: u64) -> u16 {
    if ((a >> 32u64) as i16) < 0 {
        0
    } else if ((a >> 32u64) as u16) != 0 || ((a >> 16u64) as i16) < 0 {
        0xffff
    } else {
        (a >> 16u64) as u16
    }
}

/// Bits 16-47 of an accumulator value, saturated to 16 bits.
pub open spec fn clamp_middle(a: u64) -> u16 {
    clamp_i16(((a >> 16u64) as i32) as int) as u16
}

/// The two's complement negation of a lane.
pub open spec fn neg16(r: u16) -> u16 {
    wrap16(0 - s16(r)) as u16
}

pub open spec fn bit(b: bool) -> int {
    if b {
        1
    } else {
        0
    }
}

pub open spec fn out(result: u16, acc: u64, flags: LaneFlags) -> LaneOut {
    LaneOut { result, acc, flags }
}

/// One lane of an arithmetic instruction.
pub open spec fn arith_lane(op: ComputeOp, own: LaneFlags, acc: u64, l: u16, r: u16) -> LaneOut {
    match op {
        ComputeOp::Vmulf => {
            let a = ((0x8000 + s16(l) * s16(r) * 2) as u64) & 0xffff_ffff_ffffu64;
            out(spec_clamp_signed(a), a, own)
        },
        ComputeOp::Vmulu => {
            let a = ((0x8000 + s16(l) * s16(r) * 2) as u64) & 0xffff_ffff_ffffu64;
            out(mulu_result(a), a, own)
        },
        ComputeOp::Vmacf => {
            let a = ((acc_signed(acc) + s16(l) * s16(r) * 2) as u64) & 0xffff_ffff_ffffu64;
            out(spec_clamp_signed(a), a, own)
        },
        ComputeOp::Vmacu => {
            let a = ((acc_signed(acc) + s16(l) * s16(r) * 2) as u64) & 0xffff_ffff_ffffu64;
            out(macu_result(a), a, own)
        },
        ComputeOp::Vmudl => {
            let a = ((l as int * r as int) / 0x1_0000) as u64;
            out(a as u16, a, own)
        },
        ComputeOp::Vmudm => {
            let a = (s16(l) * (r as int)) as u64;
            out(clamp_middle(a), a, own)
        },
        ComputeOp::Vmudn => {
            let a = ((l as int) * s16(r)) as u64;
            out(a as u16, a, own)
        },
        ComputeOp::Vmudh => {
            let a = (s16(l) * s16(r) * 0x1_0000) as u64;
            out(clamp_middle(a), a, own)
        },
        ComputeOp::Vmadl => {
            let a = ((acc_signed(acc) + (l as int * r as int) / 0x1_0000) as u64)
                & 0xffff_ffff_ffffu64;
            out(spec_clamp_signed_low(a), a, own)
        },
        ComputeOp::Vmadm => {
            let a = (acc_signed(acc) + s16(l) * (r as int)) as u64;
            out(clamp_middle(a), a, own)
        },
        ComputeOp::Vmadn => {
            let a = ((acc_signed(acc) + (l as int) * s16(r)) as u64) & 0xffff_ffff_ffffu64;
            out(spec_clamp_signed_low(a), a, own)
        },
        ComputeOp::Vmadh => {
            let a = (acc_signed(acc) + s16(l) * s16(r) * 0x1_0000) as u64;
            out(clamp_middle(a), a, own)
        },
        ComputeOp::Vadd => {
            let sum = s16(l) + s16(r) + bit(own.carry);
            out(clamp_i16(sum) as u16, low16(acc, sum as u16), own)
        },
        ComputeOp::Vsub => {
            let diff = s16(l) - s16(r) - bit(own.carry);
            out(clamp_i16(diff) as u16, low16(acc, diff as u16), own)
        },
        ComputeOp::Vabs => {
            let (res, acc_res) = if s16(l) < 0 {
                if r == 0x8000 {
                    (0x7fffu16, 0x8000u16)
                } else {
                    ((0 - s16(r)) as i16 as u16, (0 - s16(r)) as i16 as u16)
                }
            } else if s16(l) == 0 {
                (0u16, 0u16)
            } else {
                (r, r)
            };
            out(res, low16(acc, acc_res), own)
        },
        ComputeOp::Vaddc => {
            let sum = l as int + r as int;
            out(sum as u16, low16(acc, sum as u16), LaneFlags { carry: sum >= 0x1_0000, ..own })
        },
        ComputeOp::Vsubc => {
            let diff = l as int - r as int;
            out(
                diff as u16,
                low16(acc, diff as u16),
                LaneFlags { carry: diff < 0, not_equal: diff != 0, ..own },
            )
        },
        ComputeOp::Vand => out(l & r, low16(acc, l & r), own),
        ComputeOp::Vnand => out(!(l & r), low16(acc, !(l & r)), own),
        ComputeOp::Vor => out(l | r, low16(acc, l | r), own),
        ComputeOp::Vnor => out(!(l | r), low16(acc, !(l | r)), own),
        ComputeOp::Vxor => out(l ^ r, low16(acc, l ^ r), own),
        ComputeOp::Vnxor => out(!(l ^ r), low16(acc, !(l ^ r)), own),
        _ => out(0, acc, own),
    }
}

/// One lane of any compute instruction; `own` are the flags of the lane's
/// element, `other` those of the element with the lane's own index.
pub open spec fn lane_spec(
    op: ComputeOp,
    own: LaneFlags,
    other: LaneFlags,
    acc: u64,
    l: u16,
    r: u16,
) -> LaneOut {
    match op {
        ComputeOp::Vlt | ComputeOp::Veq | ComputeOp::Vne | ComputeOp::Vge | ComputeOp::Vcl
        | ComputeOp::Vch | ComputeOp::Vcr | ComputeOp::Vmrg => super::select::select_lane(
            op,
            own,
            other,
            l,
            r,
        ),
        _ => arith_lane(op, own, acc, l, r),
    }
}

/// Whether the instruction clears the carry flags when it is done.
pub open spec fn clears_carry(op: ComputeOp) -> bool {
    op is Vadd || op is Vsub || op is Vlt || op is Veq || op is Vne || op is Vge || op is Vcl
        || op is Vmrg
}

/// Whether the instruction clears the not-equal flags when it is done.
pub open spec fn clears_not_equal(op: ComputeOp) -> bool {
    clears_carry(op) || op is Vaddc
}

/// Whether the instruction clears the compare-extension flags when it is
/// done.
pub open spec fn clears_compare_extension(op: ComputeOp) -> bool {
    op is Vlt || op is Veq || op is Vne || op is Vge || op is Vcl
}

/// The flags of an element once the instruction has cleared what it
/// clears.
pub open spec fn after_clears(op: ComputeOp, f: LaneFlags) -> LaneFlags {
    LaneFlags {
        carry: f.carry && !clears_carry(op),
        not_equal: f.not_equal && !clears_not_equal(op),
        compare_extension: f.compare_extension && !clears_compare_extension(op),
        ..f
    }
}

/// The destination register in bits 6-10 of a compute instruction.
pub open spec fn field_vd(word: u32) -> int {
    ((word >> 6u32) & 31) as int
}

/// The second source register in bits 16-20.
pub open spec fn field_vt(word: u32) -> int {
    ((word >> 16u32) & 31) as int
}

/// The broadcast modifier in bits 21-24.
pub open spec fn field_modifier(word: u32) -> int {
    ((word >> 21u32) & 15) as int
}

/// Lane `k` of the broadcast of register `vt`, as the little-endian array
/// holds it.
pub open spec fn rhs_lane(v: Cp2View, word: u32, k: int) -> u16 {
    spec_lane(
        v.regs[field_vt(word)],
        broadcast_source(field_modifier(word) as usize, (7 - k) as usize) as int,
    )
}

/// What lane `k` of the instruction produces from the state `v`.
pub open spec fn compute_out(op: ComputeOp, v: Cp2View, word: u32, k: int) -> LaneOut {
    lane_spec(
        op,
        lane_flags(v.flags, 7 - k),
        lane_flags(v.flags, k),
        v.acc[k],
        v.regs[super::field_vs(word)][k],
        rhs_lane(v, word, k),
    )
}

/// The state after a compute instruction: register `vd` holds the lane
/// results, the accumulator the lane accumulators sign-extended, and each
/// element's flags what its lane produced, less what the instruction
/// clears.
pub open spec fn compute_post(op: ComputeOp, old: Cp2View, new: Cp2View, word: u32) -> bool {
    &&& new.regs == old.regs.update(
        field_vd(word),
        Seq::new(8, |k: int| compute_out(op, old, word, k).result),
    )
    &&& new.acc == Seq::new(8, |k: int| sext48(compute_out(op, old, word, k).acc))
    &&& new.div_in == old.div_in
    &&& new.div_out == old.div_out
    &&& forall|j: int|
        0 <= j < 8 ==> #[trigger] lane_flags(new.flags, j) == after_clears(
            op,
            compute_out(op, old, word, 7 - j).flags,
        )
}

/// VSUB subtracts: lane `k` of `vd` is the lane of `vs` minus the lane of
/// `vt` that the modifier selects, minus the lane's carry (borrow), as
/// signed 16-bit values, saturated to the signed 16-bit range. `vs` is
/// the minuend.
pub proof fn lemma_vsub_subtracts(old: Cp2View, new: Cp2View, word: u32, k: int)
    requires
        compute_post(ComputeOp::Vsub, old, new, word),
        old.regs.len() == 32,
        0 <= k < 8,
    ensures
        ({
            let minuend = old.regs[super::field_vs(word)][k] as i16 as int;
            let subtrahend = rhs_lane(old, word, k) as i16 as int;
            let borrow: int = if flag(old.flags.carry, 7 - k) {
                1
            } else {
                0
            };
            let d = minuend - subtrahend - borrow;
            new.regs[field_vd(word)][k] as i16 as int == if d < -32768 {
                -32768
            } else if d > 32767 {
                32767
            } else {
                d
            }
        }),
{
    crate::bits::lemma_law_bits();
    crate::bits::lemma_mask_bounds();
    let word_vd = field_vd(word);
    assert(word_vd < 32);
    let o = compute_out(ComputeOp::Vsub, old, word, k);
    assert(new.regs[word_vd] == Seq::new(8, |j: int| compute_out(ComputeOp::Vsub, old, word, j).result));
    let c = clamp_i16(
        s16(old.regs[super::field_vs(word)][k]) - s16(rhs_lane(old, word, k)) - bit(
            lane_flags(old.flags, 7 - k).carry,
        ),
    );
    assert(o.result == c as u16);
    assert(c as u16 as i16 == c);
}

proof fn lemma_products(ls: int, rs: int, lu: int, ru: int)
    by (nonlinear_arith)
    requires
        -32768 <= ls <= 32767,
        -32768 <= rs <= 32767,
        0 <= lu <= 65535,
        0 <= ru <= 65535,
    ensures
        -0x4000_0000 <= ls * rs <= 0x4000_0000,
        -0x8000_0000 <= ls * ru <= 0x8000_0000,
        -0x8000_0000 <= lu * rs <= 0x8000_0000,
        0 <= lu * ru <= 0xfffe_0001,
{
}

proof fn lemma_acc_range(acc: u64)
    by (bit_vector)
    requires
        (if acc & 0x8000_0000_0000 != 0 {
            (acc & 0xffff_ffff_ffff) | 0xffff_0000_0000_0000
        } else {
            acc & 0xffff_ffff_ffff
        }) == acc,
    ensures
        -0x8000_0000_0000i64 <= acc as i64,
        (acc as i64) < 0x8000_0000_0000i64,
{
}

proof fn lemma_clamps(value: u64)
    by (bit_vector)
    ensures
        (if ((value >> 32u64) as i16) < 0 {
            if (value >> 32u64) as u16 != 0xffff || ((value >> 16u64) as i16) >= 0 {
                0x8000u16
            } else {
                (value >> 16u64) as u16
            }
        } else if ((value >> 32u64) as u16) != 0 || ((value >> 16u64) as i16) < 0 {
            0x7fffu16
        } else {
            (value >> 16u64) as u16
        }) == (if (((value >> 16u64) as u32) as i32) < -32768i32 {
            0x8000u16
        } else if (((value >> 16u64) as u32) as i32) > 32767i32 {
            0x7fffu16
        } else {
            (value >> 16u64) as u16
        }),
        (if ((value >> 32u64) as i16) < 0 {
            if (value >> 32u64) as u16 != 0xffff || ((value >> 16u64) as i16) >= 0 {
                0u16
            } else {
                value as u16
            }
        } else if ((value >> 32u64) as u16) != 0 || ((value >> 16u64) as i16) < 0 {
            0xffffu16
        } else {
            value as u16
        }) == (if (((value >> 16u64) as u32) as i32) < -32768i32 {
            0u16
        } else if (((value >> 16u64) as u32) as i32) > 32767i32 {
            0xffffu16
        } else {
            value as u16
        }),
{
}

/// Bits 16-31 of the accumulator value, saturated.
pub fn clamp_signed(value: u64) -> (r: u16)
    ensures
        r == spec_clamp_signed(value),
{
    proof {
        lemma_clamps(value);
    }
    if ((value >> 32u64) as i16) < 0 {
        if (value >> 32u64) as u16 != 0xffff || ((value >> 16u64) as i16) >= 0 {
            return 0x8000;
        }
    } else if (((value >> 32u64) as u16) != 0) || ((value >> 16u64) as i16) < 0 {
        return 0x7fff;
    }
    (value >> 16u64) as u16
}

/// Bits 0-15 of the accumulator value, saturated.
pub fn clamp_signed_low(value: u64) -> (r: u16)
    ensures
        r == spec_clamp_signed_low(value),
{
    proof {
        lemma_clamps(value);
    }
    if ((value >> 32u64) as i16) < 0 {
        if (value >> 32u64) as u16 != 0xffff || ((value >> 16u64) as i16) >= 0 {
            return 0;
        }
    } else if (((value >> 32u64) as u16) != 0) || ((value >> 16u64) as i16) < 0 {
        return 0xffff;
    }
    value as u16
}

/// `value` saturated to the signed 16-bit range.
pub fn clamp_signed_old(value: i32) -> (r: i16)
    ensures
        r == clamp_i16(value as int),
{
    if value < -32768 {
        -32768
    } else if value > 32767 {
        32767
    } else {
        value as i16
    }
}

fn mulu(a: u64) -> (r: u16)
    ensures
        r == mulu_result(a),
{
    if ((a >> 32u64) as i16) < 0 {
        return 0;
    }
    if (((a >> 32u64) as i16) ^ ((a >> 16u64) as i16)) < 0 {
        return 0xffff;
    }
    (a >> 16u64) as u16
}

fn macu(a: u64) -> (r: u16)
    ensures
        r == macu_result(a),
{
    if ((a >> 32u64) as i16) < 0 {
        return 0;
    }
    if ((a >> 32u64) as u16) != 0 || ((a >> 16u64) as i16) < 0 {
        return 0xffff;
    }
    (a >> 16u64) as u16
}

fn low(acc: u64, x: u16) -> (r: u64)
    ensures
        r == low16(acc, x),
{
    (acc & !0xffffu64) | (x as u64)
}

fn multiply_lane(op: ComputeOp, own: LaneFlags, acc: u64, l: u16, r: u16) -> (res: LaneOut)
    requires
        sext48(acc) == acc,
        op is Vmulf || op is Vmulu || op is Vmacf || op is Vmacu || op is Vmudl || op is Vmudm
            || op is Vmudn || op is Vmudh || op is Vmadl || op is Vmadm || op is Vmadn
            || op is Vmadh,
    ensures
        res == arith_lane(op, own, acc, l, r),
{
    let ls = l as i16 as i64;
    let rs = r as i16 as i64;
    let lu = l as i64;
    let ru = r as i64;
    proof {
        lemma_products(ls as int, rs as int, lu as int, ru as int);
        lemma_acc_range(acc);
    }
    let signed_acc = acc as i64;
    match op {
        ComputeOp::Vmulf => {
            let a = ((0x8000i64 + ls * rs * 2) as u64) & 0xffff_ffff_ffffu64;
            LaneOut { result: clamp_signed(a), acc: a, flags: own }
        },
        ComputeOp::Vmulu => {
            let a = ((0x8000i64 + ls * rs * 2) as u64) & 0xffff_ffff_ffffu64;
            LaneOut { result: mulu(a), acc: a, flags: own }
        },
        ComputeOp::Vmacf => {
            let a = ((signed_acc + ls * rs * 2) as u64) & 0xffff_ffff_ffffu64;
            LaneOut { result: clamp_signed(a), acc: a, flags: own }
        },
        ComputeOp::Vmacu => {
            let a = ((signed_acc + ls * rs * 2) as u64) & 0xffff_ffff_ffffu64;
            LaneOut { result: macu(a), acc: a, flags: own }
        },
        ComputeOp::Vmudl => {
            let a = ((lu * ru) / 0x1_0000) as u64;
            LaneOut { result: a as u16, acc: a, flags: own }
        },
        ComputeOp::Vmudm => {
            let a = (ls * ru) as u64;
            LaneOut { result: clamp_signed_old((a >> 16u64) as i32) as u16, acc: a, flags: own }
        },
        ComputeOp::Vmudn => {
            let a = (lu * rs) as u64;
            LaneOut { result: a as u16, acc: a, flags: own }
        },
        ComputeOp::Vmudh => {
            let a = (ls * rs * 0x1_0000) as u64;
            LaneOut { result: clamp_signed_old((a >> 16u64) as i32) as u16, acc: a, flags: own }
        },
        ComputeOp::Vmadl => {
            let a = ((signed_acc + (lu * ru) / 0x1_0000) as u64) & 0xffff_ffff_ffffu64;
            LaneOut { result: clamp_signed_low(a), acc: a, flags: own }
        },
        ComputeOp::Vmadm => {
            let a = (signed_acc + ls * ru) as u64;
            LaneOut { result: clamp_signed_old((a >> 16u64) as i32) as u16, acc: a, flags: own }
        },
        ComputeOp::Vmadn => {
            let a = ((signed_acc + lu * rs) as u64) & 0xffff_ffff_ffffu64;
            LaneOut { result: clamp_signed_low(a), acc: a, flags: own }
        },
        _ => {
            let a = (signed_acc + ls * rs * 0x1_0000) as u64;
            LaneOut { result: clamp_signed_old((a >> 16u64) as i32) as u16, acc: a, flags: own }
        },
    }
}

fn add_lane(op: ComputeOp, own: LaneFlags, acc: u64, l: u16, r: u16) -> (res: LaneOut)
    requires
        op is Vadd || op is Vsub || op is Vabs || op is Vaddc || op is Vsubc,
    ensures
        res == arith_lane(op, own, acc, l, r),
{
    let ls = l as i16 as i32;
    let rs = r as i16 as i32;
    let carry: i32 = if own.carry {
        1
    } else {
        0
    };
    match op {
        ComputeOp::Vadd => {
            let sum = ls + rs + carry;
            LaneOut {
                result: clamp_signed_old(sum) as u16,
                acc: low(acc, sum as u16),
                flags: own,
            }
        },
        ComputeOp::Vsub => {
            let diff = ls - rs - carry;
            LaneOut {
                result: clamp_signed_old(diff) as u16,
                acc: low(acc, diff as u16),
                flags: own,
            }
        },
        ComputeOp::Vabs => {
            let (result, acc_result) = if (l as i16) < 0 {
                if r == 0x8000 {
                    (0x7fffu16, 0x8000u16)
                } else {
                    proof {
                        crate::bits::lemma_mask_bounds();
                    }
                    let negated = -(r as i16) as u16;
                    (negated, negated)
                }
            } else if (l as i16) == 0 {
                (0u16, 0u16)
            } else {
                (r, r)
            };
            LaneOut { result, acc: low(acc, acc_result), flags: own }
        },
        ComputeOp::Vaddc => {
            let sum = l as u32 + r as u32;
            proof {
                crate::bits::lemma_mask_bounds();
            }
            LaneOut {
                result: sum as u16,
                acc: low(acc, sum as u16),
                flags: LaneFlags { carry: (sum & 0x0001_0000) != 0, ..own },
            }
        },
        _ => {
            let diff = l as i32 - r as i32;
            LaneOut {
                result: diff as u16,
                acc: low(acc, diff as u16),
                flags: LaneFlags { carry: diff < 0, not_equal: diff != 0, ..own },
            }
        },
    }
}

fn logic_lane(op: ComputeOp, own: LaneFlags, acc: u64, l: u16, r: u16) -> (res: LaneOut)
    requires
        op is Vand || op is Vnand || op is Vor || op is Vnor || op is Vxor || op is Vnxor,
    ensures
        res == arith_lane(op, own, acc, l, r),
{
    let result = match op {
        ComputeOp::Vand => l & r,
        ComputeOp::Vnand => !(l & r),
        ComputeOp::Vor => l | r,
        ComputeOp::Vnor => !(l | r),
        ComputeOp::Vxor => l ^ r,
        _ => !(l ^ r),
    };
    LaneOut { result, acc: low(acc, result), flags: own }
}

/// One lane of the instruction `op`.
pub fn lane(op: ComputeOp, own: LaneFlags, other: LaneFlags, acc: u64, l: u16, r: u16) -> (res:
    LaneOut)
    requires
        sext48(acc) == acc,
    ensures
        res == lane_spec(op, own, other, acc, l, r),
{
    match op {
        ComputeOp::Vlt | ComputeOp::Veq | ComputeOp::Vne | ComputeOp::Vge | ComputeOp::Vcl
        | ComputeOp::Vch | ComputeOp::Vcr | ComputeOp::Vmrg => super::select::select_lane_exec(
            op,
            own,
            other,
            l,
            r,
        ),
        ComputeOp::Vadd | ComputeOp::Vsub | ComputeOp::Vabs | ComputeOp::Vaddc
        | ComputeOp::Vsubc => add_lane(op, own, acc, l, r),
        ComputeOp::Vand | ComputeOp::Vnand | ComputeOp::Vor | ComputeOp::Vnor | ComputeOp::Vxor
        | ComputeOp::Vnxor => logic_lane(op, own, acc, l, r),
        _ => multiply_lane(op, own, acc, l, r),
    }
}

fn lane_flags_at(f: Flags, j: usize) -> (r: LaneFlags)
    requires
        j < 8,
    ensures
        r == lane_flags(f, j as int),
{
    LaneFlags {
        carry: get_flag(f.carry, j),
        not_equal: get_flag(f.not_equal, j),
        compare: get_flag(f.compare, j),
        clip_compare: get_flag(f.clip_compare, j),
        compare_extension: get_flag(f.compare_extension, j),
    }
}

fn with_lane_flags(f: Flags, j: usize, lf: LaneFlags) -> (r: Flags)
    requires
        j < 8,
    ensures
        forall|i: int| 0 <= i < 8 ==> #[trigger] lane_flags(r, i) == if i == j {
            lf
        } else {
            lane_flags(f, i)
        },
{
    let r = Flags {
        carry: set_flag(f.carry, j, lf.carry),
        not_equal: set_flag(f.not_equal, j, lf.not_equal),
        compare: set_flag(f.compare, j, lf.compare),
        clip_compare: set_flag(f.clip_compare, j, lf.clip_compare),
        compare_extension: set_flag(f.compare_extension, j, lf.compare_extension),
    };
    assert forall|i: int| 0 <= i < 8 implies #[trigger] lane_flags(r, i) == if i == j {
        lf
    } else {
        lane_flags(f, i)
    } by {
        assert(flag(r.carry, i) == if i == j { lf.carry } else { flag(f.carry, i) });
        assert(flag(r.not_equal, i) == if i == j { lf.not_equal } else { flag(f.not_equal, i) });
        assert(flag(r.compare, i) == if i == j { lf.compare } else { flag(f.compare, i) });
        assert(flag(r.clip_compare, i) == if i == j { lf.clip_compare } else { flag(f.clip_compare, i) });
        assert(flag(r.compare_extension, i) == if i == j {
            lf.compare_extension
        } else {
            flag(f.compare_extension, i)
        });
    }
    r
}

/// A vector compute instruction word: the function in bits 0-5, the
/// destination `vd` in bits 6-10, the sources `vs` in bits 11-15 and `vt`
/// in bits 16-20, and the broadcast element in bits 21-24.
#[derive(Copy, Clone, Debug, PartialEq, Eq, Structural)]
pub struct Compute {
    bits: u32,
}

impl View for Compute {
    type V = u32;

    closed spec fn view(&self) -> u32 {
        self.bits
    }
}

impl Compute {
    pub fn from(word: u32) -> (r: Self)
        ensures
            r@ == word,
    {
        Compute { bits: word }
    }

    pub fn into_bits(self) -> (r: u32)
        ensures
            r == self@,
    {
        self.bits
    }

    pub fn opcode(&self) -> (r: u32)
        ensures
            r == self@ & 0x3f,
    {
        self.bits & 0x3f
    }

    pub fn vd(&self) -> (r: usize)
        ensures
            r == field_vd(self@),
            r < 32,
    {
        proof {
            crate::bits::lemma_mask_bounds();
        }
        ((self.bits >> 6u32) & 31) as usize
    }

    pub fn vs(&self) -> (r: usize)
        ensures
            r == super::field_vs(self@),
            r < 32,
    {
        proof {
            crate::bits::lemma_mask_bounds();
        }
        ((self.bits >> 11u32) & 31) as usize
    }

    pub fn vt(&self) -> (r: usize)
        ensures
            r == field_vt(self@),
            r < 32,
    {
        proof {
            crate::bits::lemma_mask_bounds();
        }
        ((self.bits >> 16u32) & 31) as usize
    }

    pub fn element(&self) -> (r: usize)
        ensures
            r == field_modifier(self@),
            r < 16,
    {
        proof {
            crate::bits::lemma_mask_bounds();
        }
        ((self.bits >> 21u32) & 15) as usize
    }
}

/// Runs the compute instruction `word` with the lane operation `op`.
pub fn compute(cp2: &mut Cp2, word: u32, op: ComputeOp)
    requires
        old(cp2).wf(),
    ensures
        final(cp2).wf(),
        compute_post(op, old(cp2)@, final(cp2)@, word),
{
    let ghost before = cp2@;
    proof {
        cp2.lemma_wf();
    }
    let op_word = Compute::from(word);
    let (vd, vs, vt, element) = (op_word.vd(), op_word.vs(), op_word.vt(), op_word.element());
    let lhs = cp2.get_le(vs);
    let rhs = cp2.broadcast_le(vt, element);
    let acc = cp2.acc_le();
    let flags = cp2.flags();
    let mut result: [u16; 8] = [0u16; 8];
    let mut new_acc: [u64; 8] = [0u64; 8];
    let mut new_flags = flags;
    let mut k: usize = 0;
    while k < 8
        invariant
            k <= 8,
            vs == super::field_vs(word),
            view_wf(before),
            result@.len() == 8,
            new_acc@.len() == 8,
            lhs@ == before.regs[vs as int],
            forall|i: int| 0 <= i < 8 ==> #[trigger] rhs@[i] == rhs_lane(before, word, i),
            acc@ == before.acc,
            flags == before.flags,
            forall|i: int| 0 <= i < k ==> #[trigger] result@[i] == compute_out(op, before, word, i).result,
            forall|i: int| 0 <= i < k ==> #[trigger] new_acc@[i] == compute_out(op, before, word, i).acc,
            forall|j: int|
                0 <= j < 8 ==> #[trigger] lane_flags(new_flags, j) == if 7 - j < k {
                    compute_out(op, before, word, 7 - j).flags
                } else {
                    lane_flags(flags, j)
                },
        decreases 8 - k,
    {
        let own = lane_flags_at(flags, 7 - k);
        let other = lane_flags_at(flags, k);
        assert(rhs@[k as int] == rhs_lane(before, word, k as int));
        let lane_out = lane(op, own, other, acc[k], lhs[k], rhs[k]);
        assert(lane_out == compute_out(op, before, word, k as int));
        result[k] = lane_out.result;
        new_acc[k] = lane_out.acc;
        new_flags = with_lane_flags(new_flags, 7 - k, lane_out.flags);
        k = k + 1;
    }
    let carry = if op == ComputeOp::Vadd || op == ComputeOp::Vsub || op == ComputeOp::Vlt || op
        == ComputeOp::Veq || op == ComputeOp::Vne || op == ComputeOp::Vge || op == ComputeOp::Vcl
        || op == ComputeOp::Vmrg {
        0
    } else {
        new_flags.carry
    };
    let not_equal = if op == ComputeOp::Vadd || op == ComputeOp::Vsub || op == ComputeOp::Vaddc
        || op == ComputeOp::Vlt || op == ComputeOp::Veq || op == ComputeOp::Vne || op
        == ComputeOp::Vge || op == ComputeOp::Vcl || op == ComputeOp::Vmrg {
        0
    } else {
        new_flags.not_equal
    };
    let compare_extension = if op == ComputeOp::Vlt || op == ComputeOp::Veq || op == ComputeOp::Vne
        || op == ComputeOp::Vge || op == ComputeOp::Vcl {
        0
    } else {
        new_flags.compare_extension
    };
    let final_flags = Flags { carry, not_equal, compare_extension, ..new_flags };
    proof {
        lemma_no_flags();
        assert forall|j: int| 0 <= j < 8 implies #[trigger] lane_flags(final_flags, j)
            == after_clears(op, compute_out(op, before, word, 7 - j).flags) by {
            assert(lane_flags(new_flags, j) == compute_out(op, before, word, 7 - j).flags);
        }
    }
    cp2.set_le(vd, result);
    cp2.set_acc_le(new_acc);
    cp2.set_flags(final_flags);
    proof {
        assert(result@ =~= Seq::new(8, |k: int| compute_out(op, before, word, k).result));
        assert(cp2@.acc =~= Seq::new(8, |k: int| sext48(compute_out(op, before, word, k).acc)));
    }
}

/// VMULF: signed fractional multiply, rounded.
pub fn vmulf(cp2: &mut Cp2, word: u32)
    requires
        old(cp2).wf(),
    ensures
        final(cp2).wf(),
        compute_post(ComputeOp::Vmulf, old(cp2)@, final(cp2)@, word),
{
    compute(cp2, word, ComputeOp::Vmulf);
}

/// VMULU: unsigned fractional multiply, rounded.
pub fn vmulu(cp2: &mut Cp2, word: u32)
    requires
        old(cp2).wf(),
    ensures
        final(cp2).wf(),
        compute_post(ComputeOp::Vmulu, old(cp2)@, final(cp2)@, word),
{
    compute(cp2, word, ComputeOp::Vmulu);
}

/// VMACF: signed fractional multiply-accumulate.
pub fn vmacf(cp2: &mut Cp2, word: u32)
    requires
        old(cp2).wf(),
    ensures
        final(cp2).wf(),
        compute_post(ComputeOp::Vmacf, old(cp2)@, final(cp2)@, word),
{
    compute(cp2, word, ComputeOp::Vmacf);
}

/// VMACU: unsigned fractional multiply-accumulate.
pub fn vmacu(cp2: &mut Cp2, word: u32)
    requires
        old(cp2).wf(),
    ensures
        final(cp2).wf(),
        compute_post(ComputeOp::Vmacu, old(cp2)@, final(cp2)@, word),
{
    compute(cp2, word, ComputeOp::Vmacu);
}

/// VMUDL: low partial product of two unsigned fractions.
pub fn vmudl(cp2: &mut Cp2, word: u32)
    requires
        old(cp2).wf(),
    ensures
        final(cp2).wf(),
        compute_post(ComputeOp::Vmudl, old(cp2)@, final(cp2)@, word),
{
    compute(cp2, word, ComputeOp::Vmudl);
}

/// VMUDM: signed times unsigned, mid partial product.
pub fn vmudm(cp2: &mut Cp2, word: u32)
    requires
        old(cp2).wf(),
    ensures
        final(cp2).wf(),
        compute_post(ComputeOp::Vmudm, old(cp2)@, final(cp2)@, word),
{
    compute(cp2, word, ComputeOp::Vmudm);
}

/// VMUDN: unsigned times signed, low partial product.
pub fn vmudn(cp2: &mut Cp2, word: u32)
    requires
        old(cp2).wf(),
    ensures
        final(cp2).wf(),
        compute_post(ComputeOp::Vmudn, old(cp2)@, final(cp2)@, word),
{
    compute(cp2, word, ComputeOp::Vmudn);
}

/// VMUDH: signed times signed, high partial product.
pub fn vmudh(cp2: &mut Cp2, word: u32)
    requires
        old(cp2).wf(),
    ensures
        final(cp2).wf(),
        compute_post(ComputeOp::Vmudh, old(cp2)@, final(cp2)@, word),
{
    compute(cp2, word, ComputeOp::Vmudh);
}

/// VMADL: VMUDL, accumulated.
pub fn vmadl(cp2: &mut Cp2, word: u32)
    requires
        old(cp2).wf(),
    ensures
        final(cp2).wf(),
        compute_post(ComputeOp::Vmadl, old(cp2)@, final(cp2)@, word),
{
    compute(cp2, word, ComputeOp::Vmadl);
}

/// VMADM: VMUDM, accumulated.
pub fn vmadm(cp2: &mut Cp2, word: u32)
    requires
        old(cp2).wf(),
    ensures
        final(cp2).wf(),
        compute_post(ComputeOp::Vmadm, old(cp2)@, final(cp2)@, word),
{
    compute(cp2, word, ComputeOp::Vmadm);
}

/// VMADN: VMUDN, accumulated.
pub fn vmadn(cp2: &mut Cp2, word: u32)
    requires
        old(cp2).wf(),
    ensures
        final(cp2).wf(),
        compute_post(ComputeOp::Vmadn, old(cp2)@, final(cp2)@, word),
{
    compute(cp2, word, ComputeOp::Vmadn);
}

/// VMADH: VMUDH, accumulated.
pub fn vmadh(cp2: &mut Cp2, word: u32)
    requires
        old(cp2).wf(),
    ensures
        final(cp2).wf(),
        compute_post(ComputeOp::Vmadh, old(cp2)@, final(cp2)@, word),
{
    compute(cp2, word, ComputeOp::Vmadh);
}

/// VADD: signed add with carry in, saturated; clears carry and not-equal.
pub fn vadd(cp2: &mut Cp2, word: u32)
    requires
        old(cp2).wf(),
    ensures
        final(cp2).wf(),
        compute_post(ComputeOp::Vadd, old(cp2)@, final(cp2)@, word),
{
    compute(cp2, word, ComputeOp::Vadd);
}

/// VADDC: unsigned add, carry out to the carry flags.
pub fn vaddc(cp2: &mut Cp2, word: u32)
    requires
        old(cp2).wf(),
    ensures
        final(cp2).wf(),
        compute_post(ComputeOp::Vaddc, old(cp2)@, final(cp2)@, word),
{
    compute(cp2, word, ComputeOp::Vaddc);
}

/// VSUB: signed subtract with borrow in, saturated; clears carry and not-equal.
pub fn vsub(cp2: &mut Cp2, word: u32)
    requires
        old(cp2).wf(),
    ensures
        final(cp2).wf(),
        compute_post(ComputeOp::Vsub, old(cp2)@, final(cp2)@, word),
{
    compute(cp2, word, ComputeOp::Vsub);
}

/// VSUBC: unsigned subtract, borrow and inequality to the flags.
pub fn vsubc(cp2: &mut Cp2, word: u32)
    requires
        old(cp2).wf(),
    ensures
        final(cp2).wf(),
        compute_post(ComputeOp::Vsubc, old(cp2)@, final(cp2)@, word),
{
    compute(cp2, word, ComputeOp::Vsubc);
}

/// VABS: `vt` with the sign of `vs` (zero where `vs` is zero).
pub fn vabs(cp2: &mut Cp2, word: u32)
    requires
        old(cp2).wf(),
    ensures
        final(cp2).wf(),
        compute_post(ComputeOp::Vabs, old(cp2)@, final(cp2)@, word),
{
    compute(cp2, word, ComputeOp::Vabs);
}

/// VAND: bitwise and.
pub fn vand(cp2: &mut Cp2, word: u32)
    requires
        old(cp2).wf(),
    ensures
        final(cp2).wf(),
        compute_post(ComputeOp::Vand, old(cp2)@, final(cp2)@, word),
{
    compute(cp2, word, ComputeOp::Vand);
}

/// VNAND: bitwise and, inverted.
pub fn vnand(cp2: &mut Cp2, word: u32)
    requires
        old(cp2).wf(),
    ensures
        final(cp2).wf(),
        compute_post(ComputeOp::Vnand, old(cp2)@, final(cp2)@, word),
{
    compute(cp2, word, ComputeOp::Vnand);
}

/// VOR: bitwise or.
pub fn vor(cp2: &mut Cp2, word: u32)
    requires
        old(cp2).wf(),
    ensures
        final(cp2).wf(),
        compute_post(ComputeOp::Vor, old(cp2)@, final(cp2)@, word),
{
    compute(cp2, word, ComputeOp::Vor);
}

/// VNOR: bitwise or, inverted.
pub fn vnor(cp2: &mut Cp2, word: u32)
    requires
        old(cp2).wf(),
    ensures
        final(cp2).wf(),
        compute_post(ComputeOp::Vnor, old(cp2)@, final(cp2)@, word),
{
    compute(cp2, word, ComputeOp::Vnor);
}

/// VXOR: bitwise exclusive or.
pub fn vxor(cp2: &mut Cp2, word: u32)
    requires
        old(cp2).wf(),
    ensures
        final(cp2).wf(),
        compute_post(ComputeOp::Vxor, old(cp2)@, final(cp2)@, word),
{
    compute(cp2, word, ComputeOp::Vxor);
}

/// VNXOR: bitwise exclusive or, inverted.
pub fn vnxor(cp2: &mut Cp2, word: u32)
    requires
        old(cp2).wf(),
    ensures
        final(cp2).wf(),
        compute_post(ComputeOp::Vnxor, old(cp2)@, final(cp2)@, word),
{
    compute(cp2, word, ComputeOp::Vnxor);
}

/// The accumulator slice that VSAR reads for the modifier: bits 32-47
/// for 8, 16-31 for 9, 0-15 for 10; other modifiers read zero.
pub open spec fn vsar_lane(acc: u64, modifier: int) -> u16 {
    if modifier == 8 {
        (acc >> 32u64) as u16
    } else if modifier == 9 {
        (acc >> 16u64) as u16
    } else if modifier == 10 {
        acc as u16
    } else {
        0
    }
}

/// The state after VSAR.
pub open spec fn vsar_post(old: Cp2View, new: Cp2View, word: u32) -> bool {
    new == (Cp2View {
        regs: old.regs.update(
            field_vd(word),
            Seq::new(8, |k: int| vsar_lane(old.acc[k], field_modifier(word))),
        ),
        ..old
    })
}

/// VSAR: register `vd` receives one 16-bit slice of each accumulator
/// value.
pub fn vsar(cp2: &mut Cp2, word: u32)
    requires
        old(cp2).wf(),
    ensures
        final(cp2).wf(),
        vsar_post(old(cp2)@, final(cp2)@, word),
{
    let op_word = Compute::from(word);
    let (vd, element) = (op_word.vd(), op_word.element());
    let acc = cp2.acc_le();
    proof {
        cp2.lemma_wf();
        crate::bits::lemma_mask_bounds();
    }
    let mut result: [u16; 8] = [0u16; 8];
    if 8 <= element && element <= 10 {
        let shift = (32 - ((element - 8) * 16)) as u64;
        let mut k: usize = 0;
        while k < 8
            invariant
                k <= 8,
                8 <= element <= 10,
                shift == 32 - (element - 8) * 16,
                element == field_modifier(word),
                acc@.len() == 8,
                result@.len() == 8,
                forall|i: int| 0 <= i < k ==> #[trigger] result@[i] == vsar_lane(acc@[i], element as int),
            decreases 8 - k,
        {
            result[k] = (acc[k] >> shift) as u16;
            proof {
                crate::bits::lemma_mask_bounds();
                assert(acc@[k as int] >> 0u64 == acc@[k as int]);
            }
            k = k + 1;
        }
    }
    cp2.set_le(vd, result);
    assert(result@ =~= Seq::new(8, |k: int| vsar_lane(old(cp2)@.acc[k], field_modifier(word))));
}

} // verus!
