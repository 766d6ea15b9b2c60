//! The single-lane instructions: each takes one lane of register `vt`,
//! computes one value from it (a move, or a step of the divide unit) and
//! writes it to one lane of register `vd`. All of them also load the
//! broadcast of `vt` into the low 16 bits of the accumulator.

use super::compute::{field_modifier, field_vd, field_vt, low16, rhs_lane};
use super::vector::spec_lane;
use super::{sext48, spec_inv_sqrt, spec_reciprocal, Cp2, Cp2View};
use vstd::prelude::*;
use vstd::std_specs::bits::u32_leading_zeros;

verus! {

/// The destination element field, bits 11-15.
pub open spec fn field_vd_elem(word: u32) -> int {
    ((word >> 11u32) & 31) as int
}

/// The lane of `vt` that the instruction reads, chosen by the modifier
/// and the destination element.
pub open spec fn source_element(vd_elem: int, modifier: int) -> int {
    if modifier < 2 {
        vd_elem % 8
    } else if modifier < 4 {
        ((vd_elem as u32) & 6) as int + ((modifier as u32) & 1) as int
    } else if modifier < 8 {
        ((vd_elem as u32) & 4) as int + ((modifier as u32) & 3) as int
    } else {
        modifier % 8
    }
}

/// The lane value that the instruction works on.
pub open spec fn single_lane_input(v: Cp2View, word: u32) -> u16 {
    spec_lane(v.regs[field_vt(word)], source_element(field_vd_elem(word), field_modifier(word)))
}

/// The accumulator after any single-lane instruction: its low 16 bits
/// hold the broadcast of `vt`.
pub open spec fn single_lane_acc(v: Cp2View, word: u32) -> Seq<u64> {
    Seq::new(8, |k: int| sext48(low16(v.acc[k], rhs_lane(v, word, k))))
}

/// The state after a single-lane instruction that writes `result` and
/// leaves the divide unit as `div_in` and `div_out`.
pub open spec fn single_lane_post(
    old: Cp2View,
    new: Cp2View,
    word: u32,
    result: u16,
    div_in: u32,
    div_out: u32,
) -> bool {
    new == (Cp2View {
        regs: old.regs.update(
            field_vd(word),
            old.regs[field_vd(word)].update(7 - field_vd_elem(word) % 8, result),
        ),
        acc: single_lane_acc(old, word),
        flags: old.flags,
        div_in,
        div_out,
    })
}

/// The state after VMOV.
pub open spec fn vmov_post(old: Cp2View, new: Cp2View, word: u32) -> bool {
    single_lane_post(old, new, word, single_lane_input(old, word), old.div_in, old.div_out)
}

/// The state after a divide step; `low` selects the input under the
/// high half, `sqrt` the inverse square root.
pub open spec fn divide_post(old: Cp2View, new: Cp2View, word: u32, low: bool, sqrt: bool) -> bool {
    let x = if low {
        input_low(old.div_in, single_lane_input(old, word))
    } else {
        input_double(single_lane_input(old, word))
    };
    single_lane_post(old, new, word, divide(x, sqrt) as u16, abs_wrapping(x) as u32, divide(x, sqrt))
}

/// The state after VRCPH or VRSQH.
pub open spec fn high_step_post(old: Cp2View, new: Cp2View, word: u32) -> bool {
    single_lane_post(
        old,
        new,
        word,
        (old.div_out >> 16u32) as u16,
        (single_lane_input(old, word) as u32) << 16u32,
        old.div_out,
    )
}

/// The absolute value of a 32-bit value, the most negative one staying
/// as it is.
pub open spec fn abs_wrapping(x: i32) -> i32 {
    if x == i32::MIN {
        x
    } else if x < 0 {
        (-x) as i32
    } else {
        x
    }
}

/// The divide unit's result for the 32-bit input `x`: a reciprocal, or an
/// inverse square root when `sqrt` holds, looked up in the tables and
/// scaled by the input's magnitude, then complemented for a negative
/// input.
pub open spec fn divide(x: i32, sqrt: bool) -> u32 {
    let du = abs_wrapping(x) as u32;
    if du == 0 {
        0x7fff_ffff
    } else if du == 0xffff_8000 {
        0xffff_0000
    } else {
        let shift = u32_leading_zeros(du);
        let index = ((du << shift) & 0x7fc0_0000u32) >> 22u32;
        let value = if sqrt {
            spec_inv_sqrt(((index & 0x1fe) | (shift & 1)) as int)
        } else {
            spec_reciprocal(index as int)
        };
        let scaled = ((0x10000u32 | value as u32) << 14u32) >> (((31 - shift) as u32) >> (if sqrt {
            1u32
        } else {
            0u32
        }));
        if x < 0 {
            scaled ^ 0xffff_ffff
        } else {
            scaled
        }
    }
}

/// The divide unit keeps the sign of its input: for a positive input the
/// result is positive (bit 31 clear), and the result for the negated input
/// is the bitwise complement of it, so negative (bit 31 set).
pub proof fn lemma_divide_sign(x: i32, sqrt: bool)
    requires
        0 < x,
    ensures
        divide(x, sqrt) < 0x8000_0000,
        divide((-x) as i32, sqrt) == divide(x, sqrt) ^ 0xffff_ffff,
        divide((-x) as i32, sqrt) >= 0x8000_0000,
{
    crate::bits::lemma_law_bits();
    let nx = (-x) as i32;
    assert(abs_wrapping(nx) == x);
    assert(abs_wrapping(x) == x);
    let du = x as u32;
    assert(du != 0 && du != 0xffff_8000);
}

/// The input of a full-precision divide step: the lane sign-extended.
pub open spec fn input_double(input: u16) -> i32 {
    input as i16 as i32
}

/// The input of a low divide step: the lane, sign-extended, under the
/// high half that the last high step left in the divide unit.
pub open spec fn input_low(div_in: u32, input: u16) -> i32 {
    ((div_in & 0xffff_0000) as i32) | (input as i16 as i32)
}

fn decode(word: u32) -> (r: (usize, usize))
    ensures
        r.0 == field_vd(word),
        r.1 == field_vd_elem(word) % 8,
        r.0 < 32,
        r.1 < 8,
{
    proof {
        crate::bits::lemma_mask_bounds();
    }
    let vd_elem = ((word >> 11u32) & 31) as usize;
    assert((vd_elem & 7) == vd_elem % 8) by (bit_vector);
    (((word >> 6u32) & 31) as usize, vd_elem & 7)
}

/// Loads the broadcast of `vt` into the accumulator and returns the lane
/// that the instruction works on.
fn prepare(cp2: &mut Cp2, word: u32) -> (input: u16)
    requires
        old(cp2).wf(),
    ensures
        final(cp2).wf(),
        final(cp2)@ == (Cp2View { acc: single_lane_acc(old(cp2)@, word), ..old(cp2)@ }),
        input == single_lane_input(old(cp2)@, word),
{
    proof {
        crate::bits::lemma_mask_bounds();
        cp2.lemma_wf();
    }
    let vt = ((word >> 16u32) & 31) as usize;
    let modifier = ((word >> 21u32) & 15) as usize;
    let vd_elem = ((word >> 11u32) & 31) as usize;
    let source = if modifier < 2 {
        vd_elem & 7
    } else if modifier < 4 {
        (vd_elem & 6) | (modifier & 1)
    } else if modifier < 8 {
        (vd_elem & 4) | (modifier & 3)
    } else {
        modifier & 7
    };
    assert(source < 8 && source == source_element(vd_elem as int, modifier as int)) by {
        assert((vd_elem & 7) == vd_elem % 8 && (modifier & 7) == modifier % 8 && (vd_elem & 6)
            | (modifier & 1) == (vd_elem & 6) + (modifier & 1) && (vd_elem & 4) | (modifier & 3)
            == (vd_elem & 4) + (modifier & 3) && (vd_elem & 6) + (modifier & 1) < 8 && (vd_elem
            & 4) + (modifier & 3) < 8 && (vd_elem & 6) as u32 == (vd_elem as u32) & 6 && (vd_elem
            & 4) as u32 == (vd_elem as u32) & 4 && (modifier & 1) as u32 == (modifier as u32) & 1
            && (modifier & 3) as u32 == (modifier as u32) & 3) by (bit_vector)
            requires
                vd_elem < 32,
                modifier < 16,
        ;
    }
    let acc = cp2.acc_le();
    let input_words = cp2.broadcast_le(vt, modifier);
    let mut new_acc: [u64; 8] = [0u64; 8];
    let mut k: usize = 0;
    while k < 8
        invariant
            k <= 8,
            acc@.len() == 8,
            new_acc@.len() == 8,
            forall|i: int| 0 <= i < k ==> #[trigger] new_acc@[i] == low16(acc@[i], input_words@[i]),
        decreases 8 - k,
    {
        new_acc[k] = (acc[k] & !0xffffu64) | (input_words[k] as u64);
        k = k + 1;
    }
    let input = cp2.lane(vt, source);
    cp2.set_acc_le(new_acc);
    assert(cp2@.acc =~= single_lane_acc(old(cp2)@, word));
    input
}

/// Writes `result` to the destination lane.
fn finish(cp2: &mut Cp2, word: u32, result: u16)
    requires
        old(cp2).wf(),
    ensures
        final(cp2).wf(),
        final(cp2)@ == (Cp2View {
            regs: old(cp2)@.regs.update(
                field_vd(word),
                old(cp2)@.regs[field_vd(word)].update(7 - field_vd_elem(word) % 8, result),
            ),
            ..old(cp2)@
        }),
{
    let (vd, vd_elem) = decode(word);
    cp2.set_lane(vd, vd_elem, result);
}

/// VMOV: copies the selected lane of `vt` to lane `vd_elem` of `vd`.
pub fn vmov(cp2: &mut Cp2, word: u32)
    requires
        old(cp2).wf(),
    ensures
        final(cp2).wf(),
        vmov_post(old(cp2)@, final(cp2)@, word),
{
    let input = prepare(cp2, word);
    finish(cp2, word, input);
}

/// The divide unit: the result for the input `x`, from the tables.
fn calc_divide(cp2: &Cp2, x: i32, sqrt: bool) -> (r: u32)
    requires
        cp2.wf(),
    ensures
        r == divide(x, sqrt),
{
    let d: i32 = if x == i32::MIN {
        x
    } else if x < 0 {
        -x
    } else {
        x
    };
    let du = d as u32;
    if du == 0 {
        return 0x7fff_ffff;
    }
    if du == 0xffff_8000 {
        return 0xffff_0000;
    }
    let shift = du.leading_zeros();
    proof {
        vstd::std_specs::bits::axiom_u32_leading_zeros(du);
        crate::bits::lemma_mask_bounds();
    }
    let index = ((du << shift) & 0x7fc0_0000u32) >> 22u32;
    let value = if sqrt {
        cp2.inv_sqrt_entry(((index & 0x1fe) | (shift & 1)) as usize)
    } else {
        cp2.reciprocal_entry(index as usize)
    };
    let mod_shift: u32 = if sqrt {
        1
    } else {
        0
    };
    let amount = 31 - shift;
    assert((amount >> 1u32) * 2 + (amount & 1) == amount);
    assert(amount >> 0u32 == amount);
    let scaled = ((0x10000u32 | value as u32) << 14u32) >> (amount >> mod_shift);
    if x < 0 {
        scaled ^ 0xffff_ffff
    } else {
        scaled
    }
}

/// A divide step: the unit takes the absolute input, computes its result
/// and the lane receives the result's low 16 bits.
fn calc_reciprocal(cp2: &mut Cp2, word: u32, low: bool, sqrt: bool) -> (x: Ghost<i32>)
    requires
        old(cp2).wf(),
    ensures
        final(cp2).wf(),
        x@ == if low {
            input_low(old(cp2)@.div_in, single_lane_input(old(cp2)@, word))
        } else {
            input_double(single_lane_input(old(cp2)@, word))
        },
        single_lane_post(
            old(cp2)@,
            final(cp2)@,
            word,
            divide(x@, sqrt) as u16,
            abs_wrapping(x@) as u32,
            divide(x@, sqrt),
        ),
{
    let input = prepare(cp2, word);
    let x: i32 = if low {
        ((cp2.div_in() & 0xffff_0000) as i32) | (input as i16 as i32)
    } else {
        input as i16 as i32
    };
    let result = calc_divide(cp2, x, sqrt);
    let div_in: i32 = if x == i32::MIN {
        x
    } else if x < 0 {
        -x
    } else {
        x
    };
    cp2.set_div(div_in as u32, result);
    finish(cp2, word, result as u16);
    Ghost(x)
}

/// VRCP: full-precision reciprocal of the selected lane.
pub fn vrcp(cp2: &mut Cp2, word: u32)
    requires
        old(cp2).wf(),
    ensures
        final(cp2).wf(),
        divide_post(old(cp2)@, final(cp2)@, word, false, false),
{
    calc_reciprocal(cp2, word, false, false);
}

/// VRSQ: full-precision inverse square root of the selected lane.
pub fn vrsq(cp2: &mut Cp2, word: u32)
    requires
        old(cp2).wf(),
    ensures
        final(cp2).wf(),
        divide_post(old(cp2)@, final(cp2)@, word, false, true),
{
    calc_reciprocal(cp2, word, false, true);
}

/// VRCPL: reciprocal of the lane under the high half given by VRCPH.
pub fn vrcpl(cp2: &mut Cp2, word: u32)
    requires
        old(cp2).wf(),
    ensures
        final(cp2).wf(),
        divide_post(old(cp2)@, final(cp2)@, word, true, false),
{
    calc_reciprocal(cp2, word, true, false);
}

/// VRSQL: inverse square root of the lane under the high half given by
/// VRSQH.
pub fn vrsql(cp2: &mut Cp2, word: u32)
    requires
        old(cp2).wf(),
    ensures
        final(cp2).wf(),
        divide_post(old(cp2)@, final(cp2)@, word, true, true),
{
    calc_reciprocal(cp2, word, true, true);
}

/// The high step shared by VRCPH and VRSQH: the lane becomes the high
/// half of the next input, and the destination receives the high half of
/// the last result.
fn high_step(cp2: &mut Cp2, word: u32)
    requires
        old(cp2).wf(),
    ensures
        final(cp2).wf(),
        single_lane_post(
            old(cp2)@,
            final(cp2)@,
            word,
            (old(cp2)@.div_out >> 16u32) as u16,
            (single_lane_input(old(cp2)@, word) as u32) << 16u32,
            old(cp2)@.div_out,
        ),
{
    let input = prepare(cp2, word);
    let div_out = cp2.div_out();
    cp2.set_div((input as u32) << 16u32, div_out);
    finish(cp2, word, (div_out >> 16u32) as u16);
}

/// VRCPH: sets the high half of the reciprocal input; returns the high
/// half of the last result.
pub fn vrcph(cp2: &mut Cp2, word: u32)
    requires
        old(cp2).wf(),
    ensures
        final(cp2).wf(),
        high_step_post(old(cp2)@, final(cp2)@, word),
{
    high_step(cp2, word);
}

/// VRSQH: as VRCPH, for the inverse square root.
pub fn vrsqh(cp2: &mut Cp2, word: u32)
    requires
        old(cp2).wf(),
    ensures
        final(cp2).wf(),
        high_step_post(old(cp2)@, final(cp2)@, word),
{
    high_step(cp2, word);
}

/// VNOP: no operation.
pub fn vnop(cp2: &mut Cp2, word: u32)
    requires
        old(cp2).wf(),
    ensures
        final(cp2).wf(),
        final(cp2)@ == old(cp2)@,
{
}

/// VNULL: no operation.
pub fn vnull(cp2: &mut Cp2, word: u32)
    requires
        old(cp2).wf(),
    ensures
        final(cp2).wf(),
        final(cp2)@ == old(cp2)@,
{
}

} // verus!
