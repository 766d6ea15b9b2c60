//! The vector select and clip instructions: each lane picks one of its
//! two inputs by a comparison and records the outcome in the flags; the
//! accumulator takes the picked value.

use super::compute::{
    compute, compute_post, lane_flags, neg16, s16, wrap16, ComputeOp, LaneFlags, LaneOut,
};
use super::Cp2;
use vstd::prelude::*;

verus! {

/// The comparison of a select instruction; `other` are the flags of the
/// element with the lane's own index.
pub open spec fn select_condition(op: ComputeOp, other: LaneFlags, l: u16, r: u16) -> bool {
    match op {
        ComputeOp::Vlt => s16(l) < s16(r) || (l == r && other.carry && !other.compare_extension),
        ComputeOp::Veq => l == r && (!other.carry || other.compare_extension),
        ComputeOp::Vne => l != r || (other.carry && !other.compare_extension),
        _ => s16(l) > s16(r) || (l == r && (!other.carry || other.compare_extension)),
    }
}

/// VCL for one lane: the clip against the low half of a double-precision
/// value, as the flags that VCH recorded steer it.
pub open spec fn clip_low_lane(own: LaneFlags, l: u16, r: u16) -> LaneOut {
    if own.carry {
        let lt = if own.not_equal {
            own.compare
        } else if own.compare_extension {
            l as int + r as int <= 0x1_0000
        } else {
            l as int + r as int == 0
        };
        let result = if lt {
            neg16(r)
        } else {
            l
        };
        LaneOut { result, acc: result as u64, flags: LaneFlags { compare: lt, ..own } }
    } else {
        let ge = if own.not_equal {
            own.clip_compare
        } else {
            l >= r
        };
        let result = if ge {
            r
        } else {
            l
        };
        LaneOut { result, acc: result as u64, flags: LaneFlags { clip_compare: ge, ..own } }
    }
}

/// VCH for one lane: the clip against the high half.
pub open spec fn clip_high_lane(l: u16, r: u16) -> LaneOut {
    let carry = (s16(l) < 0) != (s16(r) < 0);
    if carry {
        let value = wrap16(s16(l) + s16(r));
        let lt = value <= 0;
        let result = if lt {
            neg16(r)
        } else {
            l
        };
        LaneOut {
            result,
            acc: result as u64,
            flags: LaneFlags {
                carry,
                not_equal: value != 0 && l != !r,
                compare: lt,
                clip_compare: s16(r) < 0,
                compare_extension: value == -1,
            },
        }
    } else {
        let value = wrap16(s16(l) - s16(r));
        let ge = value >= 0;
        let result = if ge {
            r
        } else {
            l
        };
        LaneOut {
            result,
            acc: result as u64,
            flags: LaneFlags {
                carry,
                not_equal: value != 0 && l != !r,
                compare: s16(r) < 0,
                clip_compare: ge,
                compare_extension: false,
            },
        }
    }
}

/// VCR for one lane: the single-precision clip.
pub open spec fn clip_lane(own: LaneFlags, l: u16, r: u16) -> LaneOut {
    if (s16(l) < 0) != (s16(r) < 0) {
        let lt = wrap16(s16(l) + s16(r)) < 0;
        let result = if lt {
            !r
        } else {
            l
        };
        LaneOut {
            result,
            acc: result as u64,
            flags: LaneFlags { clip_compare: s16(r) < 0, compare: lt, ..own },
        }
    } else {
        let ge = wrap16(s16(l) - s16(r)) >= 0;
        let result = if ge {
            r
        } else {
            l
        };
        LaneOut {
            result,
            acc: result as u64,
            flags: LaneFlags { compare: s16(r) < 0, clip_compare: ge, ..own },
        }
    }
}

/// One lane of a select, clip or merge instruction.
pub open spec fn select_lane(
    op: ComputeOp,
    own: LaneFlags,
    other: LaneFlags,
    l: u16,
    r: u16,
) -> LaneOut {
    match op {
        ComputeOp::Vcl => clip_low_lane(own, l, r),
        ComputeOp::Vch => clip_high_lane(l, r),
        ComputeOp::Vcr => clip_lane(own, l, r),
        ComputeOp::Vmrg => {
            let result = if own.compare {
                l
            } else {
                r
            };
            LaneOut { result, acc: result as u64, flags: own }
        },
        _ => {
            let condition = select_condition(op, other, l, r);
            let result = if condition {
                l
            } else {
                r
            };
            LaneOut { result, acc: result as u64, flags: LaneFlags { compare: condition, ..own } }
        },
    }
}

fn negate(r: u16) -> (n: u16)
    ensures
        n == neg16(r),
{
    0i16.wrapping_sub(r as i16) as u16
}

pub fn select_lane_exec(op: ComputeOp, own: LaneFlags, other: LaneFlags, l: u16, r: u16) -> (res:
    LaneOut)
    requires
        op is Vlt || op is Veq || op is Vne || op is Vge || op is Vcl || op is Vch || op is Vcr
            || op is Vmrg,
    ensures
        res == select_lane(op, own, other, l, r),
{
    let ls = l as i16;
    let rs = r as i16;
    proof {
        crate::bits::lemma_mask_bounds();
    }
    match op {
        ComputeOp::Vcl => {
            if own.carry {
                let lt = if own.not_equal {
                    own.compare
                } else {
                    let sum = l as u32 + r as u32;
                    if own.compare_extension {
                        sum <= 0x10000
                    } else {
                        sum == 0
                    }
                };
                let result = if lt {
                    negate(r)
                } else {
                    l
                };
                LaneOut { result, acc: result as u64, flags: LaneFlags { compare: lt, ..own } }
            } else {
                let ge = if own.not_equal {
                    own.clip_compare
                } else {
                    l >= r
                };
                let result = if ge {
                    r
                } else {
                    l
                };
                LaneOut { result, acc: result as u64, flags: LaneFlags { clip_compare: ge, ..own } }
            }
        },
        ComputeOp::Vch => {
            let carry = (ls ^ rs) < 0;
            if carry {
                let value = ls.wrapping_add(rs);
                let lt = value <= 0;
                let result = if lt {
                    negate(r)
                } else {
                    l
                };
                LaneOut {
                    result,
                    acc: result as u64,
                    flags: LaneFlags {
                        carry,
                        not_equal: value != 0 && (l != !r),
                        compare: lt,
                        clip_compare: rs < 0,
                        compare_extension: value == -1,
                    },
                }
            } else {
                let value = ls.wrapping_sub(rs);
                let ge = value >= 0;
                let result = if ge {
                    r
                } else {
                    l
                };
                LaneOut {
                    result,
                    acc: result as u64,
                    flags: LaneFlags {
                        carry,
                        not_equal: value != 0 && (l != !r),
                        compare: rs < 0,
                        clip_compare: ge,
                        compare_extension: false,
                    },
                }
            }
        },
        ComputeOp::Vcr => {
            if (ls ^ rs) < 0 {
                let lt = ls.wrapping_add(rs) < 0;
                let result = if lt {
                    !r
                } else {
                    l
                };
                LaneOut {
                    result,
                    acc: result as u64,
                    flags: LaneFlags { clip_compare: rs < 0, compare: lt, ..own },
                }
            } else {
                let ge = ls.wrapping_sub(rs) >= 0;
                let result = if ge {
                    r
                } else {
                    l
                };
                LaneOut {
                    result,
                    acc: result as u64,
                    flags: LaneFlags { compare: rs < 0, clip_compare: ge, ..own },
                }
            }
        },
        ComputeOp::Vmrg => {
            let result = if own.compare {
                l
            } else {
                r
            };
            LaneOut { result, acc: result as u64, flags: own }
        },
        _ => {
            let condition = match op {
                ComputeOp::Vlt => ls < rs || (l == r && other.carry && !other.compare_extension),
                ComputeOp::Veq => l == r && (!other.carry || other.compare_extension),
                ComputeOp::Vne => l != r || (other.carry && !other.compare_extension),
                _ => ls > rs || (l == r && (!other.carry || other.compare_extension)),
            };
            let result = if condition {
                l
            } else {
                r
            };
            LaneOut {
                result,
                acc: result as u64,
                flags: LaneFlags { compare: condition, ..own },
            }
        },
    }
}

/// VLT: the lesser of each pair (signed), ties decided by the carry and compare-extension flags.
pub fn vlt(cp2: &mut Cp2, word: u32)
    requires
        old(cp2).wf(),
    ensures
        final(cp2).wf(),
        compute_post(ComputeOp::Vlt, old(cp2)@, final(cp2)@, word),
{
    compute(cp2, word, ComputeOp::Vlt);
}

/// VEQ: selects `vs` where the lanes are equal.
pub fn veq(cp2: &mut Cp2, word: u32)
    requires
        old(cp2).wf(),
    ensures
        final(cp2).wf(),
        compute_post(ComputeOp::Veq, old(cp2)@, final(cp2)@, word),
{
    compute(cp2, word, ComputeOp::Veq);
}

/// VNE: selects `vs` where the lanes differ.
pub fn vne(cp2: &mut Cp2, word: u32)
    requires
        old(cp2).wf(),
    ensures
        final(cp2).wf(),
        compute_post(ComputeOp::Vne, old(cp2)@, final(cp2)@, word),
{
    compute(cp2, word, ComputeOp::Vne);
}

/// VGE: the greater of each pair (signed).
pub fn vge(cp2: &mut Cp2, word: u32)
    requires
        old(cp2).wf(),
    ensures
        final(cp2).wf(),
        compute_post(ComputeOp::Vge, old(cp2)@, final(cp2)@, word),
{
    compute(cp2, word, ComputeOp::Vge);
}

/// VCL: clip test, low half of a double-precision value.
pub fn vcl(cp2: &mut Cp2, word: u32)
    requires
        old(cp2).wf(),
    ensures
        final(cp2).wf(),
        compute_post(ComputeOp::Vcl, old(cp2)@, final(cp2)@, word),
{
    compute(cp2, word, ComputeOp::Vcl);
}

/// VCH: clip test, high half of a double-precision value.
pub fn vch(cp2: &mut Cp2, word: u32)
    requires
        old(cp2).wf(),
    ensures
        final(cp2).wf(),
        compute_post(ComputeOp::Vch, old(cp2)@, final(cp2)@, word),
{
    compute(cp2, word, ComputeOp::Vch);
}

/// VCR: clip test, single precision, ones-complement.
pub fn vcr(cp2: &mut Cp2, word: u32)
    requires
        old(cp2).wf(),
    ensures
        final(cp2).wf(),
        compute_post(ComputeOp::Vcr, old(cp2)@, final(cp2)@, word),
{
    compute(cp2, word, ComputeOp::Vcr);
}

/// VMRG: merges by the compare flags.
pub fn vmrg(cp2: &mut Cp2, word: u32)
    requires
        old(cp2).wf(),
    ensures
        final(cp2).wf(),
        compute_post(ComputeOp::Vmrg, old(cp2)@, final(cp2)@, word),
{
    compute(cp2, word, ComputeOp::Vmrg);
}

} // verus!
