//! RSP coprocessor 2: the vector unit.
//!
//! Thirty-two 128-bit registers, a 48-bit accumulator per lane, five flag
//! bytes (one bit per lane) and the state of the divide unit. The
//! instructions that move values between the general-purpose registers
//! and the unit return the value for the general-purpose register, or
//! take it as an argument; the CPU core writes or reads the register.

pub mod vector;
pub mod compute;
pub mod select;
pub mod single_lane;
pub mod load_store;

use compute::{compute_post, vsar_post, ComputeOp};
use load_store::{
    load_post, lrv_post, ls_address, ltv_post, packed_load_post, packed_store_post, quad_size,
    srv_post, store_post, stv_post,
};
use single_lane::{divide_post, high_step_post, vmov_post};
use vector::{broadcast_source, le_of_u128, read_value, spec_lane, u128_of_le, vbyte, Vector};
use vstd::prelude::*;

verus! {

/// The entries of each divide lookup table.
pub const TABLE_SIZE: usize = 512;

/// The five flag bytes, bit `j` belonging to element `j`.
#[derive(Copy, Clone, Debug, PartialEq, Eq, Structural)]
pub struct Flags {
    pub carry: u8,
    pub not_equal: u8,
    pub compare: u8,
    pub clip_compare: u8,
    pub compare_extension: u8,
}

/// The abstract state of the unit: each register as its little-endian
/// lane array, the accumulator per lane, the flags and the divide unit.
pub struct Cp2View {
    pub regs: Seq<Seq<u16>>,
    pub acc: Seq<u64>,
    pub flags: Flags,
    pub div_in: u32,
    pub div_out: u32,
}

pub struct Cp2 {
    regs: Vec<Vector>,
    accumulator: [u64; 8],
    flags: Flags,
    div_in: u32,
    div_out: u32,
    reciprocal: Vec<u16>,
    inv_sqrt: Vec<u16>,
}

/// Bit `j` of a flag byte.
pub open spec fn flag(bits: u8, j: int) -> bool {
    (bits >> (j as u8)) & 1 == 1
}

/// A 48-bit accumulator value sign-extended to 64 bits.
pub open spec fn sext48(value: u64) -> u64 {
    if value & 0x8000_0000_0000 != 0 {
        (value & 0xffff_ffff_ffff) | 0xffff_0000_0000_0000
    } else {
        value & 0xffff_ffff_ffff
    }
}

/// The entry of the reciprocal table for `index`: 2^34 / (index + 512),
/// rounded, in 16 bits; 0xffff for entry 0.
pub open spec fn spec_reciprocal(index: int) -> u16 {
    if index == 0 {
        0xffff
    } else {
        ((0x4_0000_0000int / (index + 512) + 1) / 256) as u16
    }
}

/// The input of the inverse-square-root table entry `index`.
pub open spec fn inv_sqrt_input(index: int) -> int {
    if index % 2 == 1 {
        (index + 512) / 2
    } else {
        index + 512
    }
}

/// `root` is the least integer from 2^17 on with
/// `input * (root + 1)^2 >= 2^44`.
pub open spec fn is_inv_sqrt_root(input: int, root: int) -> bool {
    &&& 0x2_0000 <= root
    &&& input * ((root + 1) * (root + 1)) >= 0x1000_0000_0000
    &&& (root == 0x2_0000 || input * (root * root) < 0x1000_0000_0000)
}

/// The entry of the inverse-square-root table for `index`: half the root
/// that `is_inv_sqrt_root` describes, in 16 bits.
pub open spec fn spec_inv_sqrt(index: int) -> u16 {
    ((choose|root: int| is_inv_sqrt_root(inv_sqrt_input(index), root)) / 2) as u16
}

/// What the unit's invariant says of its abstract state.
pub open spec fn view_wf(v: Cp2View) -> bool {
    &&& v.regs.len() == 32
    &&& forall|i: int| 0 <= i < 32 ==> (#[trigger] v.regs[i]).len() == 8
    &&& v.acc.len() == 8
    &&& forall|k: int| 0 <= k < 8 ==> sext48(#[trigger] v.acc[k]) == v.acc[k]
}

/// The register index in bits 11-15 of an instruction (`vs`).
pub open spec fn field_vs(word: u32) -> int {
    ((word >> 11u32) & 31) as int
}

/// The element in bits 7-10 of an instruction.
pub open spec fn field_element(word: u32) -> int {
    ((word >> 7u32) & 15) as int
}

/// The general-purpose register in bits 16-20 of an instruction (`rt`).
pub open spec fn field_rt(word: u32) -> int {
    ((word >> 16u32) & 31) as int
}

/// The unit after reset: every register, the accumulator, the flags and
/// the divide unit zero.
pub open spec fn cp2_reset(v: Cp2View) -> bool {
    &&& v.regs == Seq::new(32, |i: int| seq![0u16, 0, 0, 0, 0, 0, 0, 0])
    &&& v.acc == seq![0u64, 0, 0, 0, 0, 0, 0, 0]
    &&& v.flags == (Flags {
        carry: 0,
        not_equal: 0,
        compare: 0,
        clip_compare: 0,
        compare_extension: 0,
    })
    &&& v.div_in == 0
    &&& v.div_out == 0
}

impl View for Cp2 {
    type V = Cp2View;

    closed spec fn view(&self) -> Cp2View {
        Cp2View {
            regs: self.regs@.map_values(|v: Vector| v@),
            acc: self.accumulator@,
            flags: self.flags,
            div_in: self.div_in,
            div_out: self.div_out,
        }
    }
}

proof fn lemma_sext48_idempotent(value: u64)
    by (bit_vector)
    ensures
        (if value & 0x8000_0000_0000 != 0 {
            (value & 0xffff_ffff_ffff) | 0xffff_0000_0000_0000
        } else {
            value & 0xffff_ffff_ffff
        }) & 0x8000_0000_0000 == value & 0x8000_0000_0000,
        ((if value & 0x8000_0000_0000 != 0 {
            (value & 0xffff_ffff_ffff) | 0xffff_0000_0000_0000
        } else {
            value & 0xffff_ffff_ffff
        }) & 0xffff_ffff_ffff) == value & 0xffff_ffff_ffff,
{
}

/// Sign-extending twice is sign-extending once.
pub proof fn lemma_sext48(value: u64)
    ensures
        sext48(sext48(value)) == sext48(value),
{
    lemma_sext48_idempotent(value);
}

/// Setting or clearing bit `j` of a byte leaves the other bits.
proof fn lemma_flag_update(b: u8, j: u8, i: u8)
    by (bit_vector)
    requires
        j < 8,
        i < 8,
    ensures
        ((b | (1u8 << j)) >> i) & 1 == (if i == j {
            1u8
        } else {
            (b >> i) & 1
        }),
        ((b & !(1u8 << j)) >> i) & 1 == (if i == j {
            0u8
        } else {
            (b >> i) & 1
        }),
        (b >> i) & 1 <= 1,
        (0u8 >> i) & 1 == 0,
{
}

/// Bit `j` of a flag byte.
pub fn get_flag(bits: u8, j: usize) -> (r: bool)
    requires
        j < 8,
    ensures
        r == flag(bits, j as int),
{
    (bits >> (j as u8)) & 1 == 1
}

/// A flag byte with bit `j` set to `value`.
pub fn set_flag(bits: u8, j: usize, value: bool) -> (r: u8)
    requires
        j < 8,
    ensures
        forall|i: int| 0 <= i < 8 ==> #[trigger] flag(r, i) == if i == j {
            value
        } else {
            flag(bits, i)
        },
{
    let r = if value {
        bits | (1u8 << (j as u8))
    } else {
        bits & !(1u8 << (j as u8))
    };
    assert forall|i: int| 0 <= i < 8 implies #[trigger] flag(r, i) == if i == j {
        value
    } else {
        flag(bits, i)
    } by {
        lemma_flag_update(bits, j as u8, i as u8);
    }
    r
}

/// The cleared flag byte has no bit set.
pub proof fn lemma_no_flags()
    ensures
        forall|i: int| 0 <= i < 8 ==> !#[trigger] flag(0, i),
{
    assert forall|i: int| 0 <= i < 8 implies !#[trigger] flag(0, i) by {
        lemma_flag_update(0, 0, i as u8);
    }
}

/// The accumulator value sign-extended from bit 47.
pub fn sign_extend48(value: u64) -> (r: u64)
    ensures
        r == sext48(value),
{
    if value & 0x8000_0000_0000 != 0 {
        (value & 0xffff_ffff_ffff) | 0xffff_0000_0000_0000
    } else {
        value & 0xffff_ffff_ffff
    }
}

/// Entry `index` of the reciprocal table.
pub fn reciprocal(index: usize) -> (r: u16)
    requires
        index as int + 512 <= u64::MAX,
    ensures
        r == spec_reciprocal(index as int),
{
    if index == 0 {
        return 0xffff;
    }
    proof {
        crate::bits::lemma_flag_bits();
        crate::bits::lemma_mask_bounds();
    }
    let quotient = (1u64 << 34u64) / (index as u64 + 512);
    ((quotient + 1) >> 8u64) as u16
}

proof fn lemma_square_monotonic(input: int, a: int, b: int)
    by (nonlinear_arith)
    requires
        0 <= input,
        0 <= a <= b,
    ensures
        input * (a * a) <= input * (b * b),
{
}

proof fn lemma_product_bounds(input: int, next: int)
    by (nonlinear_arith)
    requires
        0 <= input <= 1023,
        0 <= next <= 0x4_0001,
    ensures
        input * next <= 1023 * 0x4_0001,
        input * next * next <= 1023 * 0x4_0001 * 0x4_0001,
        input * next * next == input * (next * next),
{
}

proof fn lemma_root_unique(input: int, r1: int, r2: int)
    requires
        0 <= input,
        is_inv_sqrt_root(input, r1),
        is_inv_sqrt_root(input, r2),
    ensures
        r1 == r2,
{
    if r1 < r2 {
        lemma_square_monotonic(input, r1 + 1, r2);
    } else if r2 < r1 {
        lemma_square_monotonic(input, r2 + 1, r1);
    }
}

/// Entry `index` of the inverse-square-root table.
pub fn inv_sqrt(index: usize) -> (r: u16)
    requires
        index < TABLE_SIZE,
    ensures
        r == spec_inv_sqrt(index as int),
{
    proof {
        crate::bits::lemma_mask_bounds();
        crate::bits::lemma_flag_bits();
    }
    let x: u64 = index as u64 + 512;
    let input: u64 = x >> (index as u64 & 1);
    assert(input == inv_sqrt_input(index as int)) by {
        let i = index as u64;
        assert((i >> 1u64) * 2 + (i & 1) == i);
        assert(i & 1 <= 1);
        crate::bits::lemma_div_mod(i as int, 2, (i >> 1u64) as int, (i & 1) as int);
        assert((x >> 1u64) * 2 + (x & 1) == x);
        assert(x & 1 <= 1);
        crate::bits::lemma_div_mod(x as int, 2, (x >> 1u64) as int, (x & 1) as int);
        assert(x >> 0u64 == x);
    }
    assert(256 <= input <= 1023);
    let mut result: u64 = 1u64 << 17u64;
    assert(input * (0x4_0001u64 * 0x4_0001u64) >= 0x1000_0000_0000) by (nonlinear_arith)
        requires
            256 <= input,
    ;
    proof {
        lemma_product_bounds(input as int, (result + 1) as int);
    }
    while (input * (result + 1) * (result + 1)) < (1u64 << 44u64)
        invariant
            256 <= input <= 1023,
            0x2_0000 <= result <= 0x4_0000,
            result == 0x2_0000 || input * (result * result) < 0x1000_0000_0000,
            input * (0x4_0001u64 * 0x4_0001u64) >= 0x1000_0000_0000,
            input * (result + 1) <= 1023 * 0x4_0001,
            input * (result + 1) * (result + 1) <= 1023 * 0x4_0001 * 0x4_0001,
            input * (result + 1) * (result + 1) == input * ((result + 1) * (result + 1)),
            1u64 << 44u64 == 0x1000_0000_0000u64,
        decreases 0x4_0000 - result,
    {
        proof {
            if result + 1 > 0x4_0000 {
                lemma_square_monotonic(input as int, 0x4_0001, (result + 1) as int);
            }
            lemma_product_bounds(input as int, (result + 2) as int);
        }
        result += 1;
    }
    proof {
        assert(is_inv_sqrt_root(input as int, result as int));
        let chosen = choose|root: int| is_inv_sqrt_root(inv_sqrt_input(index as int), root);
        lemma_root_unique(input as int, chosen, result as int);
        assert((result >> 1u64) * 2 + (result & 1) == result);
        assert(result & 1 <= 1);
        crate::bits::lemma_div_mod(result as int, 2, (result >> 1u64) as int, (result & 1) as int);
    }
    (result >> 1u64) as u16
}

impl Cp2 {
    /// The invariant: 32 registers, accumulator values sign-extended from
    /// bit 47 and the two divide tables filled in.
    pub closed spec fn wf(&self) -> bool {
        &&& view_wf(self@)
        &&& self.reciprocal@.len() == TABLE_SIZE
        &&& self.inv_sqrt@.len() == TABLE_SIZE
        &&& forall|i: int| 0 <= i < 512 ==> #[trigger] self.reciprocal@[i] == spec_reciprocal(i)
        &&& forall|i: int| 0 <= i < 512 ==> #[trigger] self.inv_sqrt@[i] == spec_inv_sqrt(i)
    }

    pub proof fn lemma_wf(&self)
        requires
            self.wf(),
        ensures
            view_wf(self@),
    {
    }

    /// All registers, the accumulator and the flags zero; the tables
    /// filled in.
    pub fn new() -> (r: Self)
        ensures
            r.wf(),
            cp2_reset(r@),
    {
        let mut regs: Vec<Vector> = Vec::new();
        let mut i: usize = 0;
        while i < 32
            invariant
                i <= 32,
                regs@.len() == i,
                forall|k: int| 0 <= k < i ==> (#[trigger] regs@[k])@ == seq![0u16, 0, 0, 0, 0, 0, 0, 0],
            decreases 32 - i,
        {
            let zero = Vector([0u16; 8]);
            assert(zero@ =~= seq![0u16, 0, 0, 0, 0, 0, 0, 0]);
            regs.push(zero);
            i = i + 1;
        }
        let mut reciprocal_table: Vec<u16> = Vec::new();
        let mut inv_sqrt_table: Vec<u16> = Vec::new();
        let mut index: usize = 0;
        while index < TABLE_SIZE
            invariant
                index <= TABLE_SIZE,
                reciprocal_table@.len() == index,
                inv_sqrt_table@.len() == index,
                forall|k: int| 0 <= k < index ==> #[trigger] reciprocal_table@[k] == spec_reciprocal(k),
                forall|k: int| 0 <= k < index ==> #[trigger] inv_sqrt_table@[k] == spec_inv_sqrt(k),
            decreases TABLE_SIZE - index,
        {
            reciprocal_table.push(reciprocal(index));
            inv_sqrt_table.push(inv_sqrt(index));
            index = index + 1;
        }
        let r = Cp2 {
            regs,
            accumulator: [0u64; 8],
            flags: Flags { carry: 0, not_equal: 0, compare: 0, clip_compare: 0, compare_extension: 0 },
            div_in: 0,
            div_out: 0,
            reciprocal: reciprocal_table,
            inv_sqrt: inv_sqrt_table,
        };
        assert(r@.regs =~= Seq::new(32, |i: int| seq![0u16, 0, 0, 0, 0, 0, 0, 0]));
        assert(r@.acc =~= seq![0u64, 0, 0, 0, 0, 0, 0, 0]);
        assert forall|k: int| 0 <= k < 8 implies sext48(#[trigger] r@.acc[k]) == r@.acc[k] by {
            crate::bits::lemma_flag_bits();
        }
        r
    }

    /// The register as an unsigned value from byte `element` (bytes past
    /// the end read as zero).
    pub fn get_u8(&self, index: usize, element: usize) -> (r: u8)
        requires
            self.wf(),
            index < 32,
            element < 16,
        ensures
            r == read_value(self@.regs[index as int], element as int, 1),
    {
        self.regs[index].read_u8(element)
    }

    pub fn get_u16(&self, index: usize, element: usize) -> (r: u16)
        requires
            self.wf(),
            index < 32,
            element < 16,
        ensures
            r == read_value(self@.regs[index as int], element as int, 2),
    {
        self.regs[index].read_u16(element)
    }

    pub fn get_u32(&self, index: usize, element: usize) -> (r: u32)
        requires
            self.wf(),
            index < 32,
            element < 16,
        ensures
            r == read_value(self@.regs[index as int], element as int, 4),
    {
        self.regs[index].read_u32(element)
    }

    pub fn get_u64(&self, index: usize, element: usize) -> (r: u64)
        requires
            self.wf(),
            index < 32,
            element < 16,
        ensures
            r == read_value(self@.regs[index as int], element as int, 8),
    {
        self.regs[index].read_u64(element)
    }

    pub fn get_u128(&self, index: usize) -> (r: u128)
        requires
            self.wf(),
            index < 32,
        ensures
            r == u128_of_le(self@.regs[index as int]),
    {
        u128::from(self.regs[index])
    }

    /// The lanes of a register, lane 0 first.
    pub fn get_be(&self, index: usize) -> (r: [u16; 8])
        requires
            self.wf(),
            index < 32,
        ensures
            forall|i: int| 0 <= i < 8 ==> #[trigger] r@[i] == spec_lane(self@.regs[index as int], i),
    {
        self.regs[index].to_be_array()
    }

    /// The little-endian lane array of a register.
    pub fn get_le(&self, index: usize) -> (r: [u16; 8])
        requires
            self.wf(),
            index < 32,
        ensures
            r@ == self@.regs[index as int],
    {
        self.regs[index].to_le_array()
    }

    /// The little-endian lane array of a register under the broadcast
    /// modifier `element`.
    pub fn broadcast_le(&self, index: usize, element: usize) -> (r: [u16; 8])
        requires
            self.wf(),
            index < 32,
        ensures
            forall|k: int|
                0 <= k < 8 ==> #[trigger] r@[k] == spec_lane(
                    self@.regs[index as int],
                    broadcast_source(element, (7 - k) as usize) as int,
                ),
    {
        let v = self.regs[index].broadcast(element);
        assert forall|k: int| 0 <= k < 8 implies #[trigger] v@[k] == spec_lane(
            self@.regs[index as int],
            broadcast_source(element, (7 - k) as usize) as int,
        ) by {
            assert(spec_lane(v@, 7 - k) == v@[k]);
        }
        v.to_le_array()
    }

    /// Lane `element` of a register.
    pub fn lane(&self, index: usize, element: usize) -> (r: u16)
        requires
            self.wf(),
            index < 32,
            element < 8,
        ensures
            r == spec_lane(self@.regs[index as int], element as int),
    {
        self.regs[index].lane(element)
    }

    fn replace_reg(&mut self, index: usize, reg: Vector)
        requires
            old(self).wf(),
            index < 32,
            reg@.len() == 8,
        ensures
            final(self).wf(),
            final(self)@ == (Cp2View { regs: old(self)@.regs.update(index as int, reg@), ..old(self)@ }),
    {
        self.regs.set(index, reg);
        assert(self@.regs =~= old(self)@.regs.update(index as int, reg@));
    }

    pub fn set_u8(&mut self, index: usize, element: usize, value: u8)
        requires
            old(self).wf(),
            index < 32,
            element < 16,
        ensures
            final(self).wf(),
            final(self)@ == (Cp2View { regs: final(self)@.regs, ..old(self)@ }),
            final(self)@.regs == old(self)@.regs.update(index as int, final(self)@.regs[index as int]),
            forall|b: int|
                0 <= b < 16 ==> #[trigger] vbyte(final(self)@.regs[index as int], b) == if b == element {
                    value
                } else {
                    vbyte(old(self)@.regs[index as int], b)
                },
    {
        let mut reg = self.regs[index];
        reg.write_u8(element, value);
        self.replace_reg(index, reg);
    }

    pub fn set_u16(&mut self, index: usize, element: usize, value: u16)
        requires
            old(self).wf(),
            index < 32,
            element < 16,
        ensures
            final(self).wf(),
            final(self)@ == (Cp2View { regs: final(self)@.regs, ..old(self)@ }),
            final(self)@.regs == old(self)@.regs.update(index as int, final(self)@.regs[index as int]),
            forall|b: int|
                0 <= b < 16 ==> #[trigger] vbyte(final(self)@.regs[index as int], b) == if element
                    <= b < element + 2 {
                    vector::value_byte(value as u64, 2, b - element)
                } else {
                    vbyte(old(self)@.regs[index as int], b)
                },
    {
        let mut reg = self.regs[index];
        reg.write_u16(element, value);
        self.replace_reg(index, reg);
    }

    pub fn set_u32(&mut self, index: usize, element: usize, value: u32)
        requires
            old(self).wf(),
            index < 32,
            element < 16,
        ensures
            final(self).wf(),
            final(self)@ == (Cp2View { regs: final(self)@.regs, ..old(self)@ }),
            final(self)@.regs == old(self)@.regs.update(index as int, final(self)@.regs[index as int]),
            forall|b: int|
                0 <= b < 16 ==> #[trigger] vbyte(final(self)@.regs[index as int], b) == if element
                    <= b < element + 4 {
                    vector::value_byte(value as u64, 4, b - element)
                } else {
                    vbyte(old(self)@.regs[index as int], b)
                },
    {
        let mut reg = self.regs[index];
        reg.write_u32(element, value);
        self.replace_reg(index, reg);
    }

    pub fn set_u64(&mut self, index: usize, element: usize, value: u64)
        requires
            old(self).wf(),
            index < 32,
            element < 16,
        ensures
            final(self).wf(),
            final(self)@ == (Cp2View { regs: final(self)@.regs, ..old(self)@ }),
            final(self)@.regs == old(self)@.regs.update(index as int, final(self)@.regs[index as int]),
            forall|b: int|
                0 <= b < 16 ==> #[trigger] vbyte(final(self)@.regs[index as int], b) == if element
                    <= b < element + 8 {
                    vector::value_byte(value, 8, b - element)
                } else {
                    vbyte(old(self)@.regs[index as int], b)
                },
    {
        let mut reg = self.regs[index];
        reg.write_u64(element, value);
        self.replace_reg(index, reg);
    }

    pub fn set_u128(&mut self, index: usize, value: u128)
        requires
            old(self).wf(),
            index < 32,
        ensures
            final(self).wf(),
            final(self)@ == (Cp2View {
                regs: old(self)@.regs.update(index as int, le_of_u128(value)),
                ..old(self)@
            }),
    {
        let reg = Vector::from(value);
        proof {
            crate::bits::lemma_flag_bits();
            assert((value >> 0u128) == value);
        }
        assert(reg@ =~= le_of_u128(value));
        self.replace_reg(index, reg);
    }

    /// Replaces a register by the lanes `value`, lane 0 first.
    pub fn set_be(&mut self, index: usize, value: [u16; 8])
        requires
            old(self).wf(),
            index < 32,
        ensures
            final(self).wf(),
            final(self)@ == (Cp2View {
                regs: old(self)@.regs.update(index as int, final(self)@.regs[index as int]),
                ..old(self)@
            }),
            forall|i: int| 0 <= i < 8 ==> #[trigger] spec_lane(final(self)@.regs[index as int], i) == value@[i],
    {
        let reg = Vector::from_be_array(value);
        self.replace_reg(index, reg);
    }

    /// Replaces a register by the little-endian lane array `value`.
    pub fn set_le(&mut self, index: usize, value: [u16; 8])
        requires
            old(self).wf(),
            index < 32,
        ensures
            final(self).wf(),
            final(self)@ == (Cp2View { regs: old(self)@.regs.update(index as int, value@), ..old(self)@ }),
    {
        self.replace_reg(index, Vector::from_le_array(value));
    }

    /// Replaces lane `element` of a register.
    pub fn set_lane(&mut self, index: usize, element: usize, value: u16)
        requires
            old(self).wf(),
            index < 32,
            element < 8,
        ensures
            final(self).wf(),
            final(self)@ == (Cp2View {
                regs: old(self)@.regs.update(
                    index as int,
                    old(self)@.regs[index as int].update(7 - element, value),
                ),
                ..old(self)@
            }),
    {
        let mut reg = self.regs[index];
        reg.set_lane(element, value);
        self.replace_reg(index, reg);
    }

    /// The accumulator, element 0 first.
    pub fn acc_le(&self) -> (r: [u64; 8])
        ensures
            r@ == self@.acc,
    {
        self.accumulator
    }

    /// Replaces the accumulator, each value sign-extended from bit 47.
    pub fn set_acc_le(&mut self, value: [u64; 8])
        requires
            old(self).wf(),
        ensures
            final(self).wf(),
            final(self)@ == (Cp2View { acc: value@.map_values(|v: u64| sext48(v)), ..old(self)@ }),
    {
        let mut acc: [u64; 8] = [0u64; 8];
        let mut k: usize = 0;
        while k < 8
            invariant
                k <= 8,
                acc@.len() == 8,
                forall|i: int| 0 <= i < k ==> #[trigger] acc@[i] == sext48(value@[i]),
            decreases 8 - k,
        {
            acc[k] = sign_extend48(value[k]);
            k = k + 1;
        }
        self.accumulator = acc;
        assert(self@.acc =~= value@.map_values(|v: u64| sext48(v)));
        assert forall|k: int| 0 <= k < 8 implies sext48(#[trigger] self@.acc[k]) == self@.acc[k] by {
            lemma_sext48(value@[k]);
        }
    }

    pub fn flags(&self) -> (r: Flags)
        ensures
            r == self@.flags,
    {
        self.flags
    }

    pub fn set_flags(&mut self, flags: Flags)
        requires
            old(self).wf(),
        ensures
            final(self).wf(),
            final(self)@ == (Cp2View { flags, ..old(self)@ }),
    {
        self.flags = flags;
    }

    pub fn div_in(&self) -> (r: u32)
        ensures
            r == self@.div_in,
    {
        self.div_in
    }

    pub fn div_out(&self) -> (r: u32)
        ensures
            r == self@.div_out,
    {
        self.div_out
    }

    pub fn set_div(&mut self, div_in: u32, div_out: u32)
        requires
            old(self).wf(),
        ensures
            final(self).wf(),
            final(self)@ == (Cp2View { div_in, div_out, ..old(self)@ }),
    {
        self.div_in = div_in;
        self.div_out = div_out;
    }

    /// Entry `index` of the reciprocal table.
    pub fn reciprocal_entry(&self, index: usize) -> (r: u16)
        requires
            self.wf(),
            index < TABLE_SIZE,
        ensures
            r == spec_reciprocal(index as int),
    {
        self.reciprocal[index]
    }

    /// Entry `index` of the inverse-square-root table.
    pub fn inv_sqrt_entry(&self, index: usize) -> (r: u16)
        requires
            self.wf(),
            index < TABLE_SIZE,
        ensures
            r == spec_inv_sqrt(index as int),
    {
        self.inv_sqrt[index]
    }
}

/// The value that MFC2 writes to the general-purpose register: the 16
/// bits from byte `element` of register `vs`, sign-extended.
pub open spec fn spec_mfc2(v: Cp2View, word: u32) -> u32 {
    (read_value(v.regs[field_vs(word)], field_element(word), 2) as u16) as i16 as u32
}

/// The control register `index` as CFC2 reads it: VCO holds carry and
/// not-equal, VCC compare and clip-compare, VCE compare-extension; the
/// others read as zero.
pub open spec fn control_value(flags: Flags, index: int) -> u16 {
    if index == 0 {
        (flags.carry as u16) | ((flags.not_equal as u16) << 8u16)
    } else if index == 1 {
        (flags.compare as u16) | ((flags.clip_compare as u16) << 8u16)
    } else if index == 2 {
        flags.compare_extension as u16
    } else {
        0
    }
}

/// The flags after CTC2 writes `value` to control register `index`.
pub open spec fn flags_after_ctc2(flags: Flags, index: int, value: u32) -> Flags {
    if index == 0 {
        Flags { carry: value as u8, not_equal: (value >> 8u32) as u8, ..flags }
    } else if index == 1 {
        Flags { compare: value as u8, clip_compare: (value >> 8u32) as u8, ..flags }
    } else if index == 2 {
        Flags { compare_extension: value as u8, ..flags }
    } else {
        flags
    }
}

fn decode_move(word: u32) -> (r: (usize, usize))
    ensures
        r.0 == field_vs(word),
        r.1 == field_element(word),
        r.0 < 32,
        r.1 < 16,
{
    proof {
        crate::bits::lemma_mask_bounds();
    }
    (((word >> 11u32) & 31) as usize, ((word >> 7u32) & 15) as usize)
}

impl Cp2 {
    /// MFC2: the value for general-purpose register `rt` (bits 16-20).
    pub fn mfc2(&self, word: u32) -> (r: u32)
        requires
            self.wf(),
        ensures
            r == spec_mfc2(self@, word),
    {
        let (vs, element) = decode_move(word);
        let value = self.get_u16(vs, element);
        value as i16 as u32
    }

    /// MTC2: writes the low 16 bits of `value`, the contents of
    /// general-purpose register `rt`, from byte `element` of register `vs`.
    pub fn mtc2(&mut self, word: u32, value: u32)
        requires
            old(self).wf(),
        ensures
            final(self).wf(),
            final(self)@ == (Cp2View { regs: final(self)@.regs, ..old(self)@ }),
            final(self)@.regs == old(self)@.regs.update(
                field_vs(word),
                final(self)@.regs[field_vs(word)],
            ),
            forall|b: int|
                0 <= b < 16 ==> #[trigger] vbyte(final(self)@.regs[field_vs(word)], b) == if field_element(word)
                    <= b < field_element(word) + 2 {
                    vector::value_byte(value as u16 as u64, 2, b - field_element(word))
                } else {
                    vbyte(old(self)@.regs[field_vs(word)], b)
                },
    {
        let (vs, element) = decode_move(word);
        self.set_u16(vs, element, value as u16);
    }

    /// CFC2: the value of control register `vs` for general-purpose
    /// register `rt`, sign-extended from 16 bits.
    pub fn cfc2(&self, word: u32) -> (r: u32)
        requires
            self.wf(),
        ensures
            r == control_value(self@.flags, field_vs(word)) as i16 as u32,
    {
        let (vs, _element) = decode_move(word);
        let flags = self.flags;
        let value: u16 = if vs == 0 {
            (flags.carry as u16) | ((flags.not_equal as u16) << 8u16)
        } else if vs == 1 {
            (flags.compare as u16) | ((flags.clip_compare as u16) << 8u16)
        } else if vs == 2 {
            flags.compare_extension as u16
        } else {
            0
        };
        value as i16 as u32
    }

    /// CTC2: writes `value`, the contents of general-purpose register
    /// `rt`, to control register `vs`; the low 16 bits also go to byte
    /// `element` of vector register `vs`.
    pub fn ctc2(&mut self, word: u32, value: u32)
        requires
            old(self).wf(),
        ensures
            final(self).wf(),
            final(self)@ == (Cp2View {
                regs: final(self)@.regs,
                flags: flags_after_ctc2(old(self)@.flags, field_vs(word), value),
                ..old(self)@
            }),
            final(self)@.regs == old(self)@.regs.update(
                field_vs(word),
                final(self)@.regs[field_vs(word)],
            ),
            forall|b: int|
                0 <= b < 16 ==> #[trigger] vbyte(final(self)@.regs[field_vs(word)], b) == if field_element(word)
                    <= b < field_element(word) + 2 {
                    vector::value_byte(value as u16 as u64, 2, b - field_element(word))
                } else {
                    vbyte(old(self)@.regs[field_vs(word)], b)
                },
    {
        let (vs, element) = decode_move(word);
        let flags = self.flags;
        if vs == 0 {
            self.flags = Flags { carry: value as u8, not_equal: (value >> 8u32) as u8, ..flags };
        } else if vs == 1 {
            self.flags = Flags { compare: value as u8, clip_compare: (value >> 8u32) as u8, ..flags };
        } else if vs == 2 {
            self.flags = Flags { compare_extension: value as u8, ..flags };
        }
        self.set_u16(vs, element, value as u16);
    }
}

/// The lane operation of the compute instruction with function `funct`.
pub open spec fn cop2_compute_op(funct: int) -> Option<ComputeOp> {
    if funct == 0x00 {
        Some(ComputeOp::Vmulf)
    } else if funct == 0x01 {
        Some(ComputeOp::Vmulu)
    } else if funct == 0x04 {
        Some(ComputeOp::Vmudl)
    } else if funct == 0x05 {
        Some(ComputeOp::Vmudm)
    } else if funct == 0x06 {
        Some(ComputeOp::Vmudn)
    } else if funct == 0x07 {
        Some(ComputeOp::Vmudh)
    } else if funct == 0x08 {
        Some(ComputeOp::Vmacf)
    } else if funct == 0x09 {
        Some(ComputeOp::Vmacu)
    } else if funct == 0x0c {
        Some(ComputeOp::Vmadl)
    } else if funct == 0x0d {
        Some(ComputeOp::Vmadm)
    } else if funct == 0x0e {
        Some(ComputeOp::Vmadn)
    } else if funct == 0x0f {
        Some(ComputeOp::Vmadh)
    } else if funct == 0x10 {
        Some(ComputeOp::Vadd)
    } else if funct == 0x11 {
        Some(ComputeOp::Vsub)
    } else if funct == 0x13 {
        Some(ComputeOp::Vabs)
    } else if funct == 0x14 {
        Some(ComputeOp::Vaddc)
    } else if funct == 0x15 {
        Some(ComputeOp::Vsubc)
    } else if funct == 0x20 {
        Some(ComputeOp::Vlt)
    } else if funct == 0x21 {
        Some(ComputeOp::Veq)
    } else if funct == 0x22 {
        Some(ComputeOp::Vne)
    } else if funct == 0x23 {
        Some(ComputeOp::Vge)
    } else if funct == 0x24 {
        Some(ComputeOp::Vcl)
    } else if funct == 0x25 {
        Some(ComputeOp::Vch)
    } else if funct == 0x26 {
        Some(ComputeOp::Vcr)
    } else if funct == 0x27 {
        Some(ComputeOp::Vmrg)
    } else if funct == 0x28 {
        Some(ComputeOp::Vand)
    } else if funct == 0x29 {
        Some(ComputeOp::Vnand)
    } else if funct == 0x2a {
        Some(ComputeOp::Vor)
    } else if funct == 0x2b {
        Some(ComputeOp::Vnor)
    } else if funct == 0x2c {
        Some(ComputeOp::Vxor)
    } else if funct == 0x2d {
        Some(ComputeOp::Vnxor)
    } else {
        None
    }
}

/// Whether the vector unit implements the function `funct`.
pub open spec fn is_cop2_funct(funct: int) -> bool {
    cop2_compute_op(funct) is Some || funct == 0x1d || (0x30 <= funct <= 0x37) || funct == 0x3f
}

/// The state after the COP2 instruction `word`.
pub open spec fn cop2_post(old: Cp2View, new: Cp2View, word: u32) -> bool {
    let funct = (word & 0x3f) as int;
    match cop2_compute_op(funct) {
        Some(op) => compute_post(op, old, new, word),
        None => if funct == 0x1d {
            vsar_post(old, new, word)
        } else if funct == 0x30 {
            divide_post(old, new, word, false, false)
        } else if funct == 0x31 {
            divide_post(old, new, word, true, false)
        } else if funct == 0x32 || funct == 0x36 {
            high_step_post(old, new, word)
        } else if funct == 0x33 {
            vmov_post(old, new, word)
        } else if funct == 0x34 {
            divide_post(old, new, word, false, true)
        } else if funct == 0x35 {
            divide_post(old, new, word, true, true)
        } else {
            new == old
        },
    }
}

/// Whether LWC2 and SWC2 implement the sub-opcode `opcode`.
pub open spec fn is_load_store_opcode(opcode: int) -> bool {
    (0 <= opcode <= 7) || opcode == 0x0b
}

/// The state after the LWC2 instruction `word`.
pub open spec fn lwc2_post(old: Cp2View, new: Cp2View, mem: Seq<u8>, base: u32, word: u32) -> bool {
    let opcode = load_store::field_opcode(word);
    if opcode == 0 {
        load_post(old, new, mem, base, word, 1, 0)
    } else if opcode == 1 {
        load_post(old, new, mem, base, word, 2, 1)
    } else if opcode == 2 {
        load_post(old, new, mem, base, word, 4, 2)
    } else if opcode == 3 {
        load_post(old, new, mem, base, word, 8, 3)
    } else if opcode == 4 {
        load_post(
            old,
            new,
            mem,
            base,
            word,
            quad_size(ls_address(base, word, 4), load_store::field_element(word)),
            4,
        )
    } else if opcode == 5 {
        lrv_post(old, new, mem, base, word)
    } else if opcode == 6 {
        packed_load_post(old, new, mem, base, word, 256)
    } else if opcode == 7 {
        packed_load_post(old, new, mem, base, word, 128)
    } else {
        ltv_post(old, new, mem, base, word)
    }
}

/// DMEM after the SWC2 instruction `word`.
pub open spec fn swc2_post(old_mem: Seq<u8>, new_mem: Seq<u8>, v: Cp2View, base: u32, word: u32) -> bool {
    let opcode = load_store::field_opcode(word);
    if opcode == 0 {
        store_post(old_mem, new_mem, v, base, word, 1, 0)
    } else if opcode == 1 {
        store_post(old_mem, new_mem, v, base, word, 2, 1)
    } else if opcode == 2 {
        store_post(old_mem, new_mem, v, base, word, 4, 2)
    } else if opcode == 3 {
        store_post(old_mem, new_mem, v, base, word, 8, 3)
    } else if opcode == 4 {
        store_post(
            old_mem,
            new_mem,
            v,
            base,
            word,
            quad_size(ls_address(base, word, 4), load_store::field_element(word)),
            4,
        )
    } else if opcode == 5 {
        srv_post(old_mem, new_mem, v, base, word)
    } else if opcode == 6 {
        packed_store_post(old_mem, new_mem, v, base, word, 8)
    } else if opcode == 7 {
        packed_store_post(old_mem, new_mem, v, base, word, 7)
    } else {
        stv_post(old_mem, new_mem, v, base, word)
    }
}

impl Cp2 {
    /// COP2: runs the vector instruction whose function is bits 0-5.
    pub fn cop2(&mut self, word: u32)
        requires
            old(self).wf(),
            is_cop2_funct((word & 0x3f) as int),
        ensures
            final(self).wf(),
            cop2_post(old(self)@, final(self)@, word),
    {
        let funct = word & 0x3f;
        if funct == 0x00 {
            compute::vmulf(self, word)
        } else if funct == 0x01 {
            compute::vmulu(self, word)
        } else if funct == 0x04 {
            compute::vmudl(self, word)
        } else if funct == 0x05 {
            compute::vmudm(self, word)
        } else if funct == 0x06 {
            compute::vmudn(self, word)
        } else if funct == 0x07 {
            compute::vmudh(self, word)
        } else if funct == 0x08 {
            compute::vmacf(self, word)
        } else if funct == 0x09 {
            compute::vmacu(self, word)
        } else if funct == 0x0c {
            compute::vmadl(self, word)
        } else if funct == 0x0d {
            compute::vmadm(self, word)
        } else if funct == 0x0e {
            compute::vmadn(self, word)
        } else if funct == 0x0f {
            compute::vmadh(self, word)
        } else if funct == 0x10 {
            compute::vadd(self, word)
        } else if funct == 0x11 {
            compute::vsub(self, word)
        } else if funct == 0x13 {
            compute::vabs(self, word)
        } else if funct == 0x14 {
            compute::vaddc(self, word)
        } else if funct == 0x15 {
            compute::vsubc(self, word)
        } else if funct == 0x1d {
            compute::vsar(self, word)
        } else if funct == 0x20 {
            select::vlt(self, word)
        } else if funct == 0x21 {
            select::veq(self, word)
        } else if funct == 0x22 {
            select::vne(self, word)
        } else if funct == 0x23 {
            select::vge(self, word)
        } else if funct == 0x24 {
            select::vcl(self, word)
        } else if funct == 0x25 {
            select::vch(self, word)
        } else if funct == 0x26 {
            select::vcr(self, word)
        } else if funct == 0x27 {
            select::vmrg(self, word)
        } else if funct == 0x28 {
            compute::vand(self, word)
        } else if funct == 0x29 {
            compute::vnand(self, word)
        } else if funct == 0x2a {
            compute::vor(self, word)
        } else if funct == 0x2b {
            compute::vnor(self, word)
        } else if funct == 0x2c {
            compute::vxor(self, word)
        } else if funct == 0x2d {
            compute::vnxor(self, word)
        } else if funct == 0x30 {
            single_lane::vrcp(self, word)
        } else if funct == 0x31 {
            single_lane::vrcpl(self, word)
        } else if funct == 0x32 {
            single_lane::vrcph(self, word)
        } else if funct == 0x33 {
            single_lane::vmov(self, word)
        } else if funct == 0x34 {
            single_lane::vrsq(self, word)
        } else if funct == 0x35 {
            single_lane::vrsql(self, word)
        } else if funct == 0x36 {
            single_lane::vrsqh(self, word)
        } else if funct == 0x37 {
            single_lane::vnop(self, word)
        } else {
            single_lane::vnull(self, word)
        }
    }

    /// LWC2: runs the vector load selected by bits 11-15; `base` is the
    /// contents of the general-purpose register in bits 21-25 and `mem`
    /// the RSP memory, DMEM first.
    pub fn lwc2(&mut self, mem: &Vec<u8>, base: u32, word: u32)
        requires
            old(self).wf(),
            mem@.len() >= load_store::DMEM_SIZE,
            is_load_store_opcode(load_store::field_opcode(word)),
            load_store::field_opcode(word) == 4 ==> ls_address(base, word, 4) <= 0xffff_ffef,
        ensures
            final(self).wf(),
            lwc2_post(old(self)@, final(self)@, mem@, base, word),
    {
        proof {
            crate::bits::lemma_mask_bounds();
        }
        let opcode = (word >> 11u32) & 0x1f;
        assert(opcode == load_store::field_opcode(word)) by (bit_vector)
            requires
                opcode == (word >> 11u32) & 0x1f,
        ;
        if opcode == 0x00 {
            load_store::lbv(self, mem, base, word)
        } else if opcode == 0x01 {
            load_store::lsv(self, mem, base, word)
        } else if opcode == 0x02 {
            load_store::llv(self, mem, base, word)
        } else if opcode == 0x03 {
            load_store::ldv(self, mem, base, word)
        } else if opcode == 0x04 {
            load_store::lqv(self, mem, base, word)
        } else if opcode == 0x05 {
            load_store::lrv(self, mem, base, word)
        } else if opcode == 0x06 {
            load_store::lpv(self, mem, base, word)
        } else if opcode == 0x07 {
            load_store::luv(self, mem, base, word)
        } else {
            load_store::ltv(self, mem, base, word)
        }
    }

    /// SWC2: runs the vector store selected by bits 11-15.
    pub fn swc2(&mut self, mem: &mut Vec<u8>, base: u32, word: u32)
        requires
            old(self).wf(),
            old(mem)@.len() >= load_store::DMEM_SIZE,
            is_load_store_opcode(load_store::field_opcode(word)),
            load_store::field_opcode(word) == 4 ==> ls_address(base, word, 4) <= 0xffff_ffef,
        ensures
            final(self).wf(),
            final(self)@ == old(self)@,
            swc2_post(old(mem)@, final(mem)@, old(self)@, base, word),
    {
        proof {
            crate::bits::lemma_mask_bounds();
        }
        let opcode = (word >> 11u32) & 0x1f;
        assert(opcode == load_store::field_opcode(word)) by (bit_vector)
            requires
                opcode == (word >> 11u32) & 0x1f,
        ;
        if opcode == 0x00 {
            load_store::sbv(self, mem, base, word)
        } else if opcode == 0x01 {
            load_store::ssv(self, mem, base, word)
        } else if opcode == 0x02 {
            load_store::slv(self, mem, base, word)
        } else if opcode == 0x03 {
            load_store::sdv(self, mem, base, word)
        } else if opcode == 0x04 {
            load_store::sqv(self, mem, base, word)
        } else if opcode == 0x05 {
            load_store::srv(self, mem, base, word)
        } else if opcode == 0x06 {
            load_store::spv(self, mem, base, word)
        } else if opcode == 0x07 {
            load_store::suv(self, mem, base, word)
        } else {
            load_store::stv(self, mem, base, word)
        }
    }
}

} // verus!
