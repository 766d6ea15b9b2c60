//! A 128-bit vector register: eight 16-bit lanes.
//!
//! Lanes are numbered as the RSP numbers them, lane 0 being the most
//! significant; the array that the register holds ("little-endian
//! array") stores them in the opposite order, element 0 being the least
//! significant lane. Byte `b` of the register (0 being the most
//! significant) is what the load and store instructions address.

use vstd::prelude::*;

verus! {

#[derive(Copy, Clone, Debug, PartialEq, Eq)]
pub struct Vector(pub [u16; 8]);

impl View for Vector {
    type V = Seq<u16>;

    open spec fn view(&self) -> Seq<u16> {
        self.0@
    }
}

/// Byte `b` (0: most significant) of a register whose little-endian array
/// is `le`.
pub open spec fn vbyte(le: Seq<u16>, b: int) -> u8 {
    let element = le[7 - b / 2];
    if b % 2 == 0 {
        (element >> 8) as u8
    } else {
        element as u8
    }
}

/// Byte `b` as the reads see it: bytes past the end of the register read
/// as zero.
pub open spec fn read_byte(le: Seq<u16>, b: int) -> u8 {
    if 0 <= b < 16 {
        vbyte(le, b)
    } else {
        0
    }
}

/// The big-endian value of the `n` bytes from byte `index`.
pub open spec fn read_value(le: Seq<u16>, index: int, n: nat) -> nat
    decreases n,
{
    if n == 0 {
        0
    } else {
        read_value(le, index, (n - 1) as nat) * 256 + (read_byte(le, index + n - 1) as nat)
    }
}

/// Byte `k` (0: most significant) of the `n`-byte big-endian encoding of
/// `value`.
pub open spec fn value_byte(value: u64, n: nat, k: int) -> u8 {
    (value >> ((8 * (n - 1 - k)) as u64)) as u8
}

/// 256 to the power `n`.
pub open spec fn pow256(n: nat) -> nat
    decreases n,
{
    if n == 0 {
        1
    } else {
        256 * pow256((n - 1) as nat)
    }
}

/// Lane `index` of the register.
pub open spec fn spec_lane(le: Seq<u16>, index: int) -> u16 {
    le[7 - index]
}

/// The lane that the broadcast modifier `element` selects for lane `lane`.
pub open spec fn broadcast_source(element: usize, lane: usize) -> usize {
    let e = element & 15;
    if e < 2 {
        lane
    } else if e < 4 {
        (lane & 6) | (e & 1)
    } else if e < 8 {
        (lane & 4) | (e & 3)
    } else {
        e & 7
    }
}

/// A modifier selects a lane of the register, and selecting again with the
/// same modifier from the selected lane picks that lane itself.
pub proof fn lemma_lane_source_idempotent(element: usize, lane: usize)
    requires
        lane < 8,
    ensures
        broadcast_source(element, lane) < 8,
        broadcast_source(element, broadcast_source(element, lane)) == broadcast_source(element, lane),
{
    let e = element & 15;
    assert(e < 16) by (bit_vector)
        requires
            e == element & 15,
    ;
    assert(forall|e: usize, lane: usize|
        #![trigger (lane & 6usize) | (e & 1usize)]
        lane < 8 ==> {
            &&& (lane & 6) | (e & 1) < 8
            &&& (lane & 4) | (e & 3) < 8
            &&& e & 7 < 8
            &&& (((lane & 6) | (e & 1)) & 6) | (e & 1) == (lane & 6) | (e & 1)
            &&& (((lane & 4) | (e & 3)) & 4) | (e & 3) == (lane & 4) | (e & 3)
        }) by (bit_vector);
    assert(e & 15 == e) by (bit_vector)
        requires
            e == element & 15,
    ;
    assert((lane & 6usize) | (e & 1usize) < 8);
}

/// Presenting a register twice with the same modifier gives what presenting
/// it once gives: `b1` is `v` presented with `element` and `b2` is `b1`
/// presented with it again.
pub proof fn lemma_present_twice(v: Seq<u16>, b1: Seq<u16>, b2: Seq<u16>, element: usize)
    requires
        v.len() == 8,
        b1.len() == 8,
        b2.len() == 8,
        forall|lane: usize|
            lane < 8 ==> #[trigger] spec_lane(b1, lane as int) == spec_lane(
                v,
                broadcast_source(element, lane) as int,
            ),
        forall|lane: usize|
            lane < 8 ==> #[trigger] spec_lane(b2, lane as int) == spec_lane(
                b1,
                broadcast_source(element, lane) as int,
            ),
    ensures
        b2 == b1,
{
    assert forall|i: int| 0 <= i < 8 implies b2[i] == b1[i] by {
        let lane = (7 - i) as usize;
        lemma_lane_source_idempotent(element, lane);
        let s = broadcast_source(element, lane);
        assert(spec_lane(b2, lane as int) == spec_lane(b1, s as int));
        assert(spec_lane(b1, s as int) == spec_lane(v, broadcast_source(element, s) as int));
        assert(spec_lane(b1, lane as int) == spec_lane(v, s as int));
    }
    assert(b2 =~= b1);
}

/// The little-endian array of a 128-bit value.
pub open spec fn le_of_u128(value: u128) -> Seq<u16> {
    Seq::new(8, |k: int| (value >> ((16 * k) as u128)) as u16)
}

/// The 128-bit value of a little-endian array.
pub open spec fn u128_of_le(le: Seq<u16>) -> u128 {
    (le[0] as u128) | ((le[1] as u128) << 16) | ((le[2] as u128) << 32) | ((le[3] as u128) << 48)
        | ((le[4] as u128) << 64) | ((le[5] as u128) << 80) | ((le[6] as u128) << 96) | ((
    le[7] as u128) << 112)
}

/// The big-endian value of the first `m` bytes of the `n`-byte encoding of
/// `value`.
pub open spec fn encoded_prefix(value: u64, n: nat, m: nat) -> nat
    decreases m,
{
    if m == 0 {
        0
    } else {
        encoded_prefix(value, n, (m - 1) as nat) * 256 + (value_byte(value, n, m - 1) as nat)
    }
}

proof fn lemma_pow256_positive(n: nat)
    ensures
        pow256(n) > 0,
    decreases n,
{
    if n > 0 {
        lemma_pow256_positive((n - 1) as nat);
    }
}

proof fn lemma_byte_split()
    by (bit_vector)
    ensures
        forall|x: u64| #[trigger] ((x >> 8u64) * 256 + (x & 255)) == x,
        forall|x: u64| #[trigger] (x as u8) as u64 == (x & 255),
        forall|x: u64| #[trigger] (x & 255) < 256,
        forall|v: u64, s: u64| s < 56 ==> #[trigger] ((v >> s) >> 8u64) == v >> (s + 8),
{
}

proof fn lemma_encoded_prefix(value: u64, n: nat, m: nat)
    requires
        1 <= n <= 8,
        m <= n,
    ensures
        m > 0 ==> encoded_prefix(value, n, m) == ((value >> ((8 * (n - m)) as u64)) as int)
            % (pow256(m) as int),
    decreases m,
{
    if m > 0 {
        let s = (8 * (n - m)) as u64;
        let x = value >> s;
        lemma_byte_split();
        crate::bits::lemma_div_mod(x as int, 256, (x >> 8u64) as int, (x & 255) as int);
        assert(value_byte(value, n, m - 1) as int == x % 256);
        if m == 1 {
            assert(pow256(1) == 256) by {
                reveal_with_fuel(pow256, 2);
            }
            assert(encoded_prefix(value, n, 0) == 0);
        } else {
            lemma_encoded_prefix(value, n, (m - 1) as nat);
            let y = value >> ((8 * (n - (m - 1))) as u64);
            assert(x >> 8u64 == y);
            assert(pow256(m) == 256 * pow256((m - 1) as nat));
            lemma_pow256_positive((m - 1) as nat);
            vstd::arithmetic::div_mod::lemma_mod_breakdown(x as int, 256, pow256((m - 1) as nat) as int);
        }
    }
}

/// A read of `n` bytes from where `n` bytes of `value` were written gives
/// back the value's low `n` bytes: `before` is the register before the
/// write and `after` the register after it, as `write_bytes` leaves it.
pub proof fn lemma_write_read_back(before: Seq<u16>, after: Seq<u16>, index: int, value: u64, n: nat)
    requires
        before.len() == 8,
        after.len() == 8,
        0 <= index,
        1 <= n <= 8,
        index + n <= 16,
        forall|b: int|
            0 <= b < 16 ==> #[trigger] vbyte(after, b) == if index <= b < index + n {
                value_byte(value, n, b - index)
            } else {
                vbyte(before, b)
            },
    ensures
        read_value(after, index, n) == (value as int) % (pow256(n) as int),
{
    lemma_read_prefix(after, index, value, n, n);
    lemma_encoded_prefix(value, n, n);
    crate::bits::lemma_flag_bits();
    assert(value >> 0u64 == value) by (bit_vector);
}

proof fn lemma_read_prefix(after: Seq<u16>, index: int, value: u64, n: nat, m: nat)
    requires
        after.len() == 8,
        0 <= index,
        m <= n <= 8,
        index + n <= 16,
        forall|b: int|
            index <= b < index + n ==> #[trigger] vbyte(after, b) == value_byte(value, n, b - index),
    ensures
        read_value(after, index, m) == encoded_prefix(value, n, m),
    decreases m,
{
    if m > 0 {
        lemma_read_prefix(after, index, value, n, (m - 1) as nat);
        assert(vbyte(after, index + m - 1) == value_byte(value, n, m - 1));
    }
}

proof fn lemma_pow256_bounds(n: nat)
    requires
        n <= 8,
    ensures
        pow256(n) <= pow256(8),
        pow256(8) == 0x1_0000_0000_0000_0000,
    decreases 8 - n,
{
    reveal_with_fuel(pow256, 9);
    if n < 8 {
        lemma_pow256_bounds(n + 1);
    }
}

impl Vector {
    pub fn from_le_array(value: [u16; 8]) -> (r: Self)
        ensures
            r@ == value@,
    {
        Vector(value)
    }

    pub fn to_le_array(self) -> (r: [u16; 8])
        ensures
            r@ == self@,
    {
        self.0
    }

    /// The register whose lanes, in RSP order, are `value`.
    pub fn from_be_array(value: [u16; 8]) -> (r: Self)
        ensures
            forall|i: int| 0 <= i < 8 ==> #[trigger] spec_lane(r@, i) == value@[i],
            r@.len() == 8,
    {
        let r = Vector(
            [value[7], value[6], value[5], value[4], value[3], value[2], value[1], value[0]],
        );
        r
    }

    /// The lanes in RSP order.
    pub fn to_be_array(self) -> (r: [u16; 8])
        ensures
            forall|i: int| 0 <= i < 8 ==> #[trigger] r@[i] == spec_lane(self@, i),
    {
        [self.0[7], self.0[6], self.0[5], self.0[4], self.0[3], self.0[2], self.0[1], self.0[0]]
    }

    pub fn lane(&self, index: usize) -> (r: u16)
        requires
            index < 8,
        ensures
            r == spec_lane(self@, index as int),
    {
        proof {
            crate::bits::lemma_mask_bounds();
        }
        assert(index ^ 7 == 7 - index);
        self.0[index ^ 7]
    }

    pub fn set_lane(&mut self, index: usize, value: u16)
        requires
            index < 8,
        ensures
            final(self)@ == old(self)@.update(7 - index, value),
    {
        proof {
            crate::bits::lemma_mask_bounds();
        }
        assert(index ^ 7 == 7 - index);
        self.0[index ^ 7] = value;
    }

    /// Byte `b` of the register.
    pub fn byte(&self, b: usize) -> (r: u8)
        requires
            b < 16,
        ensures
            r == vbyte(self@, b as int),
    {
        let element = self.0[7 - b / 2];
        if b % 2 == 0 {
            (element >> 8) as u8
        } else {
            element as u8
        }
    }

    /// Replaces byte `b` of the register.
    pub fn set_byte(&mut self, b: usize, value: u8)
        requires
            b < 16,
        ensures
            forall|c: int|
                0 <= c < 16 ==> #[trigger] vbyte(final(self)@, c) == if c == b {
                    value
                } else {
                    vbyte(old(self)@, c)
                },
            final(self)@.len() == 8,
    {
        let k = 7 - b / 2;
        let element = self.0[k];
        let updated: u16 = if b % 2 == 0 {
            (element & 0x00ff) | ((value as u16) << 8)
        } else {
            (element & 0xff00) | (value as u16)
        };
        self.0[k] = updated;
        assert(((((element & 0x00ff) | ((value as u16) << 8)) >> 8) as u8) == value && (((element
            & 0x00ff) | ((value as u16) << 8)) as u8) == element as u8 && ((((element & 0xff00) | (
        value as u16)) >> 8) as u8) == (element >> 8) as u8 && (((element & 0xff00) | (
        value as u16)) as u8) == value) by (bit_vector);
    }

    /// The big-endian value of the `n` bytes from byte `index`; bytes past
    /// the end of the register read as zero.
    pub fn read_bytes(&self, index: usize, n: usize) -> (r: u64)
        requires
            index < 16,
            n <= 8,
        ensures
            r == read_value(self@, index as int, n as nat),
            r < pow256(n as nat),
    {
        let mut r: u64 = 0;
        let mut k: usize = 0;
        proof {
            lemma_pow256_bounds(0);
        }
        while k < n
            invariant
                index < 16,
                k <= n <= 8,
                r == read_value(self@, index as int, k as nat),
                r < pow256(k as nat),
                self@.len() == 8,
            decreases n - k,
        {
            let b: u8 = if index + k < 16 {
                self.byte(index + k)
            } else {
                0
            };
            proof {
                lemma_pow256_bounds((k + 1) as nat);
                assert((r + 1) * 256 <= pow256(k as nat) * 256) by (nonlinear_arith)
                    requires
                        r < pow256(k as nat),
                ;
                assert(pow256((k + 1) as nat) == 256 * pow256(k as nat));
            }
            r = r * 256 + b as u64;
            k = k + 1;
        }
        r
    }

    /// Writes the `n`-byte big-endian encoding of `value` from byte
    /// `index`; bytes that would fall past the end of the register are
    /// dropped.
    pub fn write_bytes(&mut self, index: usize, value: u64, n: usize)
        requires
            index < 16,
            1 <= n <= 8,
        ensures
            final(self)@.len() == 8,
            forall|b: int|
                0 <= b < 16 ==> #[trigger] vbyte(final(self)@, b) == if index <= b < index + n {
                    value_byte(value, n as nat, b - index)
                } else {
                    vbyte(old(self)@, b)
                },
    {
        let mut k: usize = 0;
        while k < n
            invariant
                index < 16,
                k <= n <= 8,
                1 <= n,
                self@.len() == 8,
                forall|b: int|
                    0 <= b < 16 ==> #[trigger] vbyte(self@, b) == if index <= b < index + k {
                        value_byte(value, n as nat, b - index)
                    } else {
                        vbyte(old(self)@, b)
                    },
            decreases n - k,
        {
            if index + k < 16 {
                let shift: u64 = (8 * (n - 1 - k)) as u64;
                let byte = (value >> shift) as u8;
                self.set_byte(index + k, byte);
            }
            k = k + 1;
        }
    }

    pub fn read_u8(&self, index: usize) -> (r: u8)
        requires
            index < 16,
        ensures
            r == read_value(self@, index as int, 1),
    {
        let v = self.read_bytes(index, 1);
        proof {
            reveal_with_fuel(read_value, 2);
        }
        v as u8
    }

    pub fn read_u16(&self, index: usize) -> (r: u16)
        requires
            index < 16,
        ensures
            r == read_value(self@, index as int, 2),
    {
        let v = self.read_bytes(index, 2);
        proof {
            reveal_with_fuel(pow256, 3);
            assert(pow256(2) == 0x10000);
        }
        v as u16
    }

    pub fn read_u32(&self, index: usize) -> (r: u32)
        requires
            index < 16,
        ensures
            r == read_value(self@, index as int, 4),
    {
        let v = self.read_bytes(index, 4);
        proof {
            reveal_with_fuel(pow256, 5);
            assert(pow256(4) == 0x1_0000_0000);
        }
        v as u32
    }

    pub fn read_u64(&self, index: usize) -> (r: u64)
        requires
            index < 16,
        ensures
            r == read_value(self@, index as int, 8),
    {
        self.read_bytes(index, 8)
    }

    pub fn write_u8(&mut self, index: usize, value: u8)
        requires
            index < 16,
        ensures
            final(self)@.len() == 8,
            forall|b: int|
                0 <= b < 16 ==> #[trigger] vbyte(final(self)@, b) == if b == index {
                    value
                } else {
                    vbyte(old(self)@, b)
                },
    {
        self.write_bytes(index, value as u64, 1);
        assert(value_byte(value as u64, 1, 0) == value) by {
            let v = value as u64;
            crate::bits::lemma_flag_bits();
            assert((v >> 0u64) as u8 == v as u8);
        }
    }

    pub fn write_u16(&mut self, index: usize, value: u16)
        requires
            index < 16,
        ensures
            final(self)@.len() == 8,
            forall|b: int|
                0 <= b < 16 ==> #[trigger] vbyte(final(self)@, b) == if index <= b < index + 2 {
                    value_byte(value as u64, 2, b - index)
                } else {
                    vbyte(old(self)@, b)
                },
    {
        self.write_bytes(index, value as u64, 2);
    }

    pub fn write_u32(&mut self, index: usize, value: u32)
        requires
            index < 16,
        ensures
            final(self)@.len() == 8,
            forall|b: int|
                0 <= b < 16 ==> #[trigger] vbyte(final(self)@, b) == if index <= b < index + 4 {
                    value_byte(value as u64, 4, b - index)
                } else {
                    vbyte(old(self)@, b)
                },
    {
        self.write_bytes(index, value as u64, 4);
    }

    pub fn write_u64(&mut self, index: usize, value: u64)
        requires
            index < 16,
        ensures
            final(self)@.len() == 8,
            forall|b: int|
                0 <= b < 16 ==> #[trigger] vbyte(final(self)@, b) == if index <= b < index + 8 {
                    value_byte(value, 8, b - index)
                } else {
                    vbyte(old(self)@, b)
                },
    {
        self.write_bytes(index, value, 8);
    }

    /// The register as its broadcast modifier `element` presents it: each
    /// lane is replaced by the lane that `broadcast_source` selects.
    pub fn broadcast(&self, element: usize) -> (r: Self)
        ensures
            forall|lane: usize|
                lane < 8 ==> #[trigger] spec_lane(r@, lane as int) == spec_lane(
                    self@,
                    broadcast_source(element, lane) as int,
                ),
            r@.len() == 8,
    {
        let mut out: [u16; 8] = [0;8];
        let mut lane: usize = 0;
        while lane < 8
            invariant
                lane <= 8,
                out@.len() == 8,
                forall|l: usize|
                    l < lane ==> #[trigger] spec_lane(out@, l as int) == spec_lane(
                        self@,
                        broadcast_source(element, l) as int,
                    ),
            decreases 8 - lane,
        {
            let e = element & 15;
            assert(lane < 8 ==> (lane & 6) | (e & 1) < 8 && (lane & 4) | (e & 3) < 8) by (bit_vector);
            proof {
                crate::bits::lemma_mask_bounds();
            }
            assert(e & 7 < 8);
            let source = if e < 2 {
                lane
            } else if e < 4 {
                (lane & 6) | (e & 1)
            } else if e < 8 {
                (lane & 4) | (e & 3)
            } else {
                e & 7
            };
            let value = self.lane(source);
            let ghost prev = out@;
            out[7 - lane] = value;
            assert forall|l: usize| l < lane + 1 implies #[trigger] spec_lane(out@, l as int)
                == spec_lane(self@, broadcast_source(element, l) as int) by {
                if l < lane {
                    assert(spec_lane(prev, l as int) == spec_lane(
                        self@,
                        broadcast_source(element, l) as int,
                    ));
                }
            }
            lane = lane + 1;
        }
        Vector(out)
    }
}

impl From<u128> for Vector {
    fn from(value: u128) -> (r: Self) {
        Vector(
            [
                value as u16,
                (value >> 16) as u16,
                (value >> 32) as u16,
                (value >> 48) as u16,
                (value >> 64) as u16,
                (value >> 80) as u16,
                (value >> 96) as u16,
                (value >> 112) as u16,
            ],
        )
    }
}

impl vstd::std_specs::convert::FromSpecImpl<u128> for Vector {
    open spec fn obeys_from_spec() -> bool {
        true
    }

    open spec fn from_spec(v: u128) -> Vector {
        Vector(
            [
                v as u16,
                (v >> 16) as u16,
                (v >> 32) as u16,
                (v >> 48) as u16,
                (v >> 64) as u16,
                (v >> 80) as u16,
                (v >> 96) as u16,
                (v >> 112) as u16,
            ],
        )
    }
}

impl From<Vector> for u128 {
    fn from(value: Vector) -> (r: u128) {
        (value.0[0] as u128) | ((value.0[1] as u128) << 16) | ((value.0[2] as u128) << 32) | ((
        value.0[3] as u128) << 48) | ((value.0[4] as u128) << 64) | ((value.0[5] as u128) << 80)
            | ((value.0[6] as u128) << 96) | ((value.0[7] as u128) << 112)
    }
}

impl vstd::std_specs::convert::FromSpecImpl<Vector> for u128 {
    open spec fn obeys_from_spec() -> bool {
        true
    }

    open spec fn from_spec(v: Vector) -> u128 {
        u128_of_le(v.0@)
    }
}

} // verus!
