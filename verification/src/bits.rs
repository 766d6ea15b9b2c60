//! Bit-level facts used by the register models, each proved once by the
//! bit-vector solver.

use vstd::prelude::*;

verus! {

/// Setting, clearing and testing single bits of a byte.
pub proof fn lemma_byte_bits()
    by (bit_vector)
    ensures
        forall|c: u8| #[trigger] ((c | 4u8) & 4u8) != 0,
        forall|c: u8| #[trigger] ((c & !4u8) & 4u8) == 0,
        forall|c: u8| #[trigger] ((c | 4u8) | 4u8) == (c | 4u8),
        forall|c: u8| #[trigger] ((c & !4u8) & !4u8) == (c & !4u8),
        forall|s: u8, b: u8| #[trigger] ((s | b) | b) == (s | b),
        forall|s: u8, b: u8| b != 0 ==> #[trigger] ((s | b) & b) != 0,
        forall|s: u8, b: u8| #[trigger] ((s & !b) & b) == 0,
        forall|s: u8, b: u8, o: u8|
            (o == 1 || o == 2 || o == 4 || o == 8 || o == 16 || o == 32) && (b == 1 || b == 2 || b
                == 4 || b == 8 || b == 16 || b == 32) && o != b ==> (#[trigger] ((s | b) & o) != 0)
                == ((s & o) != 0),
        forall|s: u8, b: u8, o: u8|
            (o == 1 || o == 2 || o == 4 || o == 8 || o == 16 || o == 32) && (b == 1 || b == 2 || b
                == 4 || b == 8 || b == 16 || b == 32) && o != b ==> (#[trigger] ((s & !b) & o) != 0)
                == ((s & o) != 0),
        0u8 & 0u8 == 0,
        0u8 & !0x3fu8 == 0,
        forall|s: u8, b: u8| s & !0x3fu8 == 0 && b <= 0x3f ==> #[trigger] ((s | b) & !0x3fu8) == 0,
        forall|s: u8, b: u8| s & !0x3fu8 == 0 && b <= 0x3f ==> #[trigger] ((s & !b) & !0x3fu8) == 0,
{
}

/// Masking bounds a value by its mask.
pub proof fn lemma_mask_bounds()
    by (bit_vector)
    ensures
        forall|x: u32| #[trigger] (x & 0x3ff) <= 0x3ff,
        forall|x: u32| #[trigger] (x & 0xfff) <= 0xfff,
        forall|x: u32| #[trigger] (x & 0x3fff) <= 0x3fff,
        forall|x: u32| #[trigger] (x & 0x1fff) <= 0x1fff,
        forall|x: u32| #[trigger] (x & 0x0003_fff8) <= 0x3fff8,
        forall|x: u32| #[trigger] (x & 3) <= 3,
        forall|x: u32| #[trigger] (x & 7) <= 7,
        forall|x: u32| #[trigger] (x & 15) <= 15,
        forall|x: u32| #[trigger] (x & 31) <= 31,
        forall|x: u32| #[trigger] (x & 0x3f) <= 0x3f,
        forall|x: u32| #[trigger] ((x & 0x7fc0_0000) >> 22u32) < 512,
        forall|i: u32, s: u32| i < 512 ==> #[trigger] ((i & 0x1fe) | (s & 1)) < 512,
        forall|x: u32| x <= 0x1fffe ==> (#[trigger] (x & 0x1_0000) != 0) == (x >= 0x1_0000),
        forall|a: i16, b: i16| (#[trigger] (a ^ b) < 0) == ((a < 0) != (b < 0)),
        forall|x: u16| (#[trigger] (x as i16) == -32768i16) == (x == 0x8000u16),
        forall|x: u32| #[trigger] ((x >> 2) & 3) <= 3,
        forall|x: u32| #[trigger] ((x >> 16) & 0x3ff) <= 0x3ff,
        forall|x: u64| #[trigger] (x & 0x7fff) <= 0x7fff,
        forall|x: u64| #[trigger] ((x >> 16) & 0x7fff) <= 0x7fff,
        forall|x: u64| #[trigger] ((x >> 32) & 0x7fff) <= 0x7fff,
        forall|x: u64| #[trigger] ((x >> 48) & 7) <= 7,
        forall|x: u64| #[trigger] ((x >> 51) & 7) <= 7,
        forall|x: usize| #[trigger] (x & 1) <= 1,
        forall|x: usize| #[trigger] (x & 3) <= 3,
        forall|x: usize| #[trigger] (x & 7) <= 7,
        forall|x: usize| #[trigger] (x & 15) <= 15,
        forall|x: usize| #[trigger] (x >> 3usize) * 8 + (x & 7) == x,
        forall|x: usize| #[trigger] (x >> 24usize) * 0x100_0000 + (x & 0xff_ffff) == x,
        forall|x: usize| #[trigger] (x & 0xff_ffff) <= 0xff_ffff,
        forall|x: u32| #[trigger] (x & 0xff8) <= 0xff8,
        forall|x: u32| #[trigger] (x & 0xff) <= 0xff,
        forall|x: u32| #[trigger] (x & 0x1ff8) == (x & 0x1000) + (x & 0xff8),
        forall|x: u32| #[trigger] (x & 0x1000) == 0 || (x & 0x1000) == 0x1000,
        forall|x: u32| #[trigger] (x & 0x00ff_fff8) <= 0x00ff_fff8,
        forall|x: usize| x < 32 ==> #[trigger] (x & 0x18) + (x & 7) == x,
        forall|b: u16| b < 256 ==> #[trigger] (b << 8u16) == b * 256,
        forall|b: u16| b < 256 ==> #[trigger] (b << 7u16) == b * 128,
        forall|x: usize| x < 8 ==> #[trigger] (x ^ 7) == 7 - x,
        forall|x: u32| x < 8 ==> #[trigger] (x << 1) == x * 2,
        forall|x: u32| #[trigger] (x >> 1u32) * 2 + (x & 1) == x,
        forall|x: u32| #[trigger] (x & 1) <= 1,
        forall|x: u32| #[trigger] (x >> 0u32) == x,
        forall|x: usize| #[trigger] (x >> 1usize) * 2 + (x & 1) == x,
        forall|x: u8| #[trigger] (x & 1) <= 1,
        forall|x: u64| #[trigger] (x >> 1u64) * 2 + (x & 1) == x,
        forall|x: u64| #[trigger] (x >> 0u64) == x,
        forall|x: u64| #[trigger] (x & 1) <= 1,
        forall|x: u64| #[trigger] (x & 63) <= 63,
        forall|x: u64| #[trigger] (x >> 8u64) * 256 + (x & 0xff) == x,
        forall|x: u64| #[trigger] (x & 0xff) <= 0xff,
        forall|x: u64| #[trigger] (x >> 12u64) * 4096 + (x & 0xfff) == x,
        forall|x: u64| #[trigger] (x & 0xfff) <= 0xfff,
        forall|x: u32| #[trigger] (x & 0xffff_fff0) + (x & 15) == x,
        forall|x: u32| #[trigger] (x >> 4u32) * 16 + (x & 15) == x,
        forall|x: u32| #[trigger] (x >> 2u32) * 4 + (x & 3) == x,
        forall|x: u32| #[trigger] (x >> 3u32) * 8 + (x & 7) == x,
        forall|x: u32| x < 8 ==> #[trigger] (x ^ 7) == 7 - x,
        forall|x: u32| x < 4 ==> #[trigger] (x ^ 3) == 3 - x,
        forall|x: u8| #[trigger] ((x >> 4u8) & 1) <= 1,
{
}

/// Flags other than the ones set stay as they were.
pub proof fn lemma_flag_bits()
    by (bit_vector)
    ensures
        forall|s: u32| #[trigger] ((s | 1u32 | 2u32) & 0x40u32) == (s & 0x40u32),
        forall|s: u64| #[trigger] ((s >> 0u64) as u8) == (s as u8),
        forall|s: u128| #[trigger] (s >> 0u128) == s,
        (0x0cu32 >> 2u32) == 3,
        0u64 & 0x8000_0000_0000u64 == 0,
        !0x0fu32 == 0xffff_fff0u32,
        1u64 << 34u64 == 0x4_0000_0000u64,
        1u64 << 17u64 == 0x2_0000u64,
        1u64 << 44u64 == 0x1000_0000_0000u64,
        0u64 & 0xffff_ffff_ffffu64 == 0,
{
}

/// A quotient and remainder that recombine to the dividend are the
/// quotient and remainder of the division.
pub proof fn lemma_div_mod(x: int, d: int, q: int, r: int)
    requires
        d > 0,
        0 <= r < d,
        x == q * d + r,
    ensures
        q == x / d,
        r == x % d,
{
    vstd::arithmetic::div_mod::lemma_fundamental_div_mod_converse(x, d, q, r);
}

/// The low bits of a 64-bit value as remainders, its shifts as quotients.
pub proof fn lemma_low_bits(x: u64)
    ensures
        (x & 0xfff) == x % 4096,
        (x & 1) == x % 2,
        (x >> 1u64) == x / 2,
        (x >> 8u64) == x / 256,
{
    lemma_mask_bounds();
    assert((x >> 12u64) * 4096 + (x & 0xfff) == x);
    assert((x & 0xfff) <= 0xfff);
    lemma_div_mod(x as int, 4096, (x >> 12u64) as int, (x & 0xfff) as int);
    assert((x >> 1u64) * 2 + (x & 1) == x);
    assert((x & 1) <= 1);
    lemma_div_mod(x as int, 2, (x >> 1u64) as int, (x & 1) as int);
    assert((x >> 8u64) * 256 + (x & 0xff) == x);
    assert((x & 0xff) <= 0xff);
    lemma_div_mod(x as int, 256, (x >> 8u64) as int, (x & 0xff) as int);
}

/// Rounding a 32-bit value down to a multiple of 16.
pub proof fn lemma_align16(x: u32)
    ensures
        (x & 0xffff_fff0) == x - x % 16,
        (x & 15) == x % 16,
{
    lemma_mask_bounds();
    assert((x >> 4u32) * 16 + (x & 15) == x);
    assert((x & 15) <= 15);
    lemma_div_mod(x as int, 16, (x >> 4u32) as int, (x & 15) as int);
    assert((x & 0xffff_fff0) + (x & 15) == x);
}

/// The low bits of a small index as remainders.
pub proof fn lemma_small_bits(x: usize)
    ensures
        (x & 7) == x % 8,
        (x & 1) == x % 2,
        (x >> 1usize) == x / 2,
        x < 32 ==> (x & 0x18) == x - x % 8,
{
    lemma_mask_bounds();
    assert((x >> 3usize) * 8 + (x & 7) == x);
    assert((x & 7) <= 7);
    lemma_div_mod(x as int, 8, (x >> 3usize) as int, (x & 7) as int);
    assert((x >> 1usize) * 2 + (x & 1) == x);
    assert((x & 1) <= 1);
    lemma_div_mod(x as int, 2, (x >> 1usize) as int, (x & 1) as int);
    if x < 32 {
        assert((x & 0x18) + (x & 7) == x);
    }
}

/// The low two and three bits of a word as remainders.
pub proof fn lemma_low_bits32(x: u32)
    ensures
        (x & 3) == x % 4,
        (x & 7) == x % 8,
{
    lemma_mask_bounds();
    assert((x >> 2u32) * 4 + (x & 3) == x);
    assert((x & 3) <= 3);
    lemma_div_mod(x as int, 4, (x >> 2u32) as int, (x & 3) as int);
    assert((x >> 3u32) * 8 + (x & 7) == x);
    assert((x & 7) <= 7);
    lemma_div_mod(x as int, 8, (x >> 3u32) as int, (x & 7) as int);
}

/// Whether `on` holds, as the bit `bit` or zero.
pub open spec fn bit_if(on: bool, bit: u8) -> u8 {
    if on {
        bit
    } else {
        0
    }
}

/// Facts behind the laws on nibbles, single-bit status flags, button
/// bytes and the sign of divide results.
pub proof fn lemma_law_bits()
    by (bit_vector)
    ensures
        forall|b: u8| #[trigger] (b & 0xf0u8) == b - b % 16,
        forall|b: u8| #[trigger] ((b << 4u8) as u8) == (b % 16) * 16,
        forall|x: u32, m: u32| m & 1 == 0 ==> #[trigger] ((x | m) & 1) == x & 1,
        forall|x: u32, m: u32| m & 1 == 0 ==> #[trigger] ((x & !m) & 1) == x & 1,
        forall|x: u32| #[trigger] ((x | 1u32) & 1) == 1,
        forall|x: u32| #[trigger] ((x & !1u32) & 1) == 0,
        forall|x: u32| (#[trigger] (x & 3u32) == 0) == ((x & 1) == 0 && (x & 2) == 0),
        2u32 & 1 == 0 && 4u32 & 1 == 0 && 0x10u32 & 1 == 0 && 0x20u32 & 1 == 0 && 0x40u32 & 1 == 0,
        forall|a: bool, b: bool, c: bool, d: bool, e: bool, f: bool, g: bool, h: bool|
            #![trigger (bit_if(a, 0x80) | bit_if(b, 0x40) | bit_if(c, 0x20) | bit_if(d, 0x10)
                | bit_if(e, 0x08) | bit_if(f, 0x04) | bit_if(g, 0x02) | bit_if(h, 0x01))]
            {
                let y = bit_if(a, 0x80) | bit_if(b, 0x40) | bit_if(c, 0x20) | bit_if(d, 0x10)
                    | bit_if(e, 0x08) | bit_if(f, 0x04) | bit_if(g, 0x02) | bit_if(h, 0x01);
                &&& (y & 0x80 != 0) == a
                &&& (y & 0x40 != 0) == b
                &&& (y & 0x20 != 0) == c
                &&& (y & 0x10 != 0) == d
                &&& (y & 0x08 != 0) == e
                &&& (y & 0x04 != 0) == f
                &&& (y & 0x02 != 0) == g
                &&& (y & 0x01 != 0) == h
            },
        forall|v: u32, a: u32| v <= 0xffff ==> #[trigger] (((0x10000u32 | v) << 14u32) >> a) < 0x8000_0000u32,
        forall|s: u32| s < 0x8000_0000u32 ==> #[trigger] (s ^ 0xffff_ffffu32) >= 0x8000_0000u32,
        forall|x: i16| #[trigger] (x as u16 as i16) == x,
{
}

} // verus!
