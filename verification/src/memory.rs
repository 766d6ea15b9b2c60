//! Masked register writes.
//!
//! A CPU store to a memory-mapped register may only cover some of its bytes.
//! `Masked` carries the stored value together with the mask of the bits that
//! the store actually writes.

use vstd::prelude::*;

verus! {

/// A register write: the value and the mask of the bits it covers.
#[derive(Copy, Clone, Debug, PartialEq, Eq, Structural)]
pub struct Masked {
    pub value: u32,
    pub mask: u32,
}

/// The register value after a masked write of `value` under `mask` onto `prev`.
pub open spec fn spec_apply(value: u32, mask: u32, prev: u32) -> u32 {
    (prev & !mask) | (value & mask)
}

impl Masked {
    pub fn new(value: u32, mask: u32) -> (r: Self)
        ensures
            r.value == value,
            r.mask == mask,
    {
        Masked { value, mask }
    }

    /// A write that covers the whole register.
    pub fn full(value: u32) -> (r: Self)
        ensures
            r.value == value,
            r.mask == 0xffff_ffff,
    {
        Masked { value, mask: 0xffff_ffff }
    }

    /// The bits that the write covers; the others read as zero.
    pub fn get(&self) -> (r: u32)
        ensures
            r == self.value & self.mask,
    {
        self.value & self.mask
    }

    /// Merges the write into the previous register value.
    pub fn apply(&self, prev: u32) -> (r: u32)
        ensures
            r == spec_apply(self.value, self.mask, prev),
    {
        (prev & !self.mask) | (self.value & self.mask)
    }
}

/// Applying the same masked write twice has the effect of applying it once,
/// a write under a full mask replaces the register, and a write under an
/// empty mask leaves it unchanged.
pub proof fn lemma_apply_laws(value: u32, mask: u32, prev: u32)
    by (bit_vector)
    ensures
        spec_apply(value, mask, spec_apply(value, mask, prev)) == spec_apply(value, mask, prev),
        spec_apply(value, 0xffff_ffff, prev) == value,
        spec_apply(value, 0, prev) == prev,
        spec_apply(value, mask, prev) & mask == value & mask,
        spec_apply(value, mask, prev) & !mask == prev & !mask,
{
}

/// `v` with the bits of `mask` set (`on`) or cleared.
pub open spec fn with_bits(v: u32, mask: u32, on: bool) -> u32 {
    if on {
        v | mask
    } else {
        v & !mask
    }
}

/// One step of a clear/set pair update of an 8-bit field: input bit
/// `base + 2 * bit` clears field bit `bit`, then input bit
/// `base + 2 * bit + 1` sets it.
pub open spec fn pair_step(v: u8, input: u32, base: u32, bit: u32) -> u8 {
    let v1 = if input & (1u32 << (base + bit * 2)) != 0 { v & !(1u8 << bit) } else { v };
    if input & (1u32 << (base + bit * 2 + 1)) != 0 { v1 | (1u8 << bit) } else { v1 }
}

/// The field after the clear/set pair updates of bits `0..n`.
pub open spec fn pair_update(v: u8, input: u32, base: u32, n: u32) -> u8
    decreases n,
{
    if n == 0 {
        v
    } else {
        pair_step(pair_update(v, input, base, (n - 1) as u32), input, base, (n - 1) as u32)
    }
}

/// Applies the clear/set pair updates for bits `0..n` of an 8-bit field
/// whose pairs start at input bit `base`.
pub fn apply_pair_update(v: u8, input: u32, base: u32, n: u32) -> (r: u8)
    requires
        n <= 8,
        base + 2 * n <= 32,
    ensures
        r == pair_update(v, input, base, n),
{
    let mut r = v;
    let mut bit: u32 = 0;
    while bit < n
        invariant
            bit <= n <= 8,
            base + 2 * n <= 32,
            r == pair_update(v, input, base, bit),
        decreases n - bit,
    {
        proof {
            crate::bits::lemma_mask_bounds();
        }
        assert(bit << 1 == bit * 2);
        let shift = base + (bit << 1);
        if (input & (1u32 << shift)) != 0 {
            r = r & !(1u8 << bit);
        }
        if (input & (1u32 << (shift + 1))) != 0 {
            r = r | (1u8 << bit);
        }
        bit = bit + 1;
    }
    r
}

/// The big-endian 32-bit word made of four bytes.
pub open spec fn be_u32(b0: u8, b1: u8, b2: u8, b3: u8) -> u32 {
    ((b0 as u32) * 0x0100_0000 + (b1 as u32) * 0x0001_0000 + (b2 as u32) * 0x0100 + (
    b3 as u32)) as u32
}

/// The big-endian 32-bit word stored at `addr`.
pub open spec fn spec_read_be_u32(mem: Seq<u8>, addr: int) -> u32 {
    be_u32(mem[addr], mem[addr + 1], mem[addr + 2], mem[addr + 3])
}

/// Byte `k` (0 is the most significant) of the big-endian encoding of `value`.
pub open spec fn be_byte(value: u32, k: int) -> u8 {
    if k == 0 {
        (value >> 24) as u8
    } else if k == 1 {
        (value >> 16) as u8
    } else if k == 2 {
        (value >> 8) as u8
    } else {
        value as u8
    }
}

/// Memory after storing `value` big-endian at `addr`.
pub open spec fn spec_write_be_u32(mem: Seq<u8>, addr: int, value: u32) -> Seq<u8> {
    mem.update(addr, be_byte(value, 0)).update(addr + 1, be_byte(value, 1)).update(
        addr + 2,
        be_byte(value, 2),
    ).update(addr + 3, be_byte(value, 3))
}

/// The bytes of a big-endian word give the word back.
pub proof fn lemma_be_u32_bytes(value: u32)
    ensures
        be_u32(be_byte(value, 0), be_byte(value, 1), be_byte(value, 2), be_byte(value, 3))
            == value,
{
    let b0 = (value >> 24) as u8;
    let b1 = (value >> 16) as u8;
    let b2 = (value >> 8) as u8;
    let b3 = value as u8;
    assert((b0 as u32) * 0x0100_0000 + (b1 as u32) * 0x0001_0000 + (b2 as u32) * 0x0100 + (
    b3 as u32) == value) by (bit_vector)
        requires
            b0 == (value >> 24) as u8,
            b1 == (value >> 16) as u8,
            b2 == (value >> 8) as u8,
            b3 == value as u8,
    ;
}

/// A big-endian word stored at `addr` is read back from `addr`; the
/// store keeps the memory's length.
pub proof fn lemma_write_read_be_u32(mem: Seq<u8>, addr: int, value: u32)
    requires
        0 <= addr,
        addr + 4 <= mem.len(),
    ensures
        spec_write_be_u32(mem, addr, value).len() == mem.len(),
        spec_read_be_u32(spec_write_be_u32(mem, addr, value), addr) == value,
{
    lemma_be_u32_bytes(value);
}

/// Reads the big-endian word at `addr`.
pub fn read_be_u32(mem: &[u8], addr: usize) -> (r: u32)
    requires
        addr + 4 <= mem@.len(),
    ensures
        r == spec_read_be_u32(mem@, addr as int),
{
    let b0 = mem[addr];
    let b1 = mem[addr + 1];
    let b2 = mem[addr + 2];
    let b3 = mem[addr + 3];
    let r = ((b0 as u32) << 24) | ((b1 as u32) << 16) | ((b2 as u32) << 8) | (b3 as u32);
    assert(r == (b0 as u32) * 0x0100_0000 + (b1 as u32) * 0x0001_0000 + (b2 as u32) * 0x0100 + (
    b3 as u32)) by (bit_vector)
        requires
            r == ((b0 as u32) << 24) | ((b1 as u32) << 16) | ((b2 as u32) << 8) | (b3 as u32),
    ;
    r
}

/// The big-endian 64-bit word stored at `addr`.
pub open spec fn spec_read_be_u64(mem: Seq<u8>, addr: int) -> u64 {
    ((spec_read_be_u32(mem, addr) as u64) * 0x1_0000_0000 + (spec_read_be_u32(mem, addr + 4)
        as u64)) as u64
}

/// Reads the big-endian doubleword at `addr`.
pub fn read_be_u64(mem: &[u8], addr: usize) -> (r: u64)
    requires
        addr + 8 <= mem@.len(),
    ensures
        r == spec_read_be_u64(mem@, addr as int),
{
    let len = mem.len();
    assert(addr + 8 <= len);
    let hi = read_be_u32(mem, addr) as u64;
    let lo = read_be_u32(mem, addr + 4) as u64;
    let r = (hi << 32) | lo;
    assert(r == hi * 0x1_0000_0000 + lo) by (bit_vector)
        requires
            r == (hi << 32) | lo,
            hi < 0x1_0000_0000,
            lo < 0x1_0000_0000,
    ;
    r
}

/// Stores `value` big-endian at `addr`.
pub fn write_be_u32(mem: &mut Vec<u8>, addr: usize, value: u32)
    requires
        addr + 4 <= old(mem)@.len(),
    ensures
        final(mem)@ == spec_write_be_u32(old(mem)@, addr as int, value),
{
    let len = mem.len();
    assert(addr + 4 <= len);
    mem.set(addr, (value >> 24) as u8);
    mem.set(addr + 1, (value >> 16) as u8);
    mem.set(addr + 2, (value >> 8) as u8);
    mem.set(addr + 3, value as u8);
}

/// The big-endian halfword stored at `addr`.
pub open spec fn spec_read_be_u16(mem: Seq<u8>, addr: int) -> u16 {
    ((mem[addr] as u16) * 0x100 + (mem[addr + 1] as u16)) as u16
}

/// Reads the big-endian halfword at `addr`.
pub fn read_be_u16(mem: &[u8], addr: usize) -> (r: u16)
    requires
        addr + 2 <= mem@.len(),
    ensures
        r == spec_read_be_u16(mem@, addr as int),
{
    (mem[addr] as u16) * 0x100 + (mem[addr + 1] as u16)
}

/// Memory after storing `value` big-endian at `addr`.
pub open spec fn spec_write_be_u16(mem: Seq<u8>, addr: int, value: u16) -> Seq<u8> {
    mem.update(addr, (value >> 8u16) as u8).update(addr + 1, value as u8)
}

/// Stores `value` big-endian at `addr`.
pub fn write_be_u16(mem: &mut Vec<u8>, addr: usize, value: u16)
    requires
        addr + 2 <= old(mem)@.len(),
    ensures
        final(mem)@ == spec_write_be_u16(old(mem)@, addr as int, value),
{
    let len = mem.len();
    assert(addr + 2 <= len);
    mem.set(addr, (value >> 8u16) as u8);
    mem.set(addr + 1, value as u8);
}

/// Memory after storing the doubleword `value` big-endian at `addr`: its
/// high word, then its low word.
pub open spec fn spec_write_be_u64(mem: Seq<u8>, addr: int, value: u64) -> Seq<u8> {
    spec_write_be_u32(spec_write_be_u32(mem, addr, (value >> 32u64) as u32), addr + 4, value as u32)
}

/// Stores the doubleword `value` big-endian at `addr`.
pub fn write_be_u64(mem: &mut Vec<u8>, addr: usize, value: u64)
    requires
        addr + 8 <= old(mem)@.len(),
    ensures
        final(mem)@ == spec_write_be_u64(old(mem)@, addr as int, value),
{
    let len = mem.len();
    assert(addr + 8 <= len);
    write_be_u32(mem, addr, (value >> 32u64) as u32);
    write_be_u32(mem, addr + 4, value as u32);
}

/// A big-endian halfword or doubleword stored at `addr` is read back from
/// `addr`; the stores keep the memory's length.
pub proof fn lemma_write_read_be_wide(mem: Seq<u8>, addr: int, half: u16, double: u64)
    requires
        0 <= addr,
        addr + 8 <= mem.len(),
    ensures
        spec_write_be_u16(mem, addr, half).len() == mem.len(),
        spec_read_be_u16(spec_write_be_u16(mem, addr, half), addr) == half,
        spec_write_be_u64(mem, addr, double).len() == mem.len(),
        spec_read_be_u64(spec_write_be_u64(mem, addr, double), addr) == double,
{
    let hi = (double >> 32u64) as u32;
    let lo = double as u32;
    lemma_write_read_be_u32(mem, addr, hi);
    let m1 = spec_write_be_u32(mem, addr, hi);
    lemma_write_read_be_u32(m1, addr + 4, lo);
    let m2 = spec_write_be_u32(m1, addr + 4, lo);
    assert(spec_read_be_u32(m2, addr) == spec_read_be_u32(m1, addr));
    assert(((half >> 8u16) as u8 as u16) * 0x100 + (half as u8 as u16) == half
        && ((((double >> 32u64) as u32 as u64) * 0x1_0000_0000 + (double as u32 as u64)) as u64)
        == double) by (bit_vector);
}

} // verus!
