//! The vector load and store instructions (LWC2 and SWC2). They move
//! bytes between DMEM and the vector registers; DMEM addresses wrap at
//! 4 KiB. The address is the contents of the general-purpose register
//! `base` (bits 21-25 of the instruction), which the CPU core hands in,
//! plus the instruction's signed 7-bit offset scaled by the access size.
//!
//! A register byte past the end of the register is neither written by a
//! load nor read by a store (it reads as zero).

use super::vector::{read_byte, spec_lane, vbyte, Vector};
use super::{Cp2, Cp2View};
use vstd::prelude::*;

verus! {

/// The bytes of DMEM that the vector unit addresses.
pub const DMEM_SIZE: usize = 4096;

/// The DMEM byte at `address`, which wraps at 4 KiB.
pub open spec fn dmem_byte(mem: Seq<u8>, address: int) -> u8 {
    mem[address % 4096]
}

/// The big-endian 16-bit value of the DMEM bytes at `address`.
pub open spec fn dmem_u16(mem: Seq<u8>, address: int) -> u16 {
    ((dmem_byte(mem, address) as int) * 256 + (dmem_byte(mem, address + 1) as int)) as u16
}

/// `new` is `old` with `bytes` stored from `address` (wrapping at 4 KiB).
pub open spec fn dmem_stored(old: Seq<u8>, new: Seq<u8>, address: int, bytes: Seq<u8>) -> bool {
    &&& new.len() == old.len()
    &&& forall|i: int|
        0 <= i < old.len() ==> #[trigger] new[i] == if i < 4096 && (i - address) % 4096
            < bytes.len() {
            bytes[(i - address) % 4096]
        } else {
            old[i]
        }
}

/// Register `new` is `old` with bytes `first .. first + count` (those
/// before byte 16) loaded from DMEM from `address`.
pub open spec fn loaded(
    old: Seq<u16>,
    new: Seq<u16>,
    mem: Seq<u8>,
    first: int,
    count: int,
    address: int,
) -> bool {
    &&& new.len() == 8
    &&& forall|b: int|
        0 <= b < 16 ==> #[trigger] vbyte(new, b) == if first <= b < first + count {
            dmem_byte(mem, address + (b - first))
        } else {
            vbyte(old, b)
        }
}

/// The bytes `first .. first + count` of a register, zero past its end.
pub open spec fn register_bytes(reg: Seq<u16>, first: int, count: int) -> Seq<u8> {
    Seq::new(count as nat, |k: int| read_byte(reg, first + k))
}

/// The instruction's 7-bit offset, sign-extended to 32 bits.
pub open spec fn offset_field(word: u32) -> u32 {
    if word & 0x7f >= 64 {
        (word & 0x7f) | 0xffff_ff80
    } else {
        word & 0x7f
    }
}

/// The effective address: `base` plus the offset scaled by `2^shift`,
/// modulo 2^32.
pub open spec fn ls_address(base: u32, word: u32, shift: u32) -> u32 {
    ((base as int + (offset_field(word) << shift) as int) % 0x1_0000_0000) as u32
}

/// The vector register in bits 16-20 of the instruction.
pub open spec fn field_vt(word: u32) -> int {
    ((word >> 16u32) & 31) as int
}

/// The element in bits 7-10.
pub open spec fn field_element(word: u32) -> int {
    ((word >> 7u32) & 15) as int
}

/// The sub-opcode in bits 11-15 that selects the load or store.
pub open spec fn field_opcode(word: u32) -> int {
    ((word >> 11u32) & 31) as int
}

/// The number of bytes a quad transfer moves: up to the next 16-byte
/// boundary of DMEM, and no further than the end of the register.
pub open spec fn quad_size(address: u32, element: int) -> int {
    let to_boundary = 16 - address % 16;
    if to_boundary < 16 - element {
        to_boundary
    } else {
        16 - element
    }
}

/// The number of bytes a rest transfer moves: from the 16-byte boundary
/// below the address up to it, and no further than the element allows.
pub open spec fn rest_size(address: u32, element: int) -> int {
    if address % 16 < 16 - element {
        (address % 16) as int
    } else {
        16 - element
    }
}

/// The state after LRV.
pub open spec fn lrv_post(old: Cp2View, new: Cp2View, mem: Seq<u8>, base: u32, word: u32) -> bool {
    let end = ls_address(base, word, 4);
    let size = rest_size(end, field_element(word));
    &&& new == (Cp2View { regs: old.regs.update(field_vt(word), new.regs[field_vt(word)]), ..old })
    &&& loaded(
        old.regs[field_vt(word)],
        new.regs[field_vt(word)],
        mem,
        field_element(word) + 16 - size,
        size,
        end - end % 16,
    )
}

/// The state after LPV (`scale` 256) or LUV (`scale` 128): each lane is
/// a DMEM byte times the scale.
pub open spec fn packed_load_post(
    old: Cp2View,
    new: Cp2View,
    mem: Seq<u8>,
    base: u32,
    word: u32,
    scale: u16,
) -> bool {
    &&& new == (Cp2View { regs: old.regs.update(field_vt(word), new.regs[field_vt(word)]), ..old })
    &&& forall|i: int|
        0 <= i < 8 ==> #[trigger] spec_lane(new.regs[field_vt(word)], i) == (dmem_byte(
            mem,
            ls_address(base, word, 0) + i,
        ) as u16) * scale
}

/// The state after LTV.
pub open spec fn ltv_post(old: Cp2View, new: Cp2View, mem: Seq<u8>, base: u32, word: u32) -> bool {
    let group = field_vt(word) - field_vt(word) % 8;
    let first = (8 - field_element(word) / 2) % 8;
    let address = ls_address(base, word, 4);
    &&& new == (Cp2View { regs: new.regs, ..old })
    &&& new.regs.len() == 32
    &&& forall|r: int|
        0 <= r < 32 ==> #[trigger] new.regs[r] == if group <= r < group + 8 {
            old.regs[r].update(7 - (first + (r - group)) % 8, dmem_u16(mem, address + 2 * (r - group)))
        } else {
            old.regs[r]
        }
}

/// DMEM after SRV.
pub open spec fn srv_post(old_mem: Seq<u8>, new_mem: Seq<u8>, v: Cp2View, base: u32, word: u32) -> bool {
    let end = ls_address(base, word, 4);
    let size = rest_size(end, field_element(word));
    dmem_stored(
        old_mem,
        new_mem,
        end - end % 16,
        register_bytes(v.regs[field_vt(word)], field_element(word) + 16 - size, size),
    )
}

/// DMEM after SPV (`shift` 8) or SUV (`shift` 7): one byte of each lane.
pub open spec fn packed_store_post(
    old_mem: Seq<u8>,
    new_mem: Seq<u8>,
    v: Cp2View,
    base: u32,
    word: u32,
    shift: u16,
) -> bool {
    dmem_stored(
        old_mem,
        new_mem,
        ls_address(base, word, 0) as int,
        Seq::new(8, |i: int| (spec_lane(v.regs[field_vt(word)], i) >> shift) as u8),
    )
}

/// The bytes that STV stores.
pub open spec fn transposed_bytes(v: Cp2View, word: u32) -> Seq<u8> {
    let group = field_vt(word) - field_vt(word) % 8;
    let first = field_element(word) / 2;
    Seq::new(
        16,
        |b: int|
            {
                let value = spec_lane(v.regs[group + (first + b / 2) % 8], b / 2);
                if b % 2 == 0 {
                    (value >> 8u16) as u8
                } else {
                    value as u8
                }
            },
    )
}

/// DMEM after STV.
pub open spec fn stv_post(old_mem: Seq<u8>, new_mem: Seq<u8>, v: Cp2View, base: u32, word: u32) -> bool {
    dmem_stored(old_mem, new_mem, ls_address(base, word, 4) as int, transposed_bytes(v, word))
}

fn decode(base: u32, word: u32, shift: u32) -> (r: (usize, usize, u32))
    requires
        shift <= 4,
    ensures
        r.0 == field_vt(word),
        r.1 == field_element(word),
        r.2 == ls_address(base, word, shift),
        r.0 < 32,
        r.1 < 16,
{
    proof {
        crate::bits::lemma_mask_bounds();
    }
    let offset7 = word & 0x7f;
    let extended = if offset7 >= 64 {
        offset7 | 0xffff_ff80
    } else {
        offset7
    };
    let address = base.wrapping_add(extended << shift);
    (((word >> 16u32) & 31) as usize, ((word >> 7u32) & 15) as usize, address)
}

fn dmem_read(mem: &Vec<u8>, address: u64) -> (r: u8)
    requires
        mem@.len() >= DMEM_SIZE,
    ensures
        r == dmem_byte(mem@, address as int),
{
    proof {
        crate::bits::lemma_low_bits(address);
    }
    mem[(address & 0xfff) as usize]
}

/// Loads DMEM bytes from `address` into register bytes `first ..
/// first + count`; those past the end of the register are dropped.
fn load_bytes(cp2: &mut Cp2, mem: &Vec<u8>, vt: usize, first: usize, count: usize, address: u32)
    requires
        old(cp2).wf(),
        mem@.len() >= DMEM_SIZE,
        vt < 32,
        first < 16,
        count <= 16,
    ensures
        final(cp2).wf(),
        final(cp2)@ == (Cp2View {
            regs: old(cp2)@.regs.update(vt as int, final(cp2)@.regs[vt as int]),
            ..old(cp2)@
        }),
        loaded(
            old(cp2)@.regs[vt as int],
            final(cp2)@.regs[vt as int],
            mem@,
            first as int,
            count as int,
            address as int,
        ),
{
    proof {
        cp2.lemma_wf();
    }
    let ghost old_reg = cp2@.regs[vt as int];
    let mut reg = Vector::from_le_array(cp2.get_le(vt));
    let mut index: usize = 0;
    while index < count
        invariant
            index <= count <= 16,
            first < 16,
            mem@.len() >= DMEM_SIZE,
            reg@.len() == 8,
            old_reg.len() == 8,
            forall|b: int|
                0 <= b < 16 ==> #[trigger] vbyte(reg@, b) == if first <= b < first + index {
                    dmem_byte(mem@, address + (b - first))
                } else {
                    vbyte(old_reg, b)
                },
        decreases count - index,
    {
        let value = dmem_read(mem, address as u64 + index as u64);
        if first + index < 16 {
            reg.write_u8(first + index, value);
        }
        index = index + 1;
    }
    cp2.set_le(vt, reg.to_le_array());
}

/// Stores `bytes` to DMEM from `address`.
fn store_bytes(mem: &mut Vec<u8>, address: u32, bytes: &Vec<u8>)
    requires
        old(mem)@.len() >= DMEM_SIZE,
        bytes@.len() <= 16,
    ensures
        dmem_stored(old(mem)@, final(mem)@, address as int, bytes@),
{
    proof {
        crate::bits::lemma_mask_bounds();
    }
    let mut k: usize = 0;
    while k < bytes.len()
        invariant
            k <= bytes@.len() <= 16,
            mem@.len() == old(mem)@.len(),
            old(mem)@.len() >= DMEM_SIZE,
            forall|i: int|
                0 <= i < old(mem)@.len() ==> #[trigger] mem@[i] == if i < 4096 && (i - address)
                    % 4096 < k {
                    bytes@[(i - address) % 4096]
                } else {
                    old(mem)@[i]
                },
        decreases bytes@.len() - k,
    {
        proof {
            crate::bits::lemma_low_bits((address as u64 + k as u64) as u64);
        }
        let at = ((address as u64 + k as u64) & 0xfff) as usize;
        mem.set(at, bytes[k]);
        k = k + 1;
    }
}

/// The register bytes `first .. first + count`, zero past the end.
fn register_bytes_exec(cp2: &Cp2, vt: usize, first: usize, count: usize) -> (r: Vec<u8>)
    requires
        cp2.wf(),
        vt < 32,
        first < 32,
        count <= 16,
    ensures
        r@ == register_bytes(cp2@.regs[vt as int], first as int, count as int),
{
    proof {
        cp2.lemma_wf();
    }
    let reg = Vector::from_le_array(cp2.get_le(vt));
    let mut r: Vec<u8> = Vec::new();
    let mut k: usize = 0;
    while k < count
        invariant
            k <= count <= 16,
            first < 32,
            reg@ == cp2@.regs[vt as int],
            reg@.len() == 8,
            r@.len() == k,
            forall|i: int| 0 <= i < k ==> #[trigger] r@[i] == read_byte(reg@, first + i),
        decreases count - k,
    {
        let b = if first + k < 16 {
            reg.byte(first + k)
        } else {
            0
        };
        r.push(b);
        k = k + 1;
    }
    assert(r@ =~= register_bytes(cp2@.regs[vt as int], first as int, count as int));
    r
}

/// The load of `n` bytes from the effective address into register bytes
/// from the element.
pub open spec fn load_post(old: Cp2View, new: Cp2View, mem: Seq<u8>, base: u32, word: u32, n: int, shift: u32) -> bool {
    &&& new == (Cp2View { regs: old.regs.update(field_vt(word), new.regs[field_vt(word)]), ..old })
    &&& loaded(
        old.regs[field_vt(word)],
        new.regs[field_vt(word)],
        mem,
        field_element(word),
        n,
        ls_address(base, word, shift) as int,
    )
}

fn load_n(cp2: &mut Cp2, mem: &Vec<u8>, base: u32, word: u32, n: usize, shift: u32)
    requires
        old(cp2).wf(),
        mem@.len() >= DMEM_SIZE,
        n <= 8,
        shift <= 4,
    ensures
        final(cp2).wf(),
        load_post(old(cp2)@, final(cp2)@, mem@, base, word, n as int, shift),
{
    let (vt, element, address) = decode(base, word, shift);
    load_bytes(cp2, mem, vt, element, n, address);
}

/// LBV: loads one byte.
pub fn lbv(cp2: &mut Cp2, mem: &Vec<u8>, base: u32, word: u32)
    requires
        old(cp2).wf(),
        mem@.len() >= DMEM_SIZE,
    ensures
        final(cp2).wf(),
        load_post(old(cp2)@, final(cp2)@, mem@, base, word, 1, 0),
{
    load_n(cp2, mem, base, word, 1, 0);
}

/// LSV: loads two bytes.
pub fn lsv(cp2: &mut Cp2, mem: &Vec<u8>, base: u32, word: u32)
    requires
        old(cp2).wf(),
        mem@.len() >= DMEM_SIZE,
    ensures
        final(cp2).wf(),
        load_post(old(cp2)@, final(cp2)@, mem@, base, word, 2, 1),
{
    load_n(cp2, mem, base, word, 2, 1);
}

/// LLV: loads four bytes.
pub fn llv(cp2: &mut Cp2, mem: &Vec<u8>, base: u32, word: u32)
    requires
        old(cp2).wf(),
        mem@.len() >= DMEM_SIZE,
    ensures
        final(cp2).wf(),
        load_post(old(cp2)@, final(cp2)@, mem@, base, word, 4, 2),
{
    load_n(cp2, mem, base, word, 4, 2);
}

/// LDV: loads eight bytes.
pub fn ldv(cp2: &mut Cp2, mem: &Vec<u8>, base: u32, word: u32)
    requires
        old(cp2).wf(),
        mem@.len() >= DMEM_SIZE,
    ensures
        final(cp2).wf(),
        load_post(old(cp2)@, final(cp2)@, mem@, base, word, 8, 3),
{
    load_n(cp2, mem, base, word, 8, 3);
}

/// LQV: loads from the address up to the next 16-byte boundary.
pub fn lqv(cp2: &mut Cp2, mem: &Vec<u8>, base: u32, word: u32)
    requires
        old(cp2).wf(),
        mem@.len() >= DMEM_SIZE,
        ls_address(base, word, 4) <= 0xffff_ffef,
    ensures
        final(cp2).wf(),
        load_post(
            old(cp2)@,
            final(cp2)@,
            mem@,
            base,
            word,
            quad_size(ls_address(base, word, 4), field_element(word)),
            4,
        ),
{
    let (vt, element, address) = decode(base, word, 4);
    let end = (address + 0x10) & !0x0fu32;
    proof {
        crate::bits::lemma_align16((address + 0x10) as u32);
    }
    proof {
        crate::bits::lemma_flag_bits();
    }
    let to_boundary = end - address;
    let size = if to_boundary < 16 - element as u32 {
        to_boundary
    } else {
        16 - element as u32
    };
    load_bytes(cp2, mem, vt, element, size as usize, address);
}

/// LRV: loads from the 16-byte boundary below the address up to the
/// address, into the end of the register.
pub fn lrv(cp2: &mut Cp2, mem: &Vec<u8>, base: u32, word: u32)
    requires
        old(cp2).wf(),
        mem@.len() >= DMEM_SIZE,
    ensures
        final(cp2).wf(),
        lrv_post(old(cp2)@, final(cp2)@, mem@, base, word),
{
    let (vt, element, end) = decode(base, word, 4);
    proof {
        crate::bits::lemma_flag_bits();
    }
    let address = end & !0x0fu32;
    proof {
        crate::bits::lemma_align16(end);
    }
    let to_end = end - address;
    let size = if to_end < 16 - element as u32 {
        to_end
    } else {
        16 - element as u32
    };
    let offset = element + (16 - size as usize);
    if offset < 16 {
        load_bytes(cp2, mem, vt, offset, size as usize, address);
    } else {
        proof {
            cp2.lemma_wf();
        }
        assert(cp2@.regs.update(vt as int, cp2@.regs[vt as int]) =~= cp2@.regs);
    }
}

/// LPV: loads eight bytes into the upper bytes of the eight lanes.
pub fn lpv(cp2: &mut Cp2, mem: &Vec<u8>, base: u32, word: u32)
    requires
        old(cp2).wf(),
        mem@.len() >= DMEM_SIZE,
    ensures
        final(cp2).wf(),
        packed_load_post(old(cp2)@, final(cp2)@, mem@, base, word, 256),
{
    packed_load(cp2, mem, base, word, 8);
}

/// LUV: loads eight bytes into bits 7-14 of the eight lanes.
pub fn luv(cp2: &mut Cp2, mem: &Vec<u8>, base: u32, word: u32)
    requires
        old(cp2).wf(),
        mem@.len() >= DMEM_SIZE,
    ensures
        final(cp2).wf(),
        packed_load_post(old(cp2)@, final(cp2)@, mem@, base, word, 128),
{
    packed_load(cp2, mem, base, word, 7);
}

fn packed_load(cp2: &mut Cp2, mem: &Vec<u8>, base: u32, word: u32, shift: u16)
    requires
        old(cp2).wf(),
        mem@.len() >= DMEM_SIZE,
        shift == 7 || shift == 8,
    ensures
        final(cp2).wf(),
        final(cp2)@ == (Cp2View {
            regs: old(cp2)@.regs.update(field_vt(word), final(cp2)@.regs[field_vt(word)]),
            ..old(cp2)@
        }),
        forall|i: int|
            0 <= i < 8 ==> #[trigger] spec_lane(final(cp2)@.regs[field_vt(word)], i) == (dmem_byte(
                mem@,
                ls_address(base, word, 0) + i,
            ) as u16) * (if shift == 8 {
                256u16
            } else {
                128u16
            }),
{
    let (vt, _element, address) = decode(base, word, 0);
    let mut values: [u16; 8] = [0u16; 8];
    let mut index: usize = 0;
    while index < 8
        invariant
            index <= 8,
            values@.len() == 8,
            mem@.len() >= DMEM_SIZE,
            shift == 7 || shift == 8,
            forall|i: int|
                0 <= i < index ==> #[trigger] values@[i] == (dmem_byte(mem@, address + i) as u16)
                    * (if shift == 8 {
                    256u16
                } else {
                    128u16
                }),
        decreases 8 - index,
    {
        let byte = dmem_read(mem, address as u64 + index as u64);
        proof {
            crate::bits::lemma_mask_bounds();
            assert(((byte as u16) << 8u16) == (byte as u16) * 256);
            assert(((byte as u16) << 7u16) == (byte as u16) * 128);
        }
        values[index] = (byte as u16) << shift;
        index = index + 1;
    }
    cp2.set_be(vt, values);
}

/// LTV: loads eight 16-bit values into one lane of each of eight
/// consecutive registers, the lanes rotating with the element.
pub fn ltv(cp2: &mut Cp2, mem: &Vec<u8>, base: u32, word: u32)
    requires
        old(cp2).wf(),
        mem@.len() >= DMEM_SIZE,
    ensures
        final(cp2).wf(),
        ltv_post(old(cp2)@, final(cp2)@, mem@, base, word),
{
    proof {
        crate::bits::lemma_mask_bounds();
        cp2.lemma_wf();
    }
    let (vt, element, address) = decode(base, word, 4);
    let group = vt & 0x18;
    proof {
        crate::bits::lemma_small_bits(vt);
        crate::bits::lemma_small_bits(element);
        crate::bits::lemma_small_bits((8 - (element >> 1)) as usize);
    }
    let first = (8 - (element >> 1)) & 7;
    assert(group == vt - vt % 8 && first == (8 - element / 2) % 8 && group + 8 <= 32);
    let ghost before = cp2@;
    let mut index: usize = 0;
    while index < 8
        invariant
            index <= 8,
            group + 8 <= 32,
            first < 8,
            mem@.len() >= DMEM_SIZE,
            cp2.wf(),
            cp2@ == (Cp2View { regs: cp2@.regs, ..before }),
            cp2@.regs.len() == 32,
            view_wf_regs(before),
            forall|r: int|
                0 <= r < 32 ==> #[trigger] cp2@.regs[r] == if group <= r < group + index {
                    before.regs[r].update(
                        7 - (first + (r - group)) % 8,
                        dmem_u16(mem@, address + 2 * (r - group)),
                    )
                } else {
                    before.regs[r]
                },
        decreases 8 - index,
    {
        let at = address as u64 + 2 * index as u64;
        let high = dmem_read(mem, at);
        let low = dmem_read(mem, at + 1);
        let value = (high as u16) * 256 + low as u16;
        proof {
            crate::bits::lemma_mask_bounds();
        }
        proof {
            crate::bits::lemma_small_bits((first + index) as usize);
        }
        let lane = (first + index) & 7;
        assert(lane == (first + index) % 8);
        cp2.set_lane(group + index, lane, value);
        index = index + 1;
    }
}

/// The registers all hold eight lanes.
pub open spec fn view_wf_regs(v: Cp2View) -> bool {
    &&& v.regs.len() == 32
    &&& forall|i: int| 0 <= i < 32 ==> (#[trigger] v.regs[i]).len() == 8
}

/// The store of `n` register bytes from the element to the effective
/// address.
pub open spec fn store_post(old_mem: Seq<u8>, new_mem: Seq<u8>, v: Cp2View, base: u32, word: u32, n: int, shift: u32) -> bool {
    dmem_stored(
        old_mem,
        new_mem,
        ls_address(base, word, shift) as int,
        register_bytes(v.regs[field_vt(word)], field_element(word), n),
    )
}

fn store_n(cp2: &Cp2, mem: &mut Vec<u8>, base: u32, word: u32, n: usize, shift: u32)
    requires
        cp2.wf(),
        old(mem)@.len() >= DMEM_SIZE,
        n <= 8,
        shift <= 4,
    ensures
        store_post(old(mem)@, final(mem)@, cp2@, base, word, n as int, shift),
{
    let (vt, element, address) = decode(base, word, shift);
    let bytes = register_bytes_exec(cp2, vt, element, n);
    store_bytes(mem, address, &bytes);
}

/// SBV: stores one byte.
pub fn sbv(cp2: &Cp2, mem: &mut Vec<u8>, base: u32, word: u32)
    requires
        cp2.wf(),
        old(mem)@.len() >= DMEM_SIZE,
    ensures
        store_post(old(mem)@, final(mem)@, cp2@, base, word, 1, 0),
{
    store_n(cp2, mem, base, word, 1, 0);
}

/// SSV: stores two bytes.
pub fn ssv(cp2: &Cp2, mem: &mut Vec<u8>, base: u32, word: u32)
    requires
        cp2.wf(),
        old(mem)@.len() >= DMEM_SIZE,
    ensures
        store_post(old(mem)@, final(mem)@, cp2@, base, word, 2, 1),
{
    store_n(cp2, mem, base, word, 2, 1);
}

/// SLV: stores four bytes.
pub fn slv(cp2: &Cp2, mem: &mut Vec<u8>, base: u32, word: u32)
    requires
        cp2.wf(),
        old(mem)@.len() >= DMEM_SIZE,
    ensures
        store_post(old(mem)@, final(mem)@, cp2@, base, word, 4, 2),
{
    store_n(cp2, mem, base, word, 4, 2);
}

/// SDV: stores eight bytes.
pub fn sdv(cp2: &Cp2, mem: &mut Vec<u8>, base: u32, word: u32)
    requires
        cp2.wf(),
        old(mem)@.len() >= DMEM_SIZE,
    ensures
        store_post(old(mem)@, final(mem)@, cp2@, base, word, 8, 3),
{
    store_n(cp2, mem, base, word, 8, 3);
}

/// SQV: stores from the element up to the next 16-byte boundary of DMEM.
pub fn sqv(cp2: &Cp2, mem: &mut Vec<u8>, base: u32, word: u32)
    requires
        cp2.wf(),
        old(mem)@.len() >= DMEM_SIZE,
        ls_address(base, word, 4) <= 0xffff_ffef,
    ensures
        store_post(
            old(mem)@,
            final(mem)@,
            cp2@,
            base,
            word,
            quad_size(ls_address(base, word, 4), field_element(word)),
            4,
        ),
{
    let (vt, element, address) = decode(base, word, 4);
    let end = (address + 0x10) & !0x0fu32;
    proof {
        crate::bits::lemma_align16((address + 0x10) as u32);
    }
    proof {
        crate::bits::lemma_flag_bits();
    }
    let to_boundary = end - address;
    let size = if to_boundary < 16 - element as u32 {
        to_boundary
    } else {
        16 - element as u32
    };
    let bytes = register_bytes_exec(cp2, vt, element, size as usize);
    store_bytes(mem, address, &bytes);
}

/// SRV: stores the end of the register to the bytes from the 16-byte
/// boundary below the address up to it.
pub fn srv(cp2: &Cp2, mem: &mut Vec<u8>, base: u32, word: u32)
    requires
        cp2.wf(),
        old(mem)@.len() >= DMEM_SIZE,
    ensures
        srv_post(old(mem)@, final(mem)@, cp2@, base, word),
{
    let (vt, element, end) = decode(base, word, 4);
    proof {
        crate::bits::lemma_flag_bits();
    }
    let address = end & !0x0fu32;
    proof {
        crate::bits::lemma_align16(end);
    }
    let to_end = end - address;
    let size = if to_end < 16 - element as u32 {
        to_end
    } else {
        16 - element as u32
    };
    let offset = element + (16 - size as usize);
    let bytes = register_bytes_exec(cp2, vt, offset, size as usize);
    store_bytes(mem, address, &bytes);
}

/// SPV: stores the upper byte of each lane.
pub fn spv(cp2: &mut Cp2, mem: &mut Vec<u8>, base: u32, word: u32)
    requires
        old(cp2).wf(),
        old(mem)@.len() >= DMEM_SIZE,
    ensures
        final(cp2).wf(),
        final(cp2)@ == old(cp2)@,
        packed_store_post(old(mem)@, final(mem)@, old(cp2)@, base, word, 8),
{
    packed_store(cp2, mem, base, word, 8);
}

/// SUV: stores bits 7-14 of each lane.
pub fn suv(cp2: &mut Cp2, mem: &mut Vec<u8>, base: u32, word: u32)
    requires
        old(cp2).wf(),
        old(mem)@.len() >= DMEM_SIZE,
    ensures
        final(cp2).wf(),
        final(cp2)@ == old(cp2)@,
        packed_store_post(old(mem)@, final(mem)@, old(cp2)@, base, word, 7),
{
    packed_store(cp2, mem, base, word, 7);
}

fn packed_store(cp2: &mut Cp2, mem: &mut Vec<u8>, base: u32, word: u32, shift: u16)
    requires
        old(cp2).wf(),
        old(mem)@.len() >= DMEM_SIZE,
        shift == 7 || shift == 8,
    ensures
        final(cp2).wf(),
        final(cp2)@ == old(cp2)@,
        dmem_stored(
            old(mem)@,
            final(mem)@,
            ls_address(base, word, 0) as int,
            Seq::new(8, |i: int| (spec_lane(old(cp2)@.regs[field_vt(word)], i) >> shift) as u8),
        ),
{
    proof {
        cp2.lemma_wf();
    }
    let (vt, _element, address) = decode(base, word, 0);
    let values = cp2.get_be(vt);
    let mut bytes: Vec<u8> = Vec::new();
    let mut index: usize = 0;
    while index < 8
        invariant
            index <= 8,
            shift == 7 || shift == 8,
            bytes@.len() == index,
            forall|i: int| 0 <= i < index ==> #[trigger] bytes@[i] == (values@[i] >> shift) as u8,
        decreases 8 - index,
    {
        bytes.push((values[index] >> shift) as u8);
        index = index + 1;
    }
    store_bytes(mem, address, &bytes);
    let ghost before = cp2@;
    cp2.set_be(vt, values);
    proof {
        assert(bytes@ =~= Seq::new(8, |i: int| (spec_lane(before.regs[vt as int], i) >> shift) as u8));
        let reg = cp2@.regs[vt as int];
        let old_reg = before.regs[vt as int];
        assert forall|k: int| 0 <= k < 8 implies reg[k] == old_reg[k] by {
            assert(spec_lane(reg, 7 - k) == values@[7 - k]);
        }
        assert(reg =~= old_reg);
        assert(cp2@.regs =~= before.regs);
    }
}

/// STV: stores one lane of each of eight consecutive registers, the
/// registers rotating with the element.
pub fn stv(cp2: &Cp2, mem: &mut Vec<u8>, base: u32, word: u32)
    requires
        cp2.wf(),
        old(mem)@.len() >= DMEM_SIZE,
    ensures
        stv_post(old(mem)@, final(mem)@, cp2@, base, word),
{
    proof {
        crate::bits::lemma_mask_bounds();
        cp2.lemma_wf();
    }
    let (vt, element, address) = decode(base, word, 4);
    let group = vt & 0x18;
    proof {
        crate::bits::lemma_small_bits(vt);
        crate::bits::lemma_small_bits(element);
    }
    let first = element >> 1;
    assert(group == vt - vt % 8 && first == element / 2 && group + 8 <= 32);
    let mut bytes: Vec<u8> = Vec::new();
    let mut index: usize = 0;
    while index < 8
        invariant
            index <= 8,
            first < 8,
            group + 8 <= 32,
            cp2.wf(),
            bytes@.len() == 2 * index,
            forall|b: int|
                0 <= b < 2 * index ==> #[trigger] bytes@[b] == {
                    let value = spec_lane(cp2@.regs[group + (first + b / 2) % 8], b / 2);
                    if b % 2 == 0 {
                        (value >> 8u16) as u8
                    } else {
                        value as u8
                    }
                },
        decreases 8 - index,
    {
        proof {
            crate::bits::lemma_mask_bounds();
        }
        proof {
            crate::bits::lemma_small_bits((first + index) as usize);
        }
        let r = (first + index) & 7;
        assert(r == (first + index) % 8);
        let value = cp2.lane(group + r, index);
        bytes.push((value >> 8u16) as u8);
        bytes.push(value as u8);
        index = index + 1;
    }
    store_bytes(mem, address, &bytes);
    assert(bytes@ =~= Seq::new(
        16,
        |b: int|
            {
                let value = spec_lane(cp2@.regs[group + (first + b / 2) % 8], b / 2);
                if b % 2 == 0 {
                    (value >> 8u16) as u8
                } else {
                    value as u8
                }
            },
    ));
}

} // verus!
