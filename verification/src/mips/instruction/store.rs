//! The store instructions. Each computes the accesses it makes, in
//! order; the core carries them out on its bus.

use crate::mips::instruction::arithmetic::{reg_d, reg_w};
use crate::mips::opcode::{field_rs, field_rt, field_simm, registers};
use crate::mips::{add32, sub32, wrapping_add32, wrapping_sub32, Core, CoreView};
use vstd::prelude::*;

verus! {

/// One memory write.
#[derive(Copy, Clone, Debug, PartialEq, Eq, Structural)]
pub enum Store {
    Byte(u32, u8),
    Half(u32, u16),
    Word(u32, u32),
}

/// The address of a store: rs plus the sign-extended offset, modulo
/// 2^32.
pub open spec fn store_address(v: CoreView, word: u32) -> u32 {
    add32(reg_w(v, field_rs(word)), field_simm(word) as u32)
}

/// Byte `i` (0: most significant) of a word.
pub open spec fn be_byte32(value: u32, i: int) -> u8 {
    (value >> ((24 - 8 * i) as u32)) as u8
}

/// Byte `i` (0: most significant) of a doubleword.
pub open spec fn be_byte64(value: u64, i: int) -> u8 {
    (value >> ((56 - 8 * i) as u64)) as u8
}

fn address(core: &Core, word: u32) -> (r: (u32, usize))
    ensures
        r.0 == store_address(core@, word),
        r.1 == field_rt(word),
        r.1 < 32,
{
    let (rs, rt, _rd) = registers(word);
    let offset = (word & 0xffff) as u16 as i16;
    (wrapping_add32(core.getw(rs), offset as u32), rt)
}

/// SB: stores the low byte of rt.
pub fn sb(core: &Core, word: u32) -> (r: Vec<Store>)
    ensures
        r@ == seq![Store::Byte(store_address(core@, word), reg_d(core@, field_rt(word)) as u8)],
{
    let (address, rt) = address(core, word);
    let r = vec![Store::Byte(address, core.getd(rt) as u8)];
    assert(r@ =~= seq![Store::Byte(store_address(core@, word), reg_d(core@, field_rt(word)) as u8)]);
    r
}

/// SH: stores the low halfword of rt.
pub fn sh(core: &Core, word: u32) -> (r: Vec<Store>)
    ensures
        r@ == seq![Store::Half(store_address(core@, word), reg_d(core@, field_rt(word)) as u16)],
{
    let (address, rt) = address(core, word);
    let r = vec![Store::Half(address, core.getd(rt) as u16)];
    assert(r@ =~= seq![Store::Half(store_address(core@, word), reg_d(core@, field_rt(word)) as u16)]);
    r
}

/// SW: stores the low word of rt.
pub fn sw(core: &Core, word: u32) -> (r: Vec<Store>)
    ensures
        r@ == seq![Store::Word(store_address(core@, word), reg_w(core@, field_rt(word)))],
{
    let (address, rt) = address(core, word);
    let r = vec![Store::Word(address, core.getw(rt))];
    assert(r@ =~= seq![Store::Word(store_address(core@, word), reg_w(core@, field_rt(word)))]);
    r
}

/// SD: stores rt as two words, the high one first.
pub fn sd(core: &Core, word: u32) -> (r: Vec<Store>)
    ensures
        r@ == seq![
            Store::Word(store_address(core@, word), (reg_d(core@, field_rt(word)) >> 32u64) as u32),
            Store::Word(add32(store_address(core@, word), 4), reg_d(core@, field_rt(word)) as u32),
        ],
{
    let (address, rt) = address(core, word);
    let value = core.getd(rt);
    let r = vec![
        Store::Word(address, (value >> 32u64) as u32),
        Store::Word(wrapping_add32(address, 4), value as u32),
    ];
    assert(r@ =~= seq![
        Store::Word(store_address(core@, word), (reg_d(core@, field_rt(word)) >> 32u64) as u32),
        Store::Word(add32(store_address(core@, word), 4), reg_d(core@, field_rt(word)) as u32),
    ]);
    r
}

/// SWL: stores the most significant bytes of rt from the address up to
/// the end of its word.
pub fn swl(core: &Core, word: u32) -> (r: Vec<Store>)
    ensures
        ({
            let address = store_address(core@, word);
            r@ == Seq::new(
                (4 - address % 4) as nat,
                |i: int|
                    Store::Byte(add32(address, i as u32), be_byte32(reg_w(core@, field_rt(word)), i)),
            )
        }),
{
    let (address, rt) = address(core, word);
    let value = core.getw(rt);
    proof {
        crate::bits::lemma_low_bits32(address);
        crate::bits::lemma_mask_bounds();
    }
    let count = ((address & 3) ^ 3) + 1;
    let mut r: Vec<Store> = Vec::new();
    let mut index: u32 = 0;
    while index < count
        invariant
            index <= count <= 4,
            count == 4 - address % 4,
            r@.len() == index,
            forall|i: int|
                0 <= i < index ==> #[trigger] r@[i] == Store::Byte(
                    add32(address, i as u32),
                    be_byte32(value, i),
                ),
        decreases count - index,
    {
        r.push(Store::Byte(wrapping_add32(address, index), (value >> (24 - 8 * index)) as u8));
        index = index + 1;
    }
    assert(r@ =~= Seq::new(
        (4 - address % 4) as nat,
        |i: int| Store::Byte(add32(address, i as u32), be_byte32(value, i)),
    ));
    r
}

/// SWR: stores the least significant bytes of rt from the address down
/// to the start of its word.
pub fn swr(core: &Core, word: u32) -> (r: Vec<Store>)
    ensures
        ({
            let address = store_address(core@, word);
            r@ == Seq::new(
                (address % 4 + 1) as nat,
                |i: int|
                    Store::Byte(
                        sub32(address, i as u32),
                        be_byte32(reg_w(core@, field_rt(word)), 3 - i),
                    ),
            )
        }),
{
    let (address, rt) = address(core, word);
    let value = core.getw(rt);
    proof {
        crate::bits::lemma_low_bits32(address);
    }
    let count = (address & 3) + 1;
    let mut r: Vec<Store> = Vec::new();
    let mut index: u32 = 0;
    while index < count
        invariant
            index <= count <= 4,
            count == address % 4 + 1,
            r@.len() == index,
            forall|i: int|
                0 <= i < index ==> #[trigger] r@[i] == Store::Byte(
                    sub32(address, i as u32),
                    be_byte32(value, 3 - i),
                ),
        decreases count - index,
    {
        proof {
            crate::bits::lemma_mask_bounds();
        }
        let byte = index ^ 3;
        assert(byte == 3 - index);
        r.push(Store::Byte(wrapping_sub32(address, index), (value >> (24 - 8 * byte)) as u8));
        index = index + 1;
    }
    assert(r@ =~= Seq::new(
        (address % 4 + 1) as nat,
        |i: int| Store::Byte(sub32(address, i as u32), be_byte32(value, 3 - i)),
    ));
    r
}

/// SDL: stores the most significant bytes of rt from the address up to
/// the end of its doubleword.
pub fn sdl(core: &Core, word: u32) -> (r: Vec<Store>)
    ensures
        ({
            let address = store_address(core@, word);
            r@ == Seq::new(
                (8 - address % 8) as nat,
                |i: int|
                    Store::Byte(add32(address, i as u32), be_byte64(reg_d(core@, field_rt(word)), i)),
            )
        }),
{
    let (address, rt) = address(core, word);
    let value = core.getd(rt);
    proof {
        crate::bits::lemma_low_bits32(address);
        crate::bits::lemma_mask_bounds();
    }
    let count = ((address & 7) ^ 7) + 1;
    let mut r: Vec<Store> = Vec::new();
    let mut index: u32 = 0;
    while index < count
        invariant
            index <= count <= 8,
            count == 8 - address % 8,
            r@.len() == index,
            forall|i: int|
                0 <= i < index ==> #[trigger] r@[i] == Store::Byte(
                    add32(address, i as u32),
                    be_byte64(value, i),
                ),
        decreases count - index,
    {
        r.push(Store::Byte(wrapping_add32(address, index), (value >> (56 - 8 * index as u64)) as u8));
        index = index + 1;
    }
    assert(r@ =~= Seq::new(
        (8 - address % 8) as nat,
        |i: int| Store::Byte(add32(address, i as u32), be_byte64(value, i)),
    ));
    r
}

/// SDR: stores the least significant bytes of rt from the address down
/// to the start of its doubleword.
pub fn sdr(core: &Core, word: u32) -> (r: Vec<Store>)
    ensures
        ({
            let address = store_address(core@, word);
            r@ == Seq::new(
                (address % 8 + 1) as nat,
                |i: int|
                    Store::Byte(
                        sub32(address, i as u32),
                        be_byte64(reg_d(core@, field_rt(word)), 7 - i),
                    ),
            )
        }),
{
    let (address, rt) = address(core, word);
    let value = core.getd(rt);
    proof {
        crate::bits::lemma_low_bits32(address);
    }
    let count = (address & 7) + 1;
    let mut r: Vec<Store> = Vec::new();
    let mut index: u32 = 0;
    while index < count
        invariant
            index <= count <= 8,
            count == address % 8 + 1,
            r@.len() == index,
            forall|i: int|
                0 <= i < index ==> #[trigger] r@[i] == Store::Byte(
                    sub32(address, i as u32),
                    be_byte64(value, 7 - i),
                ),
        decreases count - index,
    {
        proof {
            crate::bits::lemma_mask_bounds();
        }
        let byte = index ^ 7;
        assert(byte == 7 - index);
        r.push(Store::Byte(wrapping_sub32(address, index), (value >> (56 - 8 * byte as u64)) as u8));
        index = index + 1;
    }
    assert(r@ =~= Seq::new(
        (address % 8 + 1) as nat,
        |i: int| Store::Byte(sub32(address, i as u32), be_byte64(value, 7 - i)),
    ));
    r
}

} // verus!
