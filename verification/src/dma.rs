//! DMA requests issued by the RCP units, and the RSP DMA engine that
//! moves blocks between SP memory and RDRAM.

use crate::interrupt::{RcpIntType, RcpInterrupt};
use crate::rdp::pipeline::command_words;
use crate::rdp::{Rdp, RdpView};
use crate::rdp::engine::CoreView;
use crate::rsp::cp0::registers::{Registers, RegistersView};
use crate::serial::pif::{PIF_RAM_START, PIF_SIZE};
use crate::peripheral::PeripheralInterface;
use crate::serial::SerialInterface;
use vstd::prelude::*;

verus! {

/// A DMA transfer: `len` (in the unit's own encoding) between `src` and
/// `dst`; `mode` selects the direction.
#[derive(Copy, Clone, Debug, PartialEq, Eq, Structural)]
pub struct DmaRequest {
    pub src: u32,
    pub dst: u32,
    pub len: u32,
    pub mode: bool,
}

/// An RSP DMA transfer as recorded by the SP registers: `len` holds the
/// length, count and skip fields; `reverse` selects the direction (RDRAM
/// to SP memory when set).
#[derive(Copy, Clone, Debug, PartialEq, Eq, Structural)]
pub struct Dma {
    pub src_addr: u32,
    pub dst_addr: u32,
    pub len: u32,
    pub reverse: bool,
}

/// An RDP command buffer transfer: the commands from `start` to `end`.
#[derive(Copy, Clone, Debug, PartialEq, Eq, Structural)]
pub struct RdpDma {
    pub start: u32,
    pub end: u32,
}

/// The bytes of SP memory: DMEM then IMEM.
pub const SP_MEM_SIZE: usize = 8192;

/// The bytes per row of an RSP DMA: the length field plus 8.
pub open spec fn row_length(len: u32) -> int {
    (len & 0xff8) as int + 8
}

/// The rows of an RSP DMA: the count field plus one.
pub open spec fn row_count(len: u32) -> int {
    ((len >> 12u32) & 0xff) as int + 1
}

/// The RDRAM bytes skipped after each row.
pub open spec fn row_skip(len: u32) -> int {
    ((len >> 20u32) & 0xff8) as int
}

/// The 4 KiB bank of SP memory (DMEM or IMEM) that the transfer uses.
pub open spec fn sp_bank(src: u32) -> int {
    (src & 0x1000) as int
}

/// The SP memory index of byte `o` of row `i`: the offset wraps within
/// the bank.
pub open spec fn sp_index(request: DmaRequest, i: int, o: int) -> int {
    sp_bank(request.src) + ((request.src & 0xff8) as int + i * row_length(request.len) + o) % 4096
}

/// The RDRAM index of byte `o` of row `i`: rows are `skip` bytes apart
/// and addresses wrap at 16 MiB.
pub open spec fn rdram_index(request: DmaRequest, i: int, o: int) -> int {
    ((request.dst & 0x00ff_fff8) as int + i * (row_length(request.len) + row_skip(request.len)) + o)
        % 0x100_0000
}

/// `dst` after the first `n` bytes of row `i` were copied, from RDRAM to
/// SP memory when `to_sp` holds and the other way otherwise.
pub open spec fn copy_row(
    dst: Seq<u8>,
    src: Seq<u8>,
    request: DmaRequest,
    to_sp: bool,
    i: int,
    n: nat,
) -> Seq<u8>
    decreases n,
{
    if n == 0 {
        dst
    } else {
        let before = copy_row(dst, src, request, to_sp, i, (n - 1) as nat);
        let o = n - 1;
        if to_sp {
            before.update(sp_index(request, i, o), src[rdram_index(request, i, o)])
        } else {
            before.update(rdram_index(request, i, o), src[sp_index(request, i, o)])
        }
    }
}

/// `dst` after the first `rows` rows were copied.
pub open spec fn copy_rows(dst: Seq<u8>, src: Seq<u8>, request: DmaRequest, to_sp: bool, rows: nat) -> Seq<
    u8,
>
    decreases rows,
{
    if rows == 0 {
        dst
    } else {
        copy_row(
            copy_rows(dst, src, request, to_sp, (rows - 1) as nat),
            src,
            request,
            to_sp,
            rows - 1,
            row_length(request.len) as nat,
        )
    }
}

/// Every RDRAM byte that the transfer touches lies within RDRAM.
pub open spec fn rdram_in_bounds(request: DmaRequest, rdram_len: int) -> bool {
    forall|i: int, o: int|
        0 <= i < row_count(request.len) && 0 <= o < row_length(request.len) ==> #[trigger] rdram_index(
            request,
            i,
            o,
        ) < rdram_len
}

/// The SP address after the transfer: the row after the last, in the
/// same bank.
pub open spec fn sp_end(request: DmaRequest) -> u32 {
    (sp_bank(request.src) + ((request.src & 0xff8) as int + row_count(request.len) * row_length(
        request.len,
    )) % 4096) as u32
}

/// The RDRAM address after the transfer.
pub open spec fn rdram_end(request: DmaRequest) -> u32 {
    ((request.dst & 0x00ff_fff8) as int + row_count(request.len) * (row_length(request.len)
        + row_skip(request.len))) as u32
}

proof fn lemma_sp_position(bank: usize, s: usize, o: usize, start: usize)
    by (bit_vector)
    requires
        bank == 0 || bank == 0x1000,
        s < 0x1000,
        o <= 0x1000,
        start == bank + s,
    ensures
        (start & 0x1000) == bank,
        (start & 0x1000) | (((start + o) as usize) & 0xfff) == bank + (if s + o >= 0x1000 {
            s + o - 0x1000
        } else {
            s + o
        }),
{
}

proof fn lemma_wrap4096(s: int, o: int)
    requires
        0 <= s < 4096,
        0 <= o <= 4096,
    ensures
        (if s + o >= 0x1000 {
            s + o - 0x1000
        } else {
            s + o
        }) == (s + o) % 4096,
{
    if s + o >= 0x1000 {
        crate::bits::lemma_div_mod(s + o, 4096, 1, s + o - 4096);
    } else {
        crate::bits::lemma_div_mod(s + o, 4096, 0, s + o);
    }
}

/// Copies the block that `request` describes between SP memory and
/// RDRAM; returns the SP and RDRAM addresses after it.
fn transfer(dst: &mut Vec<u8>, src: &Vec<u8>, request: DmaRequest, to_sp: bool) -> (r: (u32, u32))
    requires
        to_sp ==> old(dst)@.len() == SP_MEM_SIZE && rdram_in_bounds(request, src@.len() as int),
        !to_sp ==> src@.len() == SP_MEM_SIZE && rdram_in_bounds(request, old(dst)@.len() as int),
    ensures
        final(dst)@ == copy_rows(old(dst)@, src@, request, to_sp, row_count(request.len) as nat),
        final(dst)@.len() == old(dst)@.len(),
        r == (sp_end(request), rdram_end(request)),
{
    proof {
        crate::bits::lemma_mask_bounds();
    }
    let len = request.len;
    let rdlen = ((len & 0xff8) + 8) as usize;
    let count = ((len >> 12u32) & 0xff) + 1;
    let skip = ((len >> 20u32) & 0xff8) as usize;
    let bank = (request.src & 0x1000) as usize;
    let ghost off0 = (request.src & 0xff8) as int;
    let ghost rd0 = (request.dst & 0x00ff_fff8) as int;
    let mut rsp_start = (request.src & 0x1ff8) as usize;
    let mut rdram_start = (request.dst & 0x00ff_fff8) as usize;
    assert(rsp_start == bank + off0);
    assert(off0 == off0 % 4096);
    let mut row: u32 = 0;
    while row < count
        invariant
            8 <= rdlen <= 0x1000,
            rdlen == row_length(len),
            count == row_count(len),
            skip == row_skip(len),
            skip <= 0xff8,
            1 <= count <= 256,
            row <= count,
            len == request.len,
            bank == sp_bank(request.src),
            bank == 0 || bank == 0x1000,
            off0 == (request.src & 0xff8) as int,
            0 <= off0 < 0x1000,
            rd0 == (request.dst & 0x00ff_fff8) as int,
            0 <= rd0 <= 0x00ff_fff8,
            rsp_start == bank + (off0 + row * rdlen) % 4096,
            rdram_start == rd0 + row * (rdlen + skip),
            to_sp ==> dst@.len() == SP_MEM_SIZE && rdram_in_bounds(request, src@.len() as int),
            !to_sp ==> src@.len() == SP_MEM_SIZE && rdram_in_bounds(request, dst@.len() as int),
            dst@.len() == old(dst)@.len(),
            dst@ == copy_rows(old(dst)@, src@, request, to_sp, row as nat),
        decreases count - row,
    {
        assert(row * (rdlen + skip) <= 255 * (0x1000 + 0xff8)) by (nonlinear_arith)
            requires
                row < 256,
                rdlen + skip <= 0x1000 + 0xff8,
        ;
        let ghost row_start = dst@;
        let mut offset: usize = 0;
        while offset < rdlen
            invariant
                8 <= rdlen <= 0x1000,
                rdlen == row_length(len),
                count == row_count(len),
                skip == row_skip(len),
                row < count,
                len == request.len,
                bank == sp_bank(request.src),
                bank == 0 || bank == 0x1000,
                off0 == (request.src & 0xff8) as int,
                0 <= off0 < 0x1000,
                rd0 == (request.dst & 0x00ff_fff8) as int,
                0 <= rd0 <= 0x00ff_fff8,
                rsp_start == bank + (off0 + row * rdlen) % 4096,
                rdram_start == rd0 + row * (rdlen + skip),
                rdram_start <= 0x00ff_fff8 + 255 * (0x1000 + 0xff8),
                offset <= rdlen,
                to_sp ==> dst@.len() == SP_MEM_SIZE && rdram_in_bounds(request, src@.len() as int),
                !to_sp ==> src@.len() == SP_MEM_SIZE && rdram_in_bounds(request, dst@.len() as int),
                dst@.len() == old(dst)@.len(),
                dst@ == copy_row(row_start, src@, request, to_sp, row as int, offset as nat),
            decreases rdlen - offset,
        {
            let s = rsp_start - bank;
            proof {
                lemma_sp_position(bank, s, offset, rsp_start);
                lemma_wrap4096(s as int, offset as int);
                vstd::arithmetic::div_mod::lemma_add_mod_noop(off0 + row * rdlen, offset as int, 4096);
                if offset < 4096 {
                    vstd::arithmetic::div_mod::lemma_small_mod(offset as nat, 4096);
                }
                vstd::arithmetic::div_mod::lemma_mod_twice(off0 + row * rdlen, 4096);
                crate::bits::lemma_mask_bounds();
                let x = (rdram_start + offset) as usize;
                assert((x >> 24usize) * 0x100_0000 + (x & 0xff_ffff) == x);
                crate::bits::lemma_div_mod(x as int, 0x100_0000, (x >> 24usize) as int, (x & 0xff_ffff) as int);
            }
            let sp_i = (rsp_start & 0x1000) | ((rsp_start + offset) & 0xfff);
            let rd_i = (rdram_start + offset) & 0x00ff_ffff;
            assert(sp_i == sp_index(request, row as int, offset as int));
            assert(rd_i == rdram_index(request, row as int, offset as int));
            if to_sp {
                let value = src[rd_i];
                dst.set(sp_i, value);
            } else {
                let value = src[sp_i];
                dst.set(rd_i, value);
            }
            offset = offset + 1;
        }
        let s = rsp_start - bank;
        proof {
            lemma_sp_position(bank, s, rdlen, rsp_start);
            lemma_wrap4096(s as int, rdlen as int);
            vstd::arithmetic::div_mod::lemma_add_mod_noop(off0 + row * rdlen, rdlen as int, 4096);
            if rdlen < 4096 {
                vstd::arithmetic::div_mod::lemma_small_mod(rdlen as nat, 4096);
            } else {
                assert(rdlen as int % 4096 == 0);
            }
            vstd::arithmetic::div_mod::lemma_mod_twice(off0 + row * rdlen, 4096);
            assert((row + 1) * rdlen == row * rdlen + rdlen) by (nonlinear_arith);
            assert((row + 1) * (rdlen + skip) == row * (rdlen + skip) + (rdlen + skip))
                by (nonlinear_arith);
        }
        rsp_start = (rsp_start & 0x1000) | ((rsp_start + rdlen) & 0xfff);
        rdram_start = rdram_start + rdlen + skip;
        row = row + 1;
    }
    proof {
        assert(count * (rdlen + skip) <= 256 * (0x1000 + 0xff8)) by (nonlinear_arith)
            requires
                count <= 256,
                rdlen + skip <= 0x1000 + 0xff8,
        ;
    }
    (rsp_start as u32, rdram_start as u32)
}

/// Carries out the RSP DMA `request` between SP memory and RDRAM (RDRAM
/// to SP memory when `mode` is set) and records the addresses after the
/// block in the SP DMA registers.
/// SP memory and RDRAM after an RSP DMA: the rows go from RDRAM to SP
/// memory when `mode` is set, else the other way; the other side stays.
pub open spec fn rsp_dma_post(
    rsp_mem: Seq<u8>,
    new_rsp_mem: Seq<u8>,
    rdram: Seq<u8>,
    new_rdram: Seq<u8>,
    request: DmaRequest,
) -> bool {
    &&& request.mode ==> new_rsp_mem == copy_rows(
        rsp_mem,
        rdram,
        request,
        true,
        row_count(request.len) as nat,
    ) && new_rdram == rdram
    &&& !request.mode ==> new_rdram == copy_rows(
        rdram,
        rsp_mem,
        request,
        false,
        row_count(request.len) as nat,
    ) && new_rsp_mem == rsp_mem
}

pub fn rsp_dma_transfer(
    rsp_mem: &mut Vec<u8>,
    rdram: &mut Vec<u8>,
    regs: &mut Registers,
    request: DmaRequest,
)
    requires
        old(rsp_mem)@.len() == SP_MEM_SIZE,
        rdram_in_bounds(request, old(rdram)@.len() as int),
    ensures
        rsp_dma_post(old(rsp_mem)@, final(rsp_mem)@, old(rdram)@, final(rdram)@, request),
        final(rsp_mem)@.len() == old(rsp_mem)@.len(),
        final(rdram)@.len() == old(rdram)@.len(),
        final(regs)@ == (RegistersView {
            sp_dma_spaddr: sp_end(request),
            sp_dma_ramaddr: rdram_end(request),
            ..old(regs)@
        }),
{
    let (sp_addr, ram_addr) = if request.mode {
        transfer(rsp_mem, rdram, request, true)
    } else {
        transfer(rdram, rsp_mem, request, false)
    };
    regs.finish_rsp_dma(sp_addr, ram_addr);
}

proof fn lemma_row_prefix(
    dst: Seq<u8>,
    src: Seq<u8>,
    request: DmaRequest,
    to_sp: bool,
    n: nat,
    dst_start: int,
    src_start: int,
)
    requires
        n <= row_length(request.len),
        (request.src & 0xff8) as int + row_length(request.len) <= 4096,
        (request.dst & 0x00ff_fff8) as int + row_length(request.len) <= 0x100_0000,
        dst_start == if to_sp {
            sp_bank(request.src) + (request.src & 0xff8) as int
        } else {
            (request.dst & 0x00ff_fff8) as int
        },
        src_start == if to_sp {
            (request.dst & 0x00ff_fff8) as int
        } else {
            sp_bank(request.src) + (request.src & 0xff8) as int
        },
        dst_start + row_length(request.len) <= dst.len(),
    ensures
        copy_row(dst, src, request, to_sp, 0, n).len() == dst.len(),
        forall|k: int|
            0 <= k < dst.len() ==> #[trigger] copy_row(dst, src, request, to_sp, 0, n)[k] == if dst_start
                <= k < dst_start + n {
                src[src_start + (k - dst_start)]
            } else {
                dst[k]
            },
    decreases n,
{
    if n > 0 {
        lemma_row_prefix(dst, src, request, to_sp, (n - 1) as nat, dst_start, src_start);
        let o = n - 1;
        assert(0 * row_length(request.len) == 0);
        assert(0 * (row_length(request.len) + row_skip(request.len)) == 0);
        vstd::arithmetic::div_mod::lemma_small_mod(((request.src & 0xff8) as int + o) as nat, 4096);
        vstd::arithmetic::div_mod::lemma_small_mod(
            ((request.dst & 0x00ff_fff8) as int + o) as nat,
            0x100_0000,
        );
        assert(sp_index(request, 0, o) == sp_bank(request.src) + (request.src & 0xff8) as int + o);
        assert(rdram_index(request, 0, o) == (request.dst & 0x00ff_fff8) as int + o);
    }
}

/// A transfer of one row that stays within its bank of SP memory and
/// within the 16 MiB of RDRAM addresses copies the row byte for byte:
/// the destination row holds the source row and every other byte of the
/// destination is as it was.
pub proof fn lemma_single_row_copy(dst: Seq<u8>, src: Seq<u8>, request: DmaRequest, to_sp: bool)
    requires
        row_count(request.len) == 1,
        (request.src & 0xff8) as int + row_length(request.len) <= 4096,
        (request.dst & 0x00ff_fff8) as int + row_length(request.len) <= 0x100_0000,
        to_sp ==> dst.len() == SP_MEM_SIZE,
        !to_sp ==> (request.dst & 0x00ff_fff8) as int + row_length(request.len) <= dst.len(),
    ensures
        ({
            let sp_row = sp_bank(request.src) + (request.src & 0xff8) as int;
            let ram_row = (request.dst & 0x00ff_fff8) as int;
            let (dst_row, src_row) = if to_sp {
                (sp_row, ram_row)
            } else {
                (ram_row, sp_row)
            };
            let result = copy_rows(dst, src, request, to_sp, 1);
            &&& result.len() == dst.len()
            &&& forall|k: int|
                0 <= k < dst.len() ==> #[trigger] result[k] == if dst_row <= k < dst_row
                    + row_length(request.len) {
                    src[src_row + (k - dst_row)]
                } else {
                    dst[k]
                }
        }),
{
    crate::bits::lemma_mask_bounds();
    let sp_row = sp_bank(request.src) + (request.src & 0xff8) as int;
    let ram_row = (request.dst & 0x00ff_fff8) as int;
    assert(sp_bank(request.src) + 0x1000 <= SP_MEM_SIZE);
    if to_sp {
        lemma_row_prefix(dst, src, request, to_sp, row_length(request.len) as nat, sp_row, ram_row);
    } else {
        lemma_row_prefix(dst, src, request, to_sp, row_length(request.len) as nat, ram_row, sp_row);
    }
    assert(copy_rows(dst, src, request, to_sp, 0) == dst);
}

/// An address after 32-bit wrap-around.
pub open spec fn wrap32(x: int) -> int {
    x % 0x1_0000_0000
}

/// Every byte that an SI DMA of `request` touches lies within RDRAM
/// (from `src`) and within the PIF (from `dst`).
pub open spec fn si_in_bounds(request: DmaRequest, rdram_len: int) -> bool {
    forall|i: int|
        0 <= i < request.len ==> #[trigger] wrap32(request.src + i) < rdram_len && wrap32(
            request.dst + i,
        ) < PIF_SIZE
}

/// `old` with the `len` bytes from `src_addr` of `from` copied to the
/// bytes from `dst_addr`, where those are at or after `writable_from`;
/// addresses wrap at 2^32.
pub open spec fn block_copy(
    old: Seq<u8>,
    from: Seq<u8>,
    dst_addr: u32,
    src_addr: u32,
    len: int,
    writable_from: int,
) -> Seq<u8> {
    Seq::new(
        old.len(),
        |k: int|
            if writable_from <= k < 0x1_0000_0000 && wrap32(k - dst_addr) < len {
                from[wrap32(src_addr + wrap32(k - dst_addr))]
            } else {
                old[k]
            },
    )
}

proof fn lemma_wrap_step(base: u32, i: int)
    requires
        0 <= i < 0x1_0000_0000,
    ensures
        0 <= wrap32(base + i) < 0x1_0000_0000,
        wrap32(base + i) == if base + i >= 0x1_0000_0000 {
            base + i - 0x1_0000_0000
        } else {
            base + i
        },
        wrap32(wrap32(base + i) - base) == i,
        forall|k: int|
            0 <= k < 0x1_0000_0000 && k != wrap32(base + i) ==> #[trigger] wrap32(k - base) != i,
{
    if base + i >= 0x1_0000_0000 {
        crate::bits::lemma_div_mod(base + i, 0x1_0000_0000, 1, base + i - 0x1_0000_0000);
        crate::bits::lemma_div_mod(i - 0x1_0000_0000, 0x1_0000_0000, -1, i);
    } else {
        crate::bits::lemma_div_mod(base + i, 0x1_0000_0000, 0, base + i);
        crate::bits::lemma_div_mod(i, 0x1_0000_0000, 0, i);
    }
    assert forall|k: int|
        0 <= k < 0x1_0000_0000 && k != wrap32(base + i) implies #[trigger] wrap32(k - base) != i by {
        if k - base >= 0 {
            crate::bits::lemma_div_mod(k - base, 0x1_0000_0000, 0, k - base);
        } else {
            crate::bits::lemma_div_mod(k - base, 0x1_0000_0000, -1, k - base + 0x1_0000_0000);
        }
    }
}

/// Carries out the SI DMA `request`: from the PIF to RDRAM when `mode`
/// is set, else from RDRAM to PIF RAM, after which the PIF takes the new
/// RAM as its input; then raises the SI interrupt.
pub fn si_dma_transfer(
    si: &mut SerialInterface,
    rdram: &mut Vec<u8>,
    rcp_int: &mut RcpInterrupt,
    request: DmaRequest,
)
    requires
        old(si).spec_pif().wf(),
        si_in_bounds(request, old(rdram)@.len() as int),
    ensures
        final(si).spec_pif().wf(),
        final(si).spec_dram_addr() == old(si).spec_dram_addr(),
        final(si).spec_status() == old(si).spec_status(),
        request.mode ==> final(rdram)@ == block_copy(
            old(rdram)@,
            old(si).spec_pif().spec_data(),
            request.src,
            request.dst,
            request.len as int,
            0,
        ) && final(si).spec_pif() == old(si).spec_pif(),
        !request.mode ==> {
            &&& final(rdram)@ == old(rdram)@
            &&& final(si).spec_pif().spec_data() == block_copy(
                old(si).spec_pif().spec_data(),
                old(rdram)@,
                request.dst,
                request.src,
                request.len as int,
                PIF_RAM_START as int,
            )
            &&& final(si).spec_pif().spec_input() == final(si).spec_pif().spec_ram()
            &&& final(si).spec_pif().spec_joypads() == old(si).spec_pif().spec_joypads()
        },
        final(rcp_int).raised_from(*old(rcp_int), RcpIntType::SI),
{
    let ghost old_rdram = rdram@;
    let ghost old_data = si.spec_pif().spec_data();
    proof {
        si.spec_pif().lemma_wf();
    }
    let src = request.src;
    let dst = request.dst;
    let len = request.len;
    if request.mode {
        let mut index: u32 = 0;
        while index < len
            invariant
                index <= len,
                src == request.src,
                dst == request.dst,
                len == request.len,
                si.spec_pif().wf(),
                si.spec_pif().spec_data() == old_data,
                si_in_bounds(request, old_rdram.len() as int),
                rdram@ == block_copy(old_rdram, old_data, src, dst, index as int, 0),
            decreases len - index,
        {
            proof {
                lemma_wrap_step(src, index as int);
                lemma_wrap_step(dst, index as int);
                assert(wrap32(request.src + index) < old_rdram.len());
            }
            let value = si.pif().read_u8(dst.wrapping_add(index));
            let at = src.wrapping_add(index) as usize;
            rdram.set(at, value);
            proof {
                assert forall|k: int| 0 <= k < rdram@.len() implies #[trigger] rdram@[k]
                    == block_copy(old_rdram, old_data, src, dst, index + 1, 0)[k] by {
                    if k < 0x1_0000_0000 && k != at {
                        assert(wrap32(k - src) != index);
                    }
                }
                assert(rdram@ =~= block_copy(old_rdram, old_data, src, dst, index + 1, 0));
            }
            index = index + 1;
        }
    } else {
        let mut index: u32 = 0;
        while index < len
            invariant
                index <= len,
                src == request.src,
                dst == request.dst,
                len == request.len,
                si.spec_pif().wf(),
                si.spec_pif().spec_joypads() == old(si).spec_pif().spec_joypads(),
                si.spec_dram_addr() == old(si).spec_dram_addr(),
                si.spec_status() == old(si).spec_status(),
                rdram@ == old_rdram,
                si_in_bounds(request, old_rdram.len() as int),
                old_data.len() == PIF_SIZE,
                si.spec_pif().spec_data() == block_copy(
                    old_data,
                    old_rdram,
                    dst,
                    src,
                    index as int,
                    PIF_RAM_START as int,
                ),
            decreases len - index,
        {
            proof {
                lemma_wrap_step(src, index as int);
                lemma_wrap_step(dst, index as int);
                assert(wrap32(request.src + index) < old_rdram.len());
            }
            let value = rdram[src.wrapping_add(index) as usize];
            let at = dst.wrapping_add(index);
            let ghost before = si.spec_pif().spec_data();
            si.pif_mut().write_u8(at, value);
            proof {
                let after = si.spec_pif().spec_data();
                assert forall|k: int| 0 <= k < after.len() implies #[trigger] after[k]
                    == block_copy(old_data, old_rdram, dst, src, index + 1, PIF_RAM_START as int)[k] by {
                    if k < 0x1_0000_0000 && k != at {
                        assert(wrap32(k - dst) != index);
                    }
                }
                assert(after =~= block_copy(old_data, old_rdram, dst, src, index + 1, PIF_RAM_START as int));
            }
            index = index + 1;
        }
        si.pif_mut().upload();
    }
    si.finish_dma(rcp_int);
}

/// The size of DMEM, the first half of SP memory.
pub const DMEM_SIZE: usize = 4096;

/// The bytes that an RDP DMA reads: `len` bytes from `src` in DMEM when
/// `mode` is set (the XBUS), else in RDRAM.
pub open spec fn rdp_dma_source(rsp_mem: Seq<u8>, rdram: Seq<u8>, request: DmaRequest) -> Seq<u8> {
    let start = request.src as int;
    let end = request.src as int + request.len as int;
    if request.mode {
        rsp_mem.subrange(start, end)
    } else {
        rdram.subrange(start, end)
    }
}

/// An RDP DMA: uploads the command words that the request names, from
/// DMEM or RDRAM, and starts their run, which the caller then drives.
pub fn rdp_dma_transfer(rsp_mem: &[u8], rdram: &[u8], rdp: &mut Rdp, request: DmaRequest)
    requires
        old(rdp).wf(),
        rsp_mem@.len() >= DMEM_SIZE,
        request.mode ==> request.src as int + request.len as int <= DMEM_SIZE,
        !request.mode ==> request.src as int + request.len as int <= rdram@.len(),
        request.len % 8 == 0,
    ensures
        final(rdp).wf(),
        final(rdp)@ == (RdpView {
            commands: command_words(rdp_dma_source(rsp_mem@, rdram@, request)),
            next: 0,
            core: CoreView { sync_required: true, ..old(rdp)@.core },
            ..old(rdp)@
        }),
{
    let rdram_len = rdram.len();
    assert(rdram_len == rdram@.len());
    let start = request.src as usize;
    let end = start + request.len as usize;
    let source: &[u8] = if request.mode {
        rsp_mem
    } else {
        rdram
    };
    let mut commands: Vec<u8> = Vec::new();
    let mut i = start;
    while i < end
        invariant
            start <= i <= end,
            end <= source@.len(),
            source@ == (if request.mode {
                rsp_mem@
            } else {
                rdram@
            }),
            commands@ == source@.subrange(start as int, i as int),
        decreases end - i,
    {
        commands.push(source[i]);
        i = i + 1;
    }
    rdp.upload(commands.as_slice());
    rdp.start_run();
}

/// The end of the bus range that RDRAM answers (the first 63 MiB).
pub const RDRAM_RANGE_END: u32 = 0x03f0_0000;

/// The start of the bus range that the cartridge ROM answers.
pub const ROM_RANGE_START: u32 = 0x1000_0000;

/// The end of the bus range that the cartridge ROM answers.
pub const ROM_RANGE_END: u32 = 0x1fc0_0000;

/// The byte that the bus reads at `address`, in the RDRAM or the ROM range:
/// past the end of either, zero.
pub open spec fn bus_byte(rdram: Seq<u8>, rom: Seq<u8>, address: int) -> u8 {
    if address < RDRAM_RANGE_END {
        if address < rdram.len() {
            rdram[address]
        } else {
            0
        }
    } else {
        let a = address % 0x1000_0000;
        if a < rom.len() {
            rom[a]
        } else {
            0
        }
    }
}

/// RDRAM after the bus copies `n` bytes, one after the other, from `from`
/// to `to`; writes past the end of RDRAM are dropped.
pub open spec fn bus_copy(rdram: Seq<u8>, rom: Seq<u8>, from: int, to: int, n: nat) -> Seq<u8>
    decreases n,
{
    if n == 0 {
        rdram
    } else {
        let before = bus_copy(rdram, rom, from, to, (n - 1) as nat);
        let at = to + n - 1;
        if at < before.len() {
            before.update(at, bus_byte(before, rom, from + n - 1))
        } else {
            before
        }
    }
}

/// Whether the bytes from `start` to `start + len` (inclusive) lie in the
/// RDRAM range, or all in the ROM range when `rom_allowed`.
pub open spec fn in_dma_range(start: u32, len: u32, rom_allowed: bool) -> bool {
    ||| (start as int + len as int) < RDRAM_RANGE_END
    ||| rom_allowed && ROM_RANGE_START <= start && (start as int + len as int) < ROM_RANGE_END
}

/// The byte that the bus reads at `address`.
fn read_bus_byte(rdram: &Vec<u8>, rom: &[u8], address: u32) -> (r: u8)
    requires
        address < RDRAM_RANGE_END || ROM_RANGE_START <= address < ROM_RANGE_END,
    ensures
        r == bus_byte(rdram@, rom@, address as int),
{
    if address < RDRAM_RANGE_END {
        if (address as usize) < rdram.len() {
            rdram[address as usize]
        } else {
            0
        }
    } else {
        let a = (address & 0x0fff_ffff) as usize;
        assert((address & 0x0fff_ffff) == address % 0x1000_0000) by (bit_vector);
        if a < rom.len() {
            rom[a]
        } else {
            0
        }
    }
}

/// A PI DMA: `len + 1` bytes, one after the other, from the cartridge
/// address (`src`) to RDRAM (`dst`), or, in the other direction (`mode`),
/// from `dst` to `src`, which must then lie in RDRAM too; then the PI
/// interrupt is raised. Bytes that would land past the end of RDRAM are
/// dropped, reads past the end of RDRAM or ROM give zero.
pub fn pi_dma_transfer(
    rom: &[u8],
    rdram: &mut Vec<u8>,
    pi: &mut PeripheralInterface,
    rcp_int: &mut RcpInterrupt,
    request: DmaRequest,
)
    requires
        !request.mode ==> in_dma_range(request.src, request.len, true) && in_dma_range(
            request.dst,
            request.len,
            false,
        ),
        request.mode ==> in_dma_range(request.dst, request.len, true) && in_dma_range(
            request.src,
            request.len,
            false,
        ),
    ensures
        final(rdram)@ == if request.mode {
            bus_copy(old(rdram)@, rom@, request.dst as int, request.src as int, (request.len + 1) as nat)
        } else {
            bus_copy(old(rdram)@, rom@, request.src as int, request.dst as int, (request.len + 1) as nat)
        },
        final(pi)@ == old(pi)@,
        final(rcp_int).raised_from(*old(rcp_int), RcpIntType::PI),
{
    let (from, to) = if request.mode {
        (request.dst, request.src)
    } else {
        (request.src, request.dst)
    };
    let len = request.len;
    let mut index: u32 = 0;
    loop
        invariant_except_break
            rdram@ == bus_copy(old(rdram)@, rom@, from as int, to as int, index as nat),
        invariant
            index <= len,
            from as int + len as int <= u32::MAX,
            (to as int + len as int) < RDRAM_RANGE_END,
            (from as int + len as int) < RDRAM_RANGE_END || ROM_RANGE_START <= from && (from as int
                + len as int) < ROM_RANGE_END,
        ensures
            rdram@ == bus_copy(old(rdram)@, rom@, from as int, to as int, (len + 1) as nat),
        decreases len - index,
    {
        let value = read_bus_byte(rdram, rom, from + index);
        let at = to + index;
        if (at as usize) < rdram.len() {
            rdram.set(at as usize, value);
        }
        if index == len {
            break;
        }
        index = index + 1;
    }
    pi.finish_dma(rcp_int);
}

} // verus!
