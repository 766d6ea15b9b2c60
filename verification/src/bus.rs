//! The system bus: it maps each address to RDRAM, the RSP's memory and
//! registers, the RDP's command registers, an interface's registers, the
//! cartridge ROM or the PIF, and carries out the DMA transfers that
//! register writes request.

use crate::audio::{ai_read_value, ai_reset, ai_step_post, ai_write_post, AudioInterface};
use crate::dma::{
    block_copy, bus_copy, in_dma_range, pi_dma_transfer, rdp_dma_source, rdp_dma_transfer,
    rdram_end, rdram_in_bounds, rsp_dma_post, si_dma_transfer, si_in_bounds, sp_end, DmaRequest,
};
use crate::interrupt::{CpuInterrupt, RcpIntType, RcpInterrupt};
use crate::mips::{Core, CoreConfig, InitialState};
use crate::memory::{
    lemma_write_read_be_u32, read_be_u16, read_be_u32, read_be_u64, spec_apply, spec_read_be_u16,
    spec_read_be_u32, spec_read_be_u64, spec_write_be_u16, spec_write_be_u32, spec_write_be_u64,
    write_be_u16, write_be_u32, write_be_u64, Masked,
};
use crate::mips_interface::{mi_read_value, mi_write_post, MipsInterface};
use crate::peripheral::{
    pi_read_value, pi_write_post, reg_index, PeripheralInterface, PI_CART_ADDR, PI_DRAM_ADDR,
    PI_RD_LEN, PI_STATUS, PI_WR_LEN,
};
use crate::rdp::engine::{core_reset, CoreView};
use crate::rdp::pipeline::command_words;
use crate::rdp::engine::Draw;
use crate::rdp::{can_run_next, finish_run_post, run_next_post, CommandRegisters, Rdp, RdpView};
use crate::rdram::{rdram_reg_index, rdram_regs_read, Rdram, RDRAM_SIZE};
use crate::rsp::cp0::registers::{
    interrupt_after_write, read_value, written, DmaType, Registers, RegistersView, SP_HALTED,
};
use crate::rsp::cp2::cp2_reset;
use crate::rsp::{
    dma_after_write, registers_after_write, rsp_read_ok, rsp_read_value, rsp_write_ok,
    register_index, mem_offset, Rsp, RspView, DMEM_SIZE, IMEM_SIZE, MEM_SIZE,
};
use crate::serial::pif::{commands_ok, pif_write_post, PIF_RAM_START, PIF_SIZE};
use crate::serial::{si_read_value, si_write_post, SerialInterface};
use crate::video::{h_sync, reg_at, vi_reset, vi_step_post, vi_write_post, VideoInterface};
use vstd::prelude::*;

verus! {

/// The abstract state of the bus: the devices behind it.
pub struct BusView {
    pub rcp_int: RcpInterrupt,
    pub rom: Seq<u8>,
    pub rdram: Rdram,
    pub rsp: Rsp,
    pub rdp: Rdp,
    pub mi: MipsInterface,
    pub vi: VideoInterface,
    pub ai: AudioInterface,
    pub pi: PeripheralInterface,
    pub si: SerialInterface,
}

/// The system bus and the devices behind it.
pub struct Bus {
    rcp_int: RcpInterrupt,
    rom: Vec<u8>,
    rdram: Rdram,
    rsp: Rsp,
    rdp: Rdp,
    mi: MipsInterface,
    vi: VideoInterface,
    ai: AudioInterface,
    pi: PeripheralInterface,
    si: SerialInterface,
}

impl View for Bus {
    type V = BusView;

    closed spec fn view(&self) -> BusView {
        BusView {
            rcp_int: self.rcp_int,
            rom: self.rom@,
            rdram: self.rdram,
            rsp: self.rsp,
            rdp: self.rdp,
            mi: self.mi,
            vi: self.vi,
            ai: self.ai,
            pi: self.pi,
            si: self.si,
        }
    }
}

/// The bus after reset with `rom` in the cartridge slot: no interrupt
/// pending or enabled, the first 4 KiB of `rom` in DMEM, RDRAM as the IPL
/// leaves it, no RDP commands, and every interface at its reset state.
pub open spec fn bus_reset(v: BusView, rom: Seq<u8>) -> bool {
    &&& v.rom == rom
    &&& v.rcp_int.spec_status() == 0
    &&& v.rcp_int.spec_mask() == 0
    &&& v.rsp@.mem == rom.subrange(0, DMEM_SIZE as int) + Seq::new(IMEM_SIZE as nat, |i: int| 0u8)
    &&& v.rsp@.regs == Registers::initial()
    &&& cp2_reset(v.rsp@.cp2)
    &&& v.rdram.spec_data() == spec_write_be_u32(
        Seq::new(RDRAM_SIZE as nat, |i: int| 0u8),
        0x318,
        0x0080_0000,
    )
    &&& v.rdram.spec_registers() == Seq::new(8, |i: int| 0u32)
    &&& v.rdram.spec_interface() == seq![0u32, 0, 0, 0x14, 0, 0, 0, 0]
    &&& v.rdp@.commands.len() == 0
    &&& v.rdp@.next == 0
    &&& v.rdp@.dma is None
    &&& core_reset(v.rdp@.core)
    &&& v.mi.spec_mode() == 0
    &&& v.vi@ == vi_reset()
    &&& v.ai@ == ai_reset()
    &&& v.pi@ == seq![0u32, 0, 0x7f, 0x7f, 0, 64, 18, 7, 3, 0, 0, 0, 0]
    &&& v.si.spec_dram_addr() == 0
    &&& v.si.spec_status() == 0
    &&& v.si.spec_pif().spec_data() == Seq::new(0x800, |i: int| 0u8)
}

/// The cycles that one bus step advances the interfaces.
pub const CYCLES_PER_STEP: u64 = 2;

/// The 1 MiB region of an address: bits 20-31.
pub open spec fn region(address: u32) -> u32 {
    address >> 20u32
}

/// The offset of an address in its region: bits 0-19.
pub open spec fn offset(address: u32) -> u32 {
    address & 0x000f_ffff
}

/// The big-endian word at `at` in `mem`; a read past the end gives zero.
pub open spec fn memory_word(mem: Seq<u8>, at: int) -> u32 {
    if at + 4 <= mem.len() {
        spec_read_be_u32(mem, at)
    } else {
        0
    }
}

/// Whether the state is well formed: the interrupt lines agree, the RSP,
/// the RDP, the audio interface and the PIF are well formed, and no RSP
/// or RDP DMA waits to be taken.
pub open spec fn bus_wf(v: BusView) -> bool {
    &&& v.rcp_int.wf()
    &&& v.rsp.wf()
    &&& v.rdp.wf()
    &&& v.ai@.wf()
    &&& v.vi@.wf()
    &&& v.si.spec_pif().wf()
    &&& v.rsp@.regs.dma_type is Idle
}

/// Whether a word read at `address` is mapped.
pub open spec fn bus_read_ok(v: BusView, address: u32) -> bool {
    let r = region(address);
    let off = offset(address);
    if r <= 0x03e {
        true
    } else if r == 0x03f {
        off < 0x0008_0000 ==> rdram_reg_index(off) < 8
    } else if r == 0x040 {
        rsp_read_ok(off)
    } else if r == 0x041 {
        off >> 2u32 <= 3
    } else if r == 0x043 {
        true
    } else if r == 0x044 {
        off <= 0x3c && off & 3 == 0
    } else if r == 0x045 {
        off == 0x04 || off == 0x0c
    } else if r == 0x046 {
        reg_index(off) < 13
    } else if r == 0x047 {
        off >> 2u32 < 8
    } else if r == 0x048 {
        off == 0x00 || off == 0x18
    } else if 0x100 <= r <= 0x1fb {
        true
    } else if r == 0x1fc {
        off + 4 <= PIF_SIZE
    } else {
        false
    }
}

/// The word that a read at `address` gives.
pub open spec fn bus_read_value(v: BusView, address: u32) -> u32 {
    let r = region(address);
    let off = offset(address);
    if r <= 0x03e {
        memory_word(v.rdram.spec_data(), address as int)
    } else if r == 0x03f {
        rdram_regs_read(v.rdram.spec_registers(), off)
    } else if r == 0x040 {
        rsp_read_value(v.rsp@, off)
    } else if r == 0x041 {
        read_value(v.rsp@.regs, 8 + (off >> 2u32))
    } else if r == 0x043 {
        mi_read_value(v.mi, v.rcp_int, off)
    } else if r == 0x044 {
        reg_at(v.vi@.regs, off)
    } else if r == 0x045 {
        ai_read_value(v.ai@, off)
    } else if r == 0x046 {
        pi_read_value(v.pi@, v.rcp_int, off)
    } else if r == 0x047 {
        v.rdram.spec_interface()[(off >> 2u32) as int]
    } else if r == 0x048 {
        si_read_value(v.si, v.rcp_int, off)
    } else if 0x100 <= r <= 0x1fb {
        memory_word(v.rom, (address & 0x0fff_ffff) as int)
    } else {
        spec_read_be_u32(v.si.spec_pif().spec_data(), off as int)
    }
}

/// Whether a read of `n` bytes at `address` is of memory: RDRAM, SP
/// memory within its 8 KiB, cartridge ROM, or the PIF within its 2 KiB.
pub open spec fn memory_read_ok(address: u32, n: int) -> bool {
    let r = region(address);
    let off = offset(address);
    ||| r <= 0x03e
    ||| r == 0x040 && off < 0x0004_0000 && mem_offset(off) + n <= MEM_SIZE
    ||| 0x100 <= r <= 0x1fb
    ||| r == 0x1fc && off + n <= PIF_SIZE
}

/// Whether a write of `n` bytes at `address` is of writable memory:
/// RDRAM, SP memory within its 8 KiB, or the PIF within its 2 KiB.
pub open spec fn memory_write_ok(address: u32, n: int) -> bool {
    let r = region(address);
    let off = offset(address);
    ||| r <= 0x03e
    ||| r == 0x040 && off < 0x0004_0000 && mem_offset(off) + n <= MEM_SIZE
    ||| r == 0x1fc && off + n <= PIF_SIZE
}

/// The value that `read` takes from the memory that `address` falls in, at
/// its position there; a read of `n` bytes past the end of RDRAM or ROM
/// gives zero.
pub open spec fn memory_read(v: BusView, address: u32, n: int, read: spec_fn(Seq<u8>, int) -> int) -> int {
    let r = region(address);
    let off = offset(address);
    if r <= 0x03e {
        if address as int + n <= v.rdram.spec_data().len() {
            read(v.rdram.spec_data(), address as int)
        } else {
            0
        }
    } else if r == 0x040 {
        read(v.rsp@.mem, mem_offset(off))
    } else if r == 0x1fc {
        read(v.si.spec_pif().spec_data(), off as int)
    } else {
        let at = (address & 0x0fff_ffff) as int;
        if at + n <= v.rom.len() {
            read(v.rom, at)
        } else {
            0
        }
    }
}

/// The bus after `write` stores `n` bytes at `address`: only the memory
/// that the address falls in changes; a store past the end of RDRAM, or
/// into the PIF's ROM, changes nothing.
pub open spec fn memory_write_post(
    o: BusView,
    n: BusView,
    address: u32,
    len: int,
    write: spec_fn(Seq<u8>, int) -> Seq<u8>,
) -> bool {
    let r = region(address);
    let off = offset(address);
    if r <= 0x03e {
        &&& n == (BusView { rdram: n.rdram, ..o })
        &&& n.rdram.spec_data() == if address as int + len <= o.rdram.spec_data().len() {
            write(o.rdram.spec_data(), address as int)
        } else {
            o.rdram.spec_data()
        }
        &&& n.rdram.spec_registers() == o.rdram.spec_registers()
        &&& n.rdram.spec_interface() == o.rdram.spec_interface()
    } else if r == 0x040 {
        &&& n == (BusView { rsp: n.rsp, ..o })
        &&& n.rsp@ == (RspView { mem: write(o.rsp@.mem, mem_offset(off)), ..o.rsp@ })
    } else {
        &&& n == (BusView { si: n.si, ..o })
        &&& n.si.spec_dram_addr() == o.si.spec_dram_addr()
        &&& n.si.spec_status() == o.si.spec_status()
        &&& n.si.spec_pif().spec_input() == o.si.spec_pif().spec_input()
        &&& n.si.spec_pif().spec_joypads() == o.si.spec_pif().spec_joypads()
        &&& n.si.spec_pif().spec_data() == if off >= PIF_RAM_START {
            write(o.si.spec_pif().spec_data(), off as int)
        } else {
            o.si.spec_pif().spec_data()
        }
    }
}

/// A write that covers the whole word.
pub open spec fn full(value: u32) -> Masked {
    Masked { value, mask: 0xffff_ffff }
}

/// Whether an RDP DMA of `request` stays within DMEM (`mode`) or RDRAM
/// and moves whole command words.
pub open spec fn rdp_dma_ok(request: DmaRequest, rdram_len: int) -> bool {
    &&& request.len % 8 == 0
    &&& request.mode ==> request.src as int + request.len as int <= DMEM_SIZE
    &&& !request.mode ==> request.src as int + request.len as int <= rdram_len
}

/// The DMA that a write of `value` to PI_RD_LEN or PI_WR_LEN requests.
pub open spec fn pi_dma_request(regs: Seq<u32>, index: int, value: u32) -> DmaRequest {
    DmaRequest {
        src: regs[PI_CART_ADDR as int] & 0xffff_fffe,
        dst: regs[PI_DRAM_ADDR as int] & 0x00ff_fffe,
        len: value & 0x00ff_ffff,
        mode: index == PI_RD_LEN,
    }
}

/// Whether a PI DMA of `request` stays within the bus ranges that it can
/// read and write.
pub open spec fn pi_dma_ok(request: DmaRequest) -> bool {
    &&& !request.mode ==> in_dma_range(request.src, request.len, true) && in_dma_range(
        request.dst,
        request.len,
        false,
    )
    &&& request.mode ==> in_dma_range(request.dst, request.len, true) && in_dma_range(
        request.src,
        request.len,
        false,
    )
}

/// The DMA that a write of `value` to SI_PIF_AD_RD64B (0x04) or
/// SI_PIF_AD_WR64B (0x10) requests.
pub open spec fn si_dma_request(si: SerialInterface, off: u32, value: u32) -> DmaRequest {
    DmaRequest {
        src: si.spec_dram_addr() & 0x00ff_ffff,
        dst: value & 0x07fc,
        len: 64,
        mode: off == 0x04,
    }
}

/// Whether a word write of `value` at `address` is mapped, and the DMA
/// that it requests, if any, stays within memory.
pub open spec fn bus_write_ok(v: BusView, address: u32, value: u32) -> bool {
    let r = region(address);
    let off = offset(address);
    let rdram_len = v.rdram.spec_data().len() as int;
    if r <= 0x03e {
        true
    } else if r == 0x03f {
        rdram_reg_index(off) < 8
    } else if r == 0x040 {
        &&& rsp_write_ok(v.rsp@, off)
        &&& dma_after_write(v.rsp@, v.rcp_int, off, full(value)) matches Some(request)
            ==> rdram_in_bounds(request, rdram_len)
    } else if r == 0x041 {
        &&& off >> 2u32 == 0 || off >> 2u32 == 1 || off >> 2u32 == 3
        &&& written(v.rsp@.regs, v.rcp_int, 8 + (off >> 2u32), full(value)).dma_type matches DmaType::Rdp(
            request,
        ) ==> rdp_dma_ok(request, rdram_len)
    } else if r == 0x043 {
        true
    } else if r == 0x044 {
        off <= 0x3c && off & 3 == 0
    } else if r == 0x045 {
        off == 0x00 || off == 0x04 || off == 0x08 || off == 0x0c || off == 0x10 || off == 0x14
    } else if r == 0x046 {
        &&& reg_index(off) < 13
        &&& reg_index(off) == PI_STATUS ==> value & 1 == 0
        &&& (reg_index(off) == PI_RD_LEN || reg_index(off) == PI_WR_LEN) ==> pi_dma_ok(
            pi_dma_request(v.pi@, reg_index(off), value),
        )
    } else if r == 0x047 {
        off >> 2u32 < 8
    } else if r == 0x048 {
        &&& off == 0x00 || off == 0x04 || off == 0x10 || off == 0x18
        &&& off == 0x04 ==> commands_ok(v.si.spec_pif())
        &&& (off == 0x04 || off == 0x10) ==> si_in_bounds(si_dma_request(v.si, off, value), rdram_len)
    } else if r == 0x1fc {
        off + 4 <= PIF_SIZE
    } else {
        false
    }
}

/// RDRAM, the RSP and the interrupt state after a word write of `value` at
/// offset `off` of the RSP's region, with the RSP DMA that it requests.
pub open spec fn rsp_region_write_post(o: BusView, n: BusView, off: u32, value: u32) -> bool {
    if off < 0x0004_0000 {
        &&& n.rsp@ == (RspView { mem: spec_write_be_u32(o.rsp@.mem, mem_offset(off), value), ..o.rsp@ })
        &&& n.rdram == o.rdram
        &&& n.rcp_int == o.rcp_int
    } else {
        let mid = registers_after_write(o.rsp@, n.rcp_int, off, full(value));
        &&& off < 0x0004_0020 ==> interrupt_after_write(o.rcp_int, n.rcp_int, register_index(off), full(value))
        &&& off == 0x0008_0000 ==> n.rcp_int == o.rcp_int
        &&& match dma_after_write(o.rsp@, n.rcp_int, off, full(value)) {
            Some(request) => {
                &&& rsp_dma_post(mid.mem, n.rsp@.mem, o.rdram.spec_data(), n.rdram.spec_data(), request)
                &&& n.rsp@ == (RspView {
                    mem: n.rsp@.mem,
                    regs: RegistersView {
                        sp_dma_spaddr: sp_end(request),
                        sp_dma_ramaddr: rdram_end(request),
                        ..mid.regs
                    },
                    ..mid
                })
                &&& n.rdram.spec_registers() == o.rdram.spec_registers()
                &&& n.rdram.spec_interface() == o.rdram.spec_interface()
            },
            None => n.rsp@ == mid && n.rdram == o.rdram,
        }
    }
}

/// What a word write of `value` at `address` leaves, from `o` to `n`;
/// `started` says that an RDP run of uploaded commands has started, which
/// the caller then drives.
pub open spec fn bus_write_post(o: BusView, n: BusView, address: u32, value: u32, started: bool) -> bool {
    let r = region(address);
    let off = offset(address);
    if r <= 0x03e {
        &&& !started
        &&& n == (BusView { rdram: n.rdram, ..o })
        &&& n.rdram.spec_data() == if address as int + 4 <= o.rdram.spec_data().len() {
            spec_write_be_u32(o.rdram.spec_data(), address as int, value)
        } else {
            o.rdram.spec_data()
        }
        &&& n.rdram.spec_registers() == o.rdram.spec_registers()
        &&& n.rdram.spec_interface() == o.rdram.spec_interface()
    } else if r == 0x03f {
        &&& !started
        &&& n == (BusView { rdram: n.rdram, ..o })
        &&& n.rdram.spec_registers() == o.rdram.spec_registers().update(
            rdram_reg_index(off),
            value,
        )
        &&& n.rdram.spec_data() == o.rdram.spec_data()
        &&& n.rdram.spec_interface() == o.rdram.spec_interface()
    } else if r == 0x040 {
        &&& !started
        &&& n == (BusView { rsp: n.rsp, rdram: n.rdram, rcp_int: n.rcp_int, ..o })
        &&& rsp_region_write_post(o, n, off, value)
    } else if r == 0x041 {
        let w = written(o.rsp@.regs, o.rcp_int, 8 + (off >> 2u32), full(value));
        &&& n == (BusView { rsp: n.rsp, rdp: n.rdp, ..o })
        &&& n.rsp@ == (RspView {
            regs: RegistersView {
                dma_type: DmaType::Idle,
                running: w.sp_status & SP_HALTED == 0 && !o.rcp_int.spec_has(RcpIntType::SP),
                ..w
            },
            ..o.rsp@
        })
        &&& match w.dma_type {
            DmaType::Rdp(request) => {
                &&& started
                &&& n.rdp@ == (RdpView {
                    commands: command_words(rdp_dma_source(o.rsp@.mem, o.rdram.spec_data(), request)),
                    next: 0,
                    core: CoreView { sync_required: true, ..o.rdp@.core },
                    ..o.rdp@
                })
            },
            _ => !started && n.rdp == o.rdp,
        }
    } else if r == 0x043 {
        &&& !started
        &&& n == (BusView { mi: n.mi, rcp_int: n.rcp_int, ..o })
        &&& mi_write_post(o.mi, n.mi, o.rcp_int, n.rcp_int, off, full(value))
    } else if r == 0x044 {
        &&& !started
        &&& n == (BusView { vi: n.vi, rcp_int: n.rcp_int, ..o })
        &&& vi_write_post(o.vi, n.vi, o.rcp_int, n.rcp_int, off, full(value))
    } else if r == 0x045 {
        &&& !started
        &&& n == (BusView { ai: n.ai, rcp_int: n.rcp_int, ..o })
        &&& ai_write_post(o.ai@, n.ai@, o.rcp_int, n.rcp_int, off, full(value))
    } else if r == 0x046 {
        &&& !started
        &&& n == (BusView { pi: n.pi, rcp_int: n.rcp_int, rdram: n.rdram, ..o })
        &&& if reg_index(off) == PI_RD_LEN || reg_index(off) == PI_WR_LEN {
            let request = pi_dma_request(o.pi@, reg_index(off), value);
            &&& n.pi@ == o.pi@
            &&& n.rcp_int.raised_from(o.rcp_int, RcpIntType::PI)
            &&& n.rdram.spec_data() == if request.mode {
                bus_copy(o.rdram.spec_data(), o.rom, request.dst as int, request.src as int, (request.len + 1) as nat)
            } else {
                bus_copy(o.rdram.spec_data(), o.rom, request.src as int, request.dst as int, (request.len + 1) as nat)
            }
            &&& n.rdram.spec_registers() == o.rdram.spec_registers()
            &&& n.rdram.spec_interface() == o.rdram.spec_interface()
        } else {
            &&& pi_write_post(o.pi@, n.pi@, o.rcp_int, n.rcp_int, off, full(value), None)
            &&& n.rdram == o.rdram
        }
    } else if r == 0x047 {
        &&& !started
        &&& n == (BusView { rdram: n.rdram, ..o })
        &&& n.rdram.spec_interface() == o.rdram.spec_interface().update(
            (off >> 2u32) as int,
            value,
        )
        &&& n.rdram.spec_data() == o.rdram.spec_data()
        &&& n.rdram.spec_registers() == o.rdram.spec_registers()
    } else if r == 0x048 {
        let request = si_dma_request(o.si, off, value);
        &&& !started
        &&& n == (BusView { si: n.si, rcp_int: n.rcp_int, rdram: n.rdram, ..o })
        &&& if off == 0x04 {
            &&& n.si.spec_pif().processed_from(o.si.spec_pif())
            &&& n.si.spec_dram_addr() == o.si.spec_dram_addr()
            &&& n.si.spec_status() == o.si.spec_status()
            &&& n.rdram.spec_data() == block_copy(
                o.rdram.spec_data(),
                n.si.spec_pif().spec_data(),
                request.src,
                request.dst,
                64,
                0,
            )
            &&& n.rdram.spec_registers() == o.rdram.spec_registers()
            &&& n.rdram.spec_interface() == o.rdram.spec_interface()
            &&& n.rcp_int.raised_from(o.rcp_int, RcpIntType::SI)
        } else if off == 0x10 {
            &&& n.si.spec_pif().spec_data() == block_copy(
                o.si.spec_pif().spec_data(),
                o.rdram.spec_data(),
                request.dst,
                request.src,
                64,
                crate::serial::pif::PIF_RAM_START as int,
            )
            &&& n.si.spec_pif().spec_input() == n.si.spec_pif().spec_ram()
            &&& n.si.spec_pif().spec_joypads() == o.si.spec_pif().spec_joypads()
            &&& n.si.spec_dram_addr() == o.si.spec_dram_addr()
            &&& n.si.spec_status() == o.si.spec_status()
            &&& n.rdram.spec_data() == o.rdram.spec_data()
            &&& n.rdram.spec_registers() == o.rdram.spec_registers()
            &&& n.rdram.spec_interface() == o.rdram.spec_interface()
            &&& n.rcp_int.raised_from(o.rcp_int, RcpIntType::SI)
        } else {
            &&& si_write_post(o.si, n.si, o.rcp_int, n.rcp_int, off, full(value), None)
            &&& n.rdram == o.rdram
        }
    } else {
        &&& !started
        &&& n == (BusView { si: n.si, ..o })
        &&& pif_write_post(o.si.spec_pif(), n.si.spec_pif(), off, value)
        &&& n.si.spec_dram_addr() == o.si.spec_dram_addr()
        &&& n.si.spec_status() == o.si.spec_status()
    }
}

/// A word written to RDRAM, or to the RSP's DMEM or IMEM, is what a read
/// at the same address then gives.
pub proof fn lemma_memory_write_read_back(o: BusView, n: BusView, address: u32, value: u32, started: bool)
    requires
        bus_wf(o),
        bus_write_post(o, n, address, value, started),
        region(address) <= 0x03e && address as int + 4 <= o.rdram.spec_data().len() || region(address)
            == 0x040 && offset(address) < 0x0004_0000 && mem_offset(offset(address)) + 4 <= MEM_SIZE,
    ensures
        bus_read_ok(n, address),
        bus_read_value(n, address) == value,
{
    if region(address) <= 0x03e {
        lemma_write_read_be_u32(o.rdram.spec_data(), address as int, value);
    } else {
        o.rsp.lemma_mem_len();
        lemma_write_read_be_u32(o.rsp@.mem, mem_offset(offset(address)), value);
    }
}

/// A write that covers the whole word gives the written value.
proof fn lemma_full_write(value: u32)
    ensures
        value & 0xffff_ffff == value,
        forall|prev: u32| #[trigger] spec_apply(value, 0xffff_ffff, prev) == value,
{
    assert(value & 0xffff_ffff == value) by (bit_vector);
    assert forall|prev: u32| #[trigger] spec_apply(value, 0xffff_ffff, prev) == value by {
        assert((prev & !0xffff_ffffu32) | (value & 0xffff_ffffu32) == value) by (bit_vector);
    }
}

/// The big-endian word at `at` in `mem`, zero past the end.
fn read_memory_word(mem: &[u8], at: usize) -> (r: u32)
    ensures
        r == memory_word(mem@, at as int),
{
    let len = mem.len();
    if at <= len && 4 <= len - at {
        read_be_u32(mem, at)
    } else {
        0
    }
}

impl Bus {
    pub open spec fn wf(&self) -> bool {
        bus_wf(self@)
    }

    /// The bus after reset: RDRAM as it comes up, the RSP with the first
    /// 4 KiB of `rom_data` in DMEM, and every interface reset.
    pub fn new(rom_data: Vec<u8>) -> (r: Self)
        requires
            rom_data@.len() >= DMEM_SIZE,
        ensures
            r.wf(),
            bus_reset(r@, rom_data@),
    {
        let cpu_int = CpuInterrupt::new();
        assert(0u8 & 0x04u8 == 0) by (bit_vector);
        let rcp_int = RcpInterrupt::new(cpu_int);
        let rsp = Rsp::new(rom_data.as_slice());
        Bus {
            rcp_int,
            rom: rom_data,
            rdram: Rdram::new(),
            rsp,
            rdp: Rdp::new(),
            mi: MipsInterface::new(),
            vi: VideoInterface::new(),
            ai: AudioInterface::new(),
            pi: PeripheralInterface::new(),
            si: SerialInterface::new(),
        }
    }

    /// Reads the word at `address`. Reading SP_SEMAPHORE through the RSP's
    /// registers sets it; no other read changes anything.
    pub fn read_data(&mut self, address: u32) -> (r: u32)
        requires
            old(self).wf(),
            bus_read_ok(old(self)@, address),
        ensures
            final(self).wf(),
            r == bus_read_value(old(self)@, address),
            region(address) == 0x040 ==> {
                &&& final(self)@ == (BusView { rsp: final(self)@.rsp, ..old(self)@ })
                &&& final(self)@.rsp@ == if 0x0004_0000 <= offset(address) < 0x0004_0020
                    && register_index(offset(address)) == 7 {
                    RspView {
                        regs: RegistersView { sp_semaphore: true, ..old(self)@.rsp@.regs },
                        ..old(self)@.rsp@
                    }
                } else {
                    old(self)@.rsp@
                }
            },
            region(address) != 0x040 ==> final(self)@ == old(self)@,
    {
        let r = address >> 20u32;
        let off = address & 0x000f_ffff;
        if r <= 0x03e {
            read_memory_word(self.rdram.data().as_slice(), address as usize)
        } else if r == 0x03f {
            self.rdram.registers().read_register(off)
        } else if r == 0x040 {
            self.rsp.read_data(off)
        } else if r == 0x041 {
            self.rdp.command(self.rsp.regs()).read_register(off)
        } else if r == 0x043 {
            self.mi.read_u32(&self.rcp_int, off)
        } else if r == 0x044 {
            self.vi.read_u32(off)
        } else if r == 0x045 {
            self.ai.read_register(off)
        } else if r == 0x046 {
            self.pi.read_u32(&self.rcp_int, off)
        } else if r == 0x047 {
            self.rdram.interface().read_register(off)
        } else if r == 0x048 {
            self.si.read_register(&self.rcp_int, off)
        } else if 0x100 <= r && r <= 0x1fb {
            read_memory_word(self.rom.as_slice(), (address & 0x0fff_ffff) as usize)
        } else {
            self.si.pif().read(off)
        }
    }

    /// Writes the word `value` at `address`, and carries out the DMA that
    /// the write requests. Returns whether an RDP run of uploaded commands
    /// has started, which the caller then drives.
    #[verifier::rlimit(80)]
    pub fn write_data(&mut self, address: u32, value: u32) -> (started: bool)
        requires
            old(self).wf(),
            bus_write_ok(old(self)@, address, value),
        ensures
            final(self).wf(),
            bus_write_post(old(self)@, final(self)@, address, value, started),
    {
        proof {
            lemma_full_write(value);
        }
        let r = address >> 20u32;
        let off = address & 0x000f_ffff;
        if r <= 0x03e {
            let data = self.rdram.data_mut();
            let len = data.len();
            if (address as usize) <= len && 4 <= len - address as usize {
                write_be_u32(data, address as usize, value);
            }
            false
        } else if r == 0x03f {
            self.rdram.registers_mut().write_register(off, Masked::full(value));
            false
        } else if r == 0x040 {
            match self.rsp.write_data(&mut self.rcp_int, off, value) {
                Some(request) => {
                    self.rsp.dma_transfer(self.rdram.data_mut(), request);
                },
                None => {},
            }
            false
        } else if r == 0x041 {
            let regs = self.rsp.regs_mut();
            let index = 8 + (off >> 2u32) as usize;
            regs.set(&mut self.rcp_int, index, Masked::full(value));
            let dma = regs.take_dma_type(&self.rcp_int);
            match dma {
                DmaType::Rdp(request) => {
                    rdp_dma_transfer(
                        self.rsp.mem().as_slice(),
                        self.rdram.data().as_slice(),
                        &mut self.rdp,
                        request,
                    );
                    true
                },
                _ => false,
            }
        } else if r == 0x043 {
            self.mi.write_u32(&mut self.rcp_int, off, Masked::full(value));
            false
        } else if r == 0x044 {
            self.vi.write_u32(&mut self.rcp_int, off, Masked::full(value));
            false
        } else if r == 0x045 {
            self.ai.write_register(&mut self.rcp_int, off, Masked::full(value));
            false
        } else if r == 0x046 {
            match self.pi.write_u32(&mut self.rcp_int, off, Masked::full(value)) {
                Some(request) => {
                    pi_dma_transfer(
                        self.rom.as_slice(),
                        self.rdram.data_mut(),
                        &mut self.pi,
                        &mut self.rcp_int,
                        request,
                    );
                },
                None => {},
            }
            false
        } else if r == 0x047 {
            self.rdram.interface_mut().write_register(off, Masked::full(value));
            false
        } else if r == 0x048 {
            match self.si.write_register(&mut self.rcp_int, off, Masked::full(value)) {
                Some(request) => {
                    si_dma_transfer(&mut self.si, self.rdram.data_mut(), &mut self.rcp_int, request);
                },
                None => {},
            }
            false
        } else {
            self.si.pif_mut().write(off, value);
            false
        }
    }

    /// Reads the byte at `address` of RDRAM, SP memory, ROM or the PIF.
    pub fn read_u8(&self, address: u32) -> (r: u8)
        requires
            self.wf(),
            memory_read_ok(address, 1),
        ensures
            r as int == memory_read(self@, address, 1, |m: Seq<u8>, a: int| m[a] as int),
    {
        let r = address >> 20u32;
        let off = address & 0x000f_ffff;
        if r <= 0x03e {
            let data = self.rdram.data();
            if (address as usize) < data.len() {
                data[address as usize]
            } else {
                0
            }
        } else if r == 0x040 {
            self.rsp.read_u8(off)
        } else if r == 0x1fc {
            self.si.pif().read_u8(off)
        } else {
            let at = (address & 0x0fff_ffff) as usize;
            if at < self.rom.len() {
                self.rom[at]
            } else {
                0
            }
        }
    }

    /// Reads the big-endian halfword at `address` of RDRAM, SP memory, ROM
    /// or the PIF.
    pub fn read_u16(&self, address: u32) -> (r: u16)
        requires
            self.wf(),
            memory_read_ok(address, 2),
        ensures
            r as int == memory_read(self@, address, 2, |m: Seq<u8>, a: int| spec_read_be_u16(m, a) as int),
    {
        let r = address >> 20u32;
        let off = address & 0x000f_ffff;
        if r <= 0x03e {
            let data = self.rdram.data();
            let len = data.len();
            if (address as usize) <= len && 2 <= len - address as usize {
                read_be_u16(data.as_slice(), address as usize)
            } else {
                0
            }
        } else if r == 0x040 {
            self.rsp.read_u16(off)
        } else if r == 0x1fc {
            self.si.pif().read_u16(off)
        } else {
            let at = (address & 0x0fff_ffff) as usize;
            let len = self.rom.len();
            if at <= len && 2 <= len - at {
                read_be_u16(self.rom.as_slice(), at)
            } else {
                0
            }
        }
    }

    /// Reads the big-endian doubleword at `address` of RDRAM, SP memory,
    /// ROM or the PIF.
    pub fn read_u64(&self, address: u32) -> (r: u64)
        requires
            self.wf(),
            memory_read_ok(address, 8),
        ensures
            r as int == memory_read(self@, address, 8, |m: Seq<u8>, a: int| spec_read_be_u64(m, a) as int),
    {
        let r = address >> 20u32;
        let off = address & 0x000f_ffff;
        if r <= 0x03e {
            let data = self.rdram.data();
            let len = data.len();
            if (address as usize) <= len && 8 <= len - address as usize {
                read_be_u64(data.as_slice(), address as usize)
            } else {
                0
            }
        } else if r == 0x040 {
            self.rsp.read_u64(off)
        } else if r == 0x1fc {
            self.si.pif().read_u64(off)
        } else {
            let at = (address & 0x0fff_ffff) as usize;
            let len = self.rom.len();
            if at <= len && 8 <= len - at {
                read_be_u64(self.rom.as_slice(), at)
            } else {
                0
            }
        }
    }

    /// Writes the byte `value` at `address` of RDRAM, SP memory or PIF RAM.
    pub fn write_u8(&mut self, address: u32, value: u8)
        requires
            old(self).wf(),
            memory_write_ok(address, 1),
        ensures
            final(self).wf(),
            memory_write_post(old(self)@, final(self)@, address, 1, |m: Seq<u8>, a: int| m.update(a, value)),
    {
        let r = address >> 20u32;
        let off = address & 0x000f_ffff;
        if r <= 0x03e {
            let data = self.rdram.data_mut();
            if (address as usize) < data.len() {
                data.set(address as usize, value);
            }
        } else if r == 0x040 {
            self.rsp.write_u8(off, value);
        } else {
            self.si.pif_mut().write_u8(off, value);
        }
    }

    /// Writes `value` big-endian at `address` of RDRAM, SP memory or PIF RAM.
    pub fn write_u16(&mut self, address: u32, value: u16)
        requires
            old(self).wf(),
            memory_write_ok(address, 2),
        ensures
            final(self).wf(),
            memory_write_post(
                old(self)@,
                final(self)@,
                address,
                2,
                |m: Seq<u8>, a: int| spec_write_be_u16(m, a, value),
            ),
    {
        let r = address >> 20u32;
        let off = address & 0x000f_ffff;
        if r <= 0x03e {
            let data = self.rdram.data_mut();
            let len = data.len();
            if (address as usize) <= len && 2 <= len - address as usize {
                write_be_u16(data, address as usize, value);
            }
        } else if r == 0x040 {
            self.rsp.write_u16(off, value);
        } else {
            self.si.pif_mut().write_u16(off, value);
        }
    }

    /// Writes `value` big-endian at `address` of RDRAM, SP memory or PIF RAM.
    pub fn write_u64(&mut self, address: u32, value: u64)
        requires
            old(self).wf(),
            memory_write_ok(address, 8),
        ensures
            final(self).wf(),
            memory_write_post(
                old(self)@,
                final(self)@,
                address,
                8,
                |m: Seq<u8>, a: int| spec_write_be_u64(m, a, value),
            ),
    {
        let r = address >> 20u32;
        let off = address & 0x000f_ffff;
        if r <= 0x03e {
            let data = self.rdram.data_mut();
            let len = data.len();
            if (address as usize) <= len && 8 <= len - address as usize {
                write_be_u64(data, address as usize, value);
            }
        } else if r == 0x040 {
            self.rsp.write_u64(off, value);
        } else {
            self.si.pif_mut().write_u64(off, value);
        }
    }

    /// Runs the next command of the RDP's run over RDRAM: `None` when all
    /// have run, else the primitive to draw, if the command is one.
    pub fn rdp_run_next(&mut self) -> (r: Option<Option<Draw>>)
        requires
            old(self).wf(),
            can_run_next(old(self)@.rdp@, old(self)@.rdram.spec_data()),
        ensures
            final(self).wf(),
            final(self)@ == (BusView { rdp: final(self)@.rdp, ..old(self)@ }),
            run_next_post(old(self)@.rdp@, final(self)@.rdp@, old(self)@.rdram.spec_data(), r),
    {
        self.rdp.run_next(self.rdram.data().as_slice())
    }

    /// Ends the RDP's run: the RDP is ready again, and when its commands
    /// asked for an interrupt the DP interrupt is raised and `true` says
    /// that the rendered image must be synced to RDRAM now.
    pub fn rdp_finish_run(&mut self) -> (r: bool)
        requires
            old(self).wf(),
        ensures
            final(self).wf(),
            final(self)@ == (BusView {
                rdp: final(self)@.rdp,
                rsp: final(self)@.rsp,
                rcp_int: final(self)@.rcp_int,
                ..old(self)@
            }),
            final(self)@.rsp@ == (RspView { regs: final(self)@.rsp@.regs, ..old(self)@.rsp@ }),
            finish_run_post(
                old(self)@.rdp@,
                final(self)@.rdp@,
                old(self)@.rsp@.regs,
                final(self)@.rsp@.regs,
                old(self)@.rcp_int,
                final(self)@.rcp_int,
                r,
            ),
    {
        self.rdp.finish_run(self.rsp.regs_mut(), &mut self.rcp_int)
    }

    /// Whether a sync of the rendered image to RDRAM is due; taking it
    /// leaves none due.
    pub fn rdp_sync(&mut self) -> (r: bool)
        requires
            old(self).wf(),
        ensures
            final(self).wf(),
            r == old(self)@.rdp@.core.sync_required,
            final(self)@ == (BusView { rdp: final(self)@.rdp, ..old(self)@ }),
            final(self)@.rdp@ == (RdpView {
                core: CoreView { sync_required: false, ..old(self)@.rdp@.core },
                ..old(self)@.rdp@
            }),
    {
        self.rdp.sync()
    }

    /// Advances the video and audio interfaces by one step; running the
    /// RSP's program, which comes first in a step, is left to the caller.
    pub fn step(&mut self)
        requires
            old(self).wf(),
            h_sync(old(self)@.vi@.regs.h_sync) != 0,
            old(self)@.vi@.h_counter + CYCLES_PER_STEP <= u64::MAX,
            i64::MIN <= old(self)@.ai@.counter - (CYCLES_PER_STEP as i64),
        ensures
            final(self).wf(),
            final(self)@ == (BusView {
                vi: final(self)@.vi,
                ai: final(self)@.ai,
                rcp_int: final(self)@.rcp_int,
                ..old(self)@
            }),
            exists|mid: RcpInterrupt|
                #[trigger] vi_step_post(
                    old(self)@.vi,
                    final(self)@.vi,
                    old(self)@.rcp_int,
                    mid,
                    CYCLES_PER_STEP,
                ) && ai_step_post(
                    old(self)@.ai@,
                    final(self)@.ai@,
                    mid,
                    final(self)@.rcp_int,
                    CYCLES_PER_STEP,
                ),
    {
        let ghost before = self@;
        self.vi.step(&mut self.rcp_int, CYCLES_PER_STEP);
        let ghost mid = self.rcp_int;
        self.ai.step(&mut self.rcp_int, CYCLES_PER_STEP);
        assert(vi_step_post(before.vi, self@.vi, before.rcp_int, mid, CYCLES_PER_STEP));
    }
}

/// Where the IPL hands over to the boot code that it loaded into DMEM.
pub const IPL3_START_ADDRESS: u32 = 0xA400_0040;

/// The VR4300's core: no PC mask, 64-bit registers.
pub open spec fn vr4300_config() -> CoreConfig {
    CoreConfig { pc_mask: 0xffff_ffff, enable_64_bit: true }
}

/// The general-purpose registers as the IPL leaves them: $S4 is 1, $S6 is
/// 0x3f, $SP points at the top of IMEM, the others are zero.
pub open spec fn ipl3_regs() -> Seq<u64> {
    Seq::new(
        32,
        |i: int|
            if i == 20 {
                1u64
            } else if i == 22 {
                0x3fu64
            } else if i == 29 {
                0xffff_ffff_a400_1ff0u64
            } else {
                0u64
            },
    )
}

/// A console with a cartridge inserted: the CPU core and the bus.
pub struct Instance {
    pub core: Core,
    pub bus: Bus,
}

impl Instance {
    /// The console just after the IPL: the core about to run the boot code
    /// at `IPL3_START_ADDRESS` with the registers that the IPL sets, and
    /// the bus after reset with `rom_data` inserted.
    pub fn new(rom_data: Vec<u8>) -> (r: Self)
        requires
            rom_data@.len() >= DMEM_SIZE,
        ensures
            r.bus.wf(),
            bus_reset(r.bus@, rom_data@),
            r.core@ == (crate::mips::CoreView {
                config: vr4300_config(),
                pc: IPL3_START_ADDRESS,
                next: seq![0xA400_0044u32, 0xA400_0048u32],
                delay: false,
                regs: ipl3_regs(),
                hi: 0,
                lo: 0,
            }),
    {
        let mut regs = [0u64; 32];
        regs[20] = 1;
        regs[22] = 0x3f;
        regs[29] = 0xffff_ffff_a400_1ff0;
        assert(regs@ =~= ipl3_regs());
        let initial_state = InitialState { pc: IPL3_START_ADDRESS, regs };
        let config = CoreConfig { pc_mask: 0xffff_ffff, enable_64_bit: true };
        let core = Core::new(config, initial_state);
        assert(forall|x: u32| #[trigger] (x & 0xffff_ffffu32) == x) by (bit_vector);
        Instance { core, bus: Bus::new(rom_data) }
    }
}

} // verus!
