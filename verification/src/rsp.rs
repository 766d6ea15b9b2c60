//! The Reality Signal Processor: its memory, its program counter and its
//! memory-mapped registers, with its system-control registers (COP0) and
//! its vector unit (COP2).

pub mod cp0;
pub mod registers;
pub mod cp2;
pub mod vector_unit;

use crate::dma::DmaRequest;
use crate::interrupt::RcpInterrupt;
use crate::memory::{
    read_be_u16, read_be_u32, read_be_u64, spec_apply, spec_read_be_u16, spec_read_be_u32,
    spec_read_be_u64, spec_write_be_u16, spec_write_be_u32, spec_write_be_u64, write_be_u16,
    write_be_u32, write_be_u64, Masked,
};
use crate::mips::{Core, CoreConfig, CoreView, InitialState};
use cp0::registers::{
    interrupt_after_write, is_writable_index, read_value, written, DmaType, Registers,
    RegistersView, SP_HALTED,
};
use cp0::Cp0;
use cp2::{cp2_reset, Cp2, Cp2View};
use vstd::prelude::*;

verus! {

/// The size of DMEM.
pub const DMEM_SIZE: usize = 4096;

/// The size of IMEM.
pub const IMEM_SIZE: usize = 4096;

/// The size of SP memory: DMEM, then IMEM.
pub const MEM_SIZE: usize = 8192;

/// The abstract state of the RSP: its scalar core, COP0's registers,
/// COP2 and SP memory.
pub struct RspView {
    pub core: CoreView,
    pub regs: RegistersView,
    pub cp2: Cp2View,
    pub mem: Seq<u8>,
}

/// The RSP: its scalar core, COP0, COP2 and the 8 KiB of SP memory.
pub struct Rsp {
    core: Core,
    cp0: Cp0,
    cp2: Cp2,
    mem: Vec<u8>,
}

impl View for Rsp {
    type V = RspView;

    closed spec fn view(&self) -> RspView {
        RspView { core: self.core@, regs: self.cp0.spec_regs()@, cp2: self.cp2@, mem: self.mem@ }
    }
}

/// The register index that a register address (below 0x4_0020) selects.
pub open spec fn register_index(address: u32) -> int {
    ((address & 0x1f) >> 2u32) as int
}

/// The offset in SP memory of a memory address: memory is mirrored every
/// 8 KiB.
pub open spec fn mem_offset(address: u32) -> int {
    (address & 0x1fff) as int
}

/// The RSP after a register write of `value` at `address`, and the DMA
/// `r` that the write requests: below 0x4_0020 the write goes to COP0 and
/// the requested DMA, if any, is taken; at 0x8_0000 it sets SP_PC, word
/// aligned within IMEM. `o` and `oi` (the interrupt state) before, `n` and
/// `ni` after.
pub open spec fn register_write_post(
    o: RspView,
    n: RspView,
    oi: RcpInterrupt,
    ni: RcpInterrupt,
    address: u32,
    value: Masked,
    r: Option<DmaRequest>,
) -> bool {
    &&& n == registers_after_write(o, ni, address, value)
    &&& r == dma_after_write(o, ni, address, value)
    &&& address < 0x0004_0020 ==> interrupt_after_write(oi, ni, register_index(address), value)
    &&& address == 0x0008_0000 ==> ni == oi
}

/// The RSP after a register write of `value` at `address`, with `ni` the
/// interrupt state after it: below 0x4_0020 COP0 takes the write and the
/// requested DMA, if any, is taken; at 0x8_0000 SP_PC is set, word aligned
/// within IMEM.
pub open spec fn registers_after_write(o: RspView, ni: RcpInterrupt, address: u32, value: Masked) -> RspView {
    if address < 0x0004_0020 {
        let w = written(o.regs, ni, register_index(address), value);
        RspView {
            regs: RegistersView {
                dma_type: DmaType::Idle,
                running: w.sp_status & SP_HALTED == 0 && !ni.spec_has(
                    crate::interrupt::RcpIntType::SP,
                ),
                ..w
            },
            ..o
        }
    } else {
        let pc = spec_apply(value.value, value.mask, o.core.pc) & 0xffc;
        RspView {
            core: CoreView {
                pc: pc & 0xfff,
                next: seq![crate::mips::add32(pc, 4) & 0xfff, crate::mips::add32(pc, 8) & 0xfff],
                ..o.core
            },
            ..o
        }
    }
}

/// The RSP DMA that a register write of `value` at `address` requests.
pub open spec fn dma_after_write(o: RspView, ni: RcpInterrupt, address: u32, value: Masked) -> Option<DmaRequest> {
    if address < 0x0004_0020 {
        match written(o.regs, ni, register_index(address), value).dma_type {
            DmaType::Rsp(request) => Some(request),
            _ => None,
        }
    } else {
        None
    }
}

/// Whether a read of the RSP at `address` is mapped: a whole word of SP
/// memory below 0x4_0000, a COP0 register below 0x4_0020, or SP_PC.
pub open spec fn rsp_read_ok(address: u32) -> bool {
    ||| address < 0x0004_0000 && mem_offset(address) + 4 <= MEM_SIZE
    ||| 0x0004_0000 <= address < 0x0004_0020
    ||| address == 0x0008_0000
}

/// The value that a read of the RSP at `address` gives.
pub open spec fn rsp_read_value(v: RspView, address: u32) -> u32 {
    if address < 0x0004_0000 {
        spec_read_be_u32(v.mem, mem_offset(address))
    } else if address < 0x0004_0020 {
        read_value(v.regs, register_index(address))
    } else {
        v.core.pc
    }
}

/// Whether a write of the RSP at `address` is mapped: a whole word of SP
/// memory, a writable COP0 register, or SP_PC.
pub open spec fn rsp_write_ok(v: RspView, address: u32) -> bool {
    ||| address < 0x0004_0000 && mem_offset(address) + 4 <= MEM_SIZE
    ||| 0x0004_0000 <= address < 0x0004_0020 && is_writable_index(register_index(address) as usize)
        && !(v.regs.dma_type is Rdp)
    ||| address == 0x0008_0000
}

/// The RSP after a write of `value` at `address`, and the DMA `r` that it
/// requests: SP memory takes the word below 0x4_0000, the registers take
/// the rest.
pub open spec fn rsp_write_post(
    o: RspView,
    n: RspView,
    oi: RcpInterrupt,
    ni: RcpInterrupt,
    address: u32,
    value: u32,
    r: Option<DmaRequest>,
) -> bool {
    if address < 0x0004_0000 {
        &&& r is None
        &&& ni == oi
        &&& n == (RspView { mem: spec_write_be_u32(o.mem, mem_offset(address), value), ..o })
    } else {
        register_write_post(o, n, oi, ni, address, Masked { value, mask: 0xffff_ffff }, r)
    }
}

impl Rsp {
    pub closed spec fn wf(&self) -> bool {
        self.mem@.len() == MEM_SIZE && self.cp2.wf() && self.core@.config == (CoreConfig {
            pc_mask: 0xfff,
            enable_64_bit: false,
        })
    }

    /// A well-formed RSP has 8 KiB of memory.
    pub proof fn lemma_mem_len(&self)
        requires
            self.wf(),
        ensures
            self@.mem.len() == MEM_SIZE,
    {
    }

    /// The RSP after reset: DMEM holds the first 4 KiB of `initial_dmem`,
    /// IMEM is zero, the core starts at 0 with zeroed registers, and the
    /// registers are in their reset state.
    pub fn new(initial_dmem: &[u8]) -> (r: Self)
        requires
            initial_dmem@.len() >= DMEM_SIZE,
        ensures
            r.wf(),
            r@.mem == initial_dmem@.subrange(0, DMEM_SIZE as int) + Seq::new(
                IMEM_SIZE as nat,
                |i: int| 0u8,
            ),
            r@.regs == Registers::initial(),
            r@.core.pc == 0,
            r@.core.regs == Seq::new(32, |i: int| 0u64),
            cp2_reset(r@.cp2),
    {
        let mut mem: Vec<u8> = Vec::new();
        let mut i: usize = 0;
        while i < MEM_SIZE
            invariant
                i <= MEM_SIZE,
                initial_dmem@.len() >= DMEM_SIZE,
                mem@.len() == i,
                forall|k: int|
                    0 <= k < i ==> #[trigger] mem@[k] == if k < DMEM_SIZE {
                        initial_dmem@[k]
                    } else {
                        0u8
                    },
            decreases MEM_SIZE - i,
        {
            if i < DMEM_SIZE {
                mem.push(initial_dmem[i]);
            } else {
                mem.push(0);
            }
            i = i + 1;
        }
        assert(mem@ =~= initial_dmem@.subrange(0, DMEM_SIZE as int) + Seq::new(
            IMEM_SIZE as nat,
            |i: int| 0u8,
        ));
        let core = Core::new(
            CoreConfig { pc_mask: 0xfff, enable_64_bit: false },
            InitialState { pc: 0, regs: [0u64; 32] },
        );
        assert(core@.regs =~= Seq::new(32, |i: int| 0u64));
        assert(0u32 & 0xfffu32 == 0) by (bit_vector);
        Rsp { core, cp0: Cp0::new(), cp2: Cp2::new(), mem }
    }

    pub fn regs(&self) -> (r: &Registers)
        ensures
            r@ == self@.regs,
    {
        self.cp0.regs()
    }

    pub fn regs_mut(&mut self) -> (r: &mut Registers)
        ensures
            r@ == old(self)@.regs,
            final(self)@ == (RspView { regs: final(r)@, ..old(self)@ }),
            old(self).wf() ==> final(self).wf(),
    {
        self.cp0.regs_mut()
    }

    pub fn mem(&self) -> (r: &Vec<u8>)
        ensures
            r@ == self@.mem,
            self.wf() ==> r@.len() == MEM_SIZE,
    {
        &self.mem
    }

    pub fn mem_mut(&mut self) -> (r: &mut Vec<u8>)
        ensures
            r@ == old(self)@.mem,
            final(self)@ == (RspView { mem: final(r)@, ..old(self)@ }),
            old(self).wf() && final(r)@.len() == MEM_SIZE ==> final(self).wf(),
    {
        &mut self.mem
    }

    /// Reads a register: SP_DMA_SPADDR to SP_SEMAPHORE below 0x4_0020
    /// (reading SP_SEMAPHORE sets it), SP_PC at 0x8_0000.
    pub fn read_register(&mut self, address: u32) -> (r: u32)
        requires
            address < 0x0004_0020 || address == 0x0008_0000,
        ensures
            address < 0x0004_0020 ==> r == read_value(old(self)@.regs, register_index(address)),
            address < 0x0004_0020 && register_index(address) == 7 ==> final(self)@ == (RspView {
                regs: RegistersView { sp_semaphore: true, ..old(self)@.regs },
                ..old(self)@
            }),
            !(address < 0x0004_0020 && register_index(address) == 7) ==> final(self)@ == old(
                self,
            )@,
            address == 0x0008_0000 ==> r == old(self)@.core.pc,
            old(self).wf() ==> final(self).wf(),
    {
        if address < 0x0004_0020 {
            let index = ((address & 0x1f) >> 2u32) as usize;
            assert(((address & 0x1f) >> 2u32) <= 7) by (bit_vector);
            self.cp0.regs_mut().get(index)
        } else {
            self.core.pc()
        }
    }

    /// Writes a register: a write of SP_DMA_RDLEN or SP_DMA_WRLEN hands
    /// back the DMA it requests; a write of SP_PC at 0x8_0000 sets the
    /// program counter, word aligned within IMEM.
    pub fn write_register(&mut self, rcp_int: &mut RcpInterrupt, address: u32, value: Masked) -> (r:
        Option<DmaRequest>)
        requires
            old(self).wf(),
            old(rcp_int).wf(),
            address < 0x0004_0020 ==> is_writable_index(register_index(address) as usize),
            address < 0x0004_0020 ==> !(old(self)@.regs.dma_type is Rdp),
            address < 0x0004_0020 || address == 0x0008_0000,
        ensures
            final(self).wf(),
            register_write_post(old(self)@, final(self)@, *old(rcp_int), *final(rcp_int), address, value, r),
    {
        if address < 0x0004_0020 {
            let index = ((address & 0x1f) >> 2u32) as usize;
            assert(((address & 0x1f) >> 2u32) <= 7) by (bit_vector);
            let regs = self.cp0.regs_mut();
            regs.set(rcp_int, index, value);
            match regs.take_dma_type(rcp_int) {
                DmaType::Rsp(request) => Some(request),
                _ => None,
            }
        } else {
            let pc = value.apply(self.core.pc()) & 0xffc;
            self.core.set_pc(pc);
            None
        }
    }

    /// Reads the word at `address`: SP memory below 0x4_0000 (mirrored
    /// every 8 KiB), the registers above.
    pub fn read_data(&mut self, address: u32) -> (r: u32)
        requires
            old(self).wf(),
            rsp_read_ok(address),
        ensures
            final(self).wf(),
            r == rsp_read_value(old(self)@, address),
            0x0004_0000 <= address < 0x0004_0020 && register_index(address) == 7 ==> final(self)@
                == (RspView {
                regs: RegistersView { sp_semaphore: true, ..old(self)@.regs },
                ..old(self)@
            }),
            !(0x0004_0000 <= address < 0x0004_0020 && register_index(address) == 7) ==> final(self)@
                == old(self)@,
    {
        if address < 0x0004_0000 {
            self.read(address)
        } else {
            self.read_register(address)
        }
    }

    /// Writes the word `value` at `address`: SP memory below 0x4_0000, the
    /// registers above; hands back the DMA that a register write requests.
    pub fn write_data(&mut self, rcp_int: &mut RcpInterrupt, address: u32, value: u32) -> (r:
        Option<DmaRequest>)
        requires
            old(self).wf(),
            old(rcp_int).wf(),
            rsp_write_ok(old(self)@, address),
        ensures
            final(self).wf(),
            rsp_write_post(old(self)@, final(self)@, *old(rcp_int), *final(rcp_int), address, value, r),
    {
        if address < 0x0004_0000 {
            self.write(address, value);
            None
        } else {
            self.write_register(rcp_int, address, Masked::full(value))
        }
    }

    /// An RSP DMA between SP memory and `rdram`, as `rsp_dma_transfer`
    /// carries it out.
    pub fn dma_transfer(&mut self, rdram: &mut Vec<u8>, request: DmaRequest)
        requires
            old(self).wf(),
            crate::dma::rdram_in_bounds(request, old(rdram)@.len() as int),
        ensures
            final(self).wf(),
            crate::dma::rsp_dma_post(old(self)@.mem, final(self)@.mem, old(rdram)@, final(rdram)@, request),
            final(rdram)@.len() == old(rdram)@.len(),
            final(self)@ == (RspView {
                mem: final(self)@.mem,
                regs: RegistersView {
                    sp_dma_spaddr: crate::dma::sp_end(request),
                    sp_dma_ramaddr: crate::dma::rdram_end(request),
                    ..old(self)@.regs
                },
                ..old(self)@
            }),
    {
        crate::dma::rsp_dma_transfer(&mut self.mem, rdram, self.cp0.regs_mut(), request);
    }

    /// Reads the big-endian word at `address` of SP memory, which is
    /// mirrored every 8 KiB.
    pub fn read(&self, address: u32) -> (r: u32)
        requires
            self.wf(),
            mem_offset(address) + 4 <= MEM_SIZE,
        ensures
            r == spec_read_be_u32(self@.mem, mem_offset(address)),
    {
        read_be_u32(self.mem.as_slice(), (address & 0x1fff) as usize)
    }

    /// Reads the byte at `address` of SP memory, which repeats every 8 KiB.
    pub fn read_u8(&self, address: u32) -> (r: u8)
        requires
            self.wf(),
        ensures
            r == self@.mem[mem_offset(address)],
    {
        proof {
            crate::bits::lemma_mask_bounds();
        }
        let at = (address & 0x1fff) as usize;
        assert(at < MEM_SIZE);
        self.mem[at]
    }

    /// Reads the big-endian halfword at `address` of SP memory.
    pub fn read_u16(&self, address: u32) -> (r: u16)
        requires
            self.wf(),
            mem_offset(address) + 2 <= MEM_SIZE,
        ensures
            r == spec_read_be_u16(self@.mem, mem_offset(address)),
    {
        read_be_u16(self.mem.as_slice(), (address & 0x1fff) as usize)
    }

    /// Reads the big-endian doubleword at `address` of SP memory.
    pub fn read_u64(&self, address: u32) -> (r: u64)
        requires
            self.wf(),
            mem_offset(address) + 8 <= MEM_SIZE,
        ensures
            r == spec_read_be_u64(self@.mem, mem_offset(address)),
    {
        read_be_u64(self.mem.as_slice(), (address & 0x1fff) as usize)
    }

    /// Writes the byte `value` at `address` of SP memory.
    pub fn write_u8(&mut self, address: u32, value: u8)
        requires
            old(self).wf(),
        ensures
            final(self).wf(),
            final(self)@ == (RspView { mem: old(self)@.mem.update(mem_offset(address), value), ..old(self)@ }),
    {
        proof {
            crate::bits::lemma_mask_bounds();
        }
        let at = (address & 0x1fff) as usize;
        assert(at < MEM_SIZE);
        self.mem.set(at, value);
    }

    /// Writes `value` big-endian at `address` of SP memory.
    pub fn write_u16(&mut self, address: u32, value: u16)
        requires
            old(self).wf(),
            mem_offset(address) + 2 <= MEM_SIZE,
        ensures
            final(self).wf(),
            final(self)@ == (RspView {
                mem: spec_write_be_u16(old(self)@.mem, mem_offset(address), value),
                ..old(self)@
            }),
    {
        write_be_u16(&mut self.mem, (address & 0x1fff) as usize, value);
    }

    /// Writes `value` big-endian at `address` of SP memory.
    pub fn write_u64(&mut self, address: u32, value: u64)
        requires
            old(self).wf(),
            mem_offset(address) + 8 <= MEM_SIZE,
        ensures
            final(self).wf(),
            final(self)@ == (RspView {
                mem: spec_write_be_u64(old(self)@.mem, mem_offset(address), value),
                ..old(self)@
            }),
    {
        write_be_u64(&mut self.mem, (address & 0x1fff) as usize, value);
    }

    /// Writes `value` big-endian at `address` of SP memory.
    pub fn write(&mut self, address: u32, value: u32)
        requires
            old(self).wf(),
            mem_offset(address) + 4 <= MEM_SIZE,
        ensures
            final(self).wf(),
            final(self)@ == (RspView {
                mem: spec_write_be_u32(old(self)@.mem, mem_offset(address), value),
                ..old(self)@
            }),
    {
        write_be_u32(&mut self.mem, (address & 0x1fff) as usize, value);
    }
}

} // verus!
