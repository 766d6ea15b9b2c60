//! The Reality Display Processor: its command registers, the uploaded
//! command list and its runs, and the command pipelines that decode
//! display lists.

pub mod engine;
pub mod pipeline;
pub mod registers;

use crate::dma::DmaRequest;
use crate::interrupt::{RcpIntType, RcpInterrupt};
use crate::memory::{read_be_u64, Masked};
use engine::fragment::cache_key_post;
use engine::scene::Scene;
use engine::{
    can_dispatch, core_reset, dispatch, dispatch_post, extra_words, is_draw, Core, CoreView, Draw,
};
use pipeline::command_words;
use crate::rsp::cp0::registers::{
    written, DmaType, Registers as RspRegisters, RegistersView, DP_BUFFER_BUSY, DP_READY,
    SP_HALTED,
};
use vstd::prelude::*;

verus! {

/// The register index, in the RSP's register file, of the RDP command
/// register at byte `address`.
pub open spec fn command_index(address: u32) -> int {
    8 + (address >> 2u32)
}

/// Read access to the RDP command registers (DP_START, DP_END, DP_CURRENT,
/// DP_STATUS), which live in the RSP's register file.
pub struct CommandRegisters<'a> {
    regs: &'a RspRegisters,
}

impl<'a> CommandRegisters<'a> {
    pub fn new(regs: &'a RspRegisters) -> (r: Self)
        ensures
            r.regs() == *regs,
    {
        CommandRegisters { regs }
    }

    pub closed spec fn regs(&self) -> RspRegisters {
        *self.regs
    }

    /// Reads the command register at byte `address`.
    pub fn read_register(&self, address: u32) -> (r: u32)
        requires
            address >> 2u32 <= 3,
        ensures
            address >> 2u32 == 0 ==> r == self.regs()@.dp_start,
            address >> 2u32 == 1 ==> r == self.regs()@.dp_end,
            address >> 2u32 == 2 ==> r == self.regs()@.dp_current,
            address >> 2u32 == 3 ==> r == self.regs()@.dp_status,
    {
        self.regs.get_command(8 + (address >> 2u32) as usize)
    }
}

/// Write access to the RDP command registers. A write that ends a command
/// buffer hands the DMA it requests to `dma`.
pub struct CommandRegistersMut<'a> {
    regs: &'a mut RspRegisters,
    dma: &'a mut Option<DmaRequest>,
}

impl<'a> CommandRegistersMut<'a> {
    pub fn new(regs: &'a mut RspRegisters, dma: &'a mut Option<DmaRequest>) -> (r: Self)
        ensures
            r.regs() == *old(regs),
            r.dma() == *old(dma),
    {
        CommandRegistersMut { regs, dma }
    }

    pub closed spec fn regs(&self) -> RspRegisters {
        *self.regs
    }

    pub closed spec fn dma(&self) -> Option<DmaRequest> {
        *self.dma
    }

    /// Reads the command register at byte `address`.
    pub fn read_register(&self, address: u32) -> (r: u32)
        requires
            address >> 2u32 <= 3,
        ensures
            address >> 2u32 == 0 ==> r == self.regs()@.dp_start,
            address >> 2u32 == 1 ==> r == self.regs()@.dp_end,
            address >> 2u32 == 2 ==> r == self.regs()@.dp_current,
            address >> 2u32 == 3 ==> r == self.regs()@.dp_status,
    {
        self.regs.get_command(8 + (address >> 2u32) as usize)
    }

    /// Writes the command register at byte `address` (DP_START, DP_END or
    /// DP_STATUS), then takes the DMA that the write requested, if any, and
    /// hands it to `dma`.
    pub fn write_register(&mut self, rcp_int: &mut RcpInterrupt, address: u32, value: Masked)
        requires
            old(rcp_int).wf(),
            address >> 2u32 == 0 || address >> 2u32 == 1 || address >> 2u32 == 3,
            address >> 2u32 == 1 ==> old(self).regs()@.dma_type is Idle,
            !(old(self).regs()@.dma_type is Rsp),
        ensures
            ({
                let n = written(old(self).regs()@, *old(rcp_int), command_index(address), value);
                &&& final(self).regs()@ == RegistersView {
                    dma_type: DmaType::Idle,
                    running: n.sp_status & SP_HALTED == 0 && !old(rcp_int).spec_has(RcpIntType::SP),
                    ..n
                }
                &&& final(self).dma() == match n.dma_type {
                    DmaType::Rdp(request) => Some(request),
                    _ => None,
                }
                &&& *final(rcp_int) == *old(rcp_int)
            }),
    {
        let index = 8 + (address >> 2u32) as usize;
        self.regs.set(rcp_int, index, value);
        *self.dma = match self.regs.take_dma_type(rcp_int) {
            DmaType::Rdp(request) => Some(request),
            _ => None,
        };
    }
}

/// The abstract state of the RDP.
pub struct RdpView {
    pub commands: Seq<u64>,
    pub next: int,
    pub core: CoreView,
    pub dma: Option<DmaRequest>,
}

/// The RDP: the command list of the last upload, the position of the next
/// command to run, the command state, and the DMA that a write to the
/// command registers requested. Drawing the primitives and syncing the
/// rendered image to RDRAM are left to the renderer; the runs here say when.
pub struct Rdp {
    commands: Vec<u64>,
    next: usize,
    core: Core,
    dma: Option<DmaRequest>,
}

impl View for Rdp {
    type V = RdpView;

    closed spec fn view(&self) -> RdpView {
        RdpView {
            commands: self.commands@,
            next: self.next as int,
            core: self.core@,
            dma: self.dma,
        }
    }
}

/// Whether the next command of the run, if any, can run over `rdram`: its
/// words are all there and `can_dispatch` holds.
pub open spec fn can_run_next(o: RdpView, rdram: Seq<u8>) -> bool {
    o.next < o.commands.len() ==> {
        let cmd = o.commands[o.next];
        &&& o.next + 1 + extra_words(cmd) <= o.commands.len()
        &&& can_dispatch(o.core, rdram, cmd)
    }
}

/// The RDP after it runs the next command of the run over `rdram`, and
/// what it hands back: `None` when all have run, else the primitive to
/// draw, if the command is one.
pub open spec fn run_next_post(o: RdpView, n: RdpView, rdram: Seq<u8>, r: Option<Option<Draw>>) -> bool {
    &&& n.commands == o.commands
    &&& n.dma == o.dma
    &&& o.next >= o.commands.len() ==> r is None && n == o
    &&& o.next < o.commands.len() ==> {
        let cmd = o.commands[o.next];
        &&& r is Some
        &&& n.next == o.next + 1 + extra_words(cmd)
        &&& dispatch_post(o.core, n.core, rdram, cmd)
        &&& is_draw(cmd) ==> r->0 is Some && r->0->0.cmd == cmd && r->0->0.args@
            == o.commands.subrange(o.next + 1, n.next)
        &&& !is_draw(cmd) ==> r->0 is None
    }
}

/// The RDP, the RSP's registers and the interrupt state after a run ends:
/// the RDP is ready; if the commands asked for an interrupt, the buffer is
/// no longer busy, the request is taken, the DP interrupt is raised, no
/// sync is due any more and `r` says that the rendered image must be
/// synced now.
pub open spec fn finish_run_post(
    o: RdpView,
    n: RdpView,
    oregs: RegistersView,
    nregs: RegistersView,
    oi: RcpInterrupt,
    ni: RcpInterrupt,
    r: bool,
) -> bool {
    &&& r == o.core.interrupt
    &&& nregs == (RegistersView {
        dp_status: if r {
            (oregs.dp_status | DP_READY) & !DP_BUFFER_BUSY
        } else {
            oregs.dp_status | DP_READY
        },
        ..oregs
    })
    &&& r ==> n == (RdpView {
        core: CoreView { interrupt: false, sync_required: false, ..o.core },
        ..o
    })
    &&& r ==> ni.raised_from(oi, RcpIntType::DP)
    &&& !r ==> n == o && ni == oi
}

impl Rdp {
    pub closed spec fn wf(&self) -> bool {
        self.core.wf() && self.next <= self.commands@.len()
    }

    /// No commands, a fresh command state and no DMA.
    pub fn new() -> (r: Self)
        ensures
            r.wf(),
            r@.commands.len() == 0,
            r@.next == 0,
            r@.dma is None,
            core_reset(r@.core),
    {
        Rdp { commands: Vec::new(), next: 0, core: Core::new(), dma: None }
    }

    /// Draws a triangle of `vertices` into `scene` with the current command
    /// state, as `Core::push_triangle` does.
    pub fn push_triangle<V: Copy>(&mut self, scene: &mut Scene<V>, vertices: &[V; 3], texture: usize)
        requires
            old(self).wf(),
            old(scene)@.wf(),
            old(scene)@.vertices.len() + 3 <= u32::MAX,
        ensures
            final(self).wf(),
            final(self)@ == (RdpView {
                core: CoreView { fragment: final(self)@.core.fragment, ..old(self)@.core },
                ..old(self)@
            }),
            cache_key_post(
                old(self)@.core.fragment,
                final(self)@.core.fragment,
                final(self)@.core.fragment.states.len() - 1,
            ),
            final(scene)@ == old(scene)@.with_texture(texture).with_fragment_state(
                (final(self)@.core.fragment.states.len() - 1) as usize,
            ).with_triangle(vertices@),
            final(scene)@.wf(),
    {
        self.core.push_triangle(scene, vertices, texture);
    }

    /// Draws a rectangle, the quad of `vertices`, into `scene` with the
    /// current command state, as `Core::push_rect` does.
    pub fn push_rect<V: Copy>(&mut self, scene: &mut Scene<V>, vertices: &[V; 4], texture: usize)
        requires
            old(self).wf(),
            old(scene)@.wf(),
            old(scene)@.vertices.len() + 4 <= u32::MAX,
            old(scene)@.indices.len() + 6 <= u32::MAX,
        ensures
            final(self).wf(),
            final(self)@ == (RdpView {
                core: CoreView { fragment: final(self)@.core.fragment, ..old(self)@.core },
                ..old(self)@
            }),
            cache_key_post(
                old(self)@.core.fragment,
                final(self)@.core.fragment,
                final(self)@.core.fragment.states.len() - 1,
            ),
            final(scene)@ == old(scene)@.with_texture(texture).with_fragment_state(
                (final(self)@.core.fragment.states.len() - 1) as usize,
            ).with_quad(vertices@),
            final(scene)@.wf(),
    {
        self.core.push_rect(scene, vertices, texture);
    }

    pub fn command_state(&self) -> (r: &Core)
        ensures
            r@ == self@.core,
            self.wf() ==> r.wf(),
    {
        &self.core
    }

    /// Read access to the command registers in `rsp_regs`.
    pub fn command<'a>(&'a self, rsp_regs: &'a RspRegisters) -> (r: CommandRegisters<'a>)
        ensures
            r.regs() == *rsp_regs,
    {
        CommandRegisters::new(rsp_regs)
    }

    /// Write access to the command registers in `rsp_regs`; a DMA that a
    /// write requests is recorded here.
    pub fn command_mut<'a>(&'a mut self, rsp_regs: &'a mut RspRegisters) -> (r: CommandRegistersMut<'a>)
        ensures
            r.regs() == *old(rsp_regs),
            r.dma() == old(self)@.dma,
    {
        CommandRegistersMut::new(rsp_regs, &mut self.dma)
    }

    /// Takes the requested DMA, if any, leaving none.
    pub fn poll_dma(&mut self) -> (r: Option<DmaRequest>)
        ensures
            r == old(self)@.dma,
            final(self)@ == (RdpView { dma: None, ..old(self)@ }),
            old(self).wf() ==> final(self).wf(),
    {
        self.dma.take()
    }

    /// Replaces the command list with the big-endian words of
    /// `command_data`, which holds whole words.
    pub fn upload(&mut self, command_data: &[u8])
        requires
            old(self).wf(),
            command_data@.len() % 8 == 0,
        ensures
            final(self).wf(),
            final(self)@ == (RdpView {
                commands: command_words(command_data@),
                next: 0,
                ..old(self)@
            }),
    {
        let count = command_data.len() / 8;
        let mut commands: Vec<u64> = Vec::new();
        let mut i: usize = 0;
        while i < count
            invariant
                count == command_data@.len() / 8,
                command_data@.len() <= usize::MAX,
                i <= count,
                commands@ == command_words(command_data@).subrange(0, i as int),
            decreases count - i,
        {
            let word = read_be_u64(command_data, 8 * i);
            commands.push(word);
            i = i + 1;
            assert(commands@ =~= command_words(command_data@).subrange(0, i as int));
        }
        assert(command_words(command_data@).subrange(0, count as int) =~= command_words(
            command_data@,
        ));
        self.commands = commands;
        self.next = 0;
    }

    /// Starts a run of the uploaded commands: from now on a sync is due.
    pub fn start_run(&mut self)
        requires
            old(self).wf(),
        ensures
            final(self).wf(),
            final(self)@ == (RdpView {
                core: CoreView { sync_required: true, ..old(self)@.core },
                ..old(self)@
            }),
    {
        self.core.set_sync_required(true);
    }

    /// Runs the next command of the run: `None` when all have run; else the
    /// primitive to draw, if the command is one.
    pub fn run_next(&mut self, rdram: &[u8]) -> (r: Option<Option<Draw>>)
        requires
            old(self).wf(),
            can_run_next(old(self)@, rdram@),
        ensures
            final(self).wf(),
            run_next_post(old(self)@, final(self)@, rdram@, r),
    {
        if self.next >= self.commands.len() {
            return None;
        }
        let (next, draw) = dispatch(&mut self.core, rdram, self.commands.as_slice(), self.next);
        self.next = next;
        Some(draw)
    }

    /// Ends a run: the RDP is ready again; if the commands asked for an
    /// interrupt (SYNC_FULL), the command buffer is no longer busy, the
    /// request is taken, the DP interrupt is raised and `true` says that
    /// the rendered image must be synced to RDRAM now, which leaves no sync
    /// due.
    pub fn finish_run(&mut self, rsp_regs: &mut RspRegisters, rcp_int: &mut RcpInterrupt) -> (r:
        bool)
        requires
            old(self).wf(),
        ensures
            final(self).wf(),
            finish_run_post(
                old(self)@,
                final(self)@,
                old(rsp_regs)@,
                final(rsp_regs)@,
                *old(rcp_int),
                *final(rcp_int),
                r,
            ),
    {
        rsp_regs.set_dp_ready(true);
        if self.core.interrupt() {
            rsp_regs.clear_buffer_busy();
            self.core.set_interrupt(false);
            self.core.set_sync_required(false);
            rcp_int.raise(RcpIntType::DP);
            true
        } else {
            false
        }
    }

    /// Whether a sync of the rendered image is due; taking it leaves none
    /// due.
    pub fn sync(&mut self) -> (r: bool)
        requires
            old(self).wf(),
        ensures
            final(self).wf(),
            r == old(self)@.core.sync_required,
            final(self)@ == (RdpView {
                core: CoreView { sync_required: false, ..old(self)@.core },
                ..old(self)@
            }),
    {
        let due = self.core.sync_required();
        self.core.set_sync_required(false);
        due
    }
}

} // verus!
