//! The RDP's command engine: its command state, the commands that
//! change it, and the dispatch of command words. The dispatch hands each
//! primitive's words to the renderer, which works out its vertices and
//! adds them to a `Scene` with `Core::push_triangle` or `Core::push_rect`.

pub mod command;
pub mod fragment;
pub mod primitive;
pub mod scene;
pub mod target;
pub mod tmem;

use command::{
    color_image_format, color_of, combine_settings, field, fragment_with, other_modes_settings,
    Mode,
};
use command::texture::{format_of, has_valid_layout, texture_image_of, tile_of, tile_rect_of};
use fragment::{cache_key_post, FragmentControl, FragmentControlView, FragmentSettings};
use scene::Scene;
use target::{span, OutputFormat, Target, TargetView};
use tmem::{
    load_block_post, load_tile_fits, load_tile_post, sized_rect, TileDescriptor, Tmem, TmemView,
    TMEM_SIZE,
};
use vstd::prelude::*;

verus! {

/// The depth of the far plane, in units of 1/65536.
pub const Z_BUFFER_MAX: u64 = 0x1_0000_0000;

/// The abstract state of the RDP's command state.
pub struct CoreView {
    pub sync_required: bool,
    pub interrupt: bool,
    pub mode: Mode,
    pub prim_depth: u64,
    pub target: TargetView,
    pub tmem: TmemView,
    pub fragment: FragmentControlView,
}

/// The state that RDP commands set: sync and interrupt flags, the depth
/// mode and primitive depth (in units of 1/65536), the render target, TMEM
/// and the fragment stage.
pub struct Core {
    sync_required: bool,
    interrupt: bool,
    mode: Mode,
    prim_depth: u64,
    target: Target,
    tmem: Tmem,
    fragment: FragmentControl,
}

impl View for Core {
    type V = CoreView;

    closed spec fn view(&self) -> CoreView {
        CoreView {
            sync_required: self.sync_required,
            interrupt: self.interrupt,
            mode: self.mode,
            prim_depth: self.prim_depth,
            target: self.target@,
            tmem: self.tmem@,
            fragment: self.fragment@,
        }
    }
}

/// A primitive for the renderer: the command word and the words that
/// follow it.
#[derive(Clone, Debug, PartialEq, Eq)]
pub struct Draw {
    pub cmd: u64,
    pub args: Vec<u64>,
}

/// The command number, in bits 56-61.
pub open spec fn opcode_of(cmd: u64) -> u64 {
    (cmd >> 56u64) & 0x3f
}

/// Whether a command draws: the triangles (0x08-0x0f), the textured
/// rectangles (0x24, 0x25) and FILL_RECTANGLE (0x36).
pub open spec fn is_draw(cmd: u64) -> bool {
    let op = opcode_of(cmd);
    (0x08 <= op <= 0x0f) || op == 0x24 || op == 0x25 || op == 0x36
}

/// The words that follow a command: a triangle has three edge words, eight
/// shade words when bit 2 is set, eight texture words when bit 1 is set and
/// two depth words when bit 0 is set; a textured rectangle has one.
pub open spec fn extra_words(cmd: u64) -> int {
    let op = opcode_of(cmd);
    if 0x08 <= op <= 0x0f {
        3 + (if op & 4 != 0 {
            8int
        } else {
            0
        }) + (if op & 2 != 0 {
            8int
        } else {
            0
        }) + (if op & 1 != 0 {
            2int
        } else {
            0
        })
    } else if op == 0x24 || op == 0x25 {
        1
    } else {
        0
    }
}

/// Whether command `cmd` can run on `v`: the format fields it decodes are
/// valid and the loads stay within RDRAM and TMEM.
pub open spec fn can_dispatch(v: CoreView, rdram: Seq<u8>, cmd: u64) -> bool {
    let op = opcode_of(cmd);
    &&& (op == 0x35 || op == 0x3d) ==> has_valid_layout(cmd)
    &&& op == 0x3f ==> color_image_format(cmd) is Some
    &&& op == 0x34 ==> {
        &&& v.tmem.texture_image.format.1 <= 3
        &&& (v.tmem.texture_image.dram_width + 1) * 32 <= usize::MAX
        &&& load_tile_fits(v.tmem, rdram, tile_of(cmd) as int, tile_rect_of(cmd))
    }
    &&& op == 0x33 ==> {
        &&& v.tmem.tiles[tile_of(cmd) as int].tmem_addr <= TMEM_SIZE
        &&& v.tmem.texture_image.dram_addr <= rdram.len()
        &&& (rdram.len() - v.tmem.texture_image.dram_addr) % 8 == 0
        &&& v.tmem.texture_image.dram_addr % 8 == 0
    }
}

/// The state after command `cmd` runs on `o`.
pub open spec fn dispatch_post(o: CoreView, n: CoreView, rdram: Seq<u8>, cmd: u64) -> bool {
    let op = opcode_of(cmd);
    if op == 0x29 {
        n == CoreView { interrupt: true, ..o }
    } else if op == 0x2d {
        n == CoreView {
            target: TargetView {
                texture_width: span(field(cmd, 44, 0xfff) as u32, field(cmd, 12, 0xfff) as u32),
                texture_height: span(field(cmd, 32, 0xfff) as u32, field(cmd, 0, 0xfff) as u32),
                ..o.target
            },
            ..o
        }
    } else if op == 0x2e {
        n == CoreView { prim_depth: cmd as u32 as u64, ..o }
    } else if op == 0x2f {
        n == CoreView {
            mode: Mode { use_prim_depth: field(cmd, 2, 1) == 1 },
            fragment: fragment_with(o.fragment, other_modes_settings(o.fragment.settings, cmd)),
            ..o
        }
    } else if op == 0x32 {
        n == CoreView {
            tmem: TmemView {
                tiles: o.tmem.tiles.update(
                    tile_of(cmd) as int,
                    TileDescriptor {
                        rect: sized_rect(tile_rect_of(cmd)),
                        ..o.tmem.tiles[tile_of(cmd) as int]
                    },
                ),
                ..o.tmem
            },
            ..o
        }
    } else if op == 0x33 {
        &&& load_block_post(
            o.tmem,
            n.tmem,
            rdram,
            tile_of(cmd) as int,
            tile_rect_of(cmd).yh,
            tile_rect_of(cmd).yl,
        )
        &&& n == CoreView { tmem: n.tmem, ..o }
    } else if op == 0x34 {
        &&& load_tile_post(o.tmem, n.tmem, rdram, tile_of(cmd) as int, tile_rect_of(cmd))
        &&& n == CoreView { tmem: n.tmem, ..o }
    } else if op == 0x35 {
        n == CoreView {
            tmem: TmemView {
                tiles: o.tmem.tiles.update(
                    tile_of(cmd) as int,
                    TileDescriptor {
                        format: format_of(cmd),
                        tmem_addr: field(cmd, 32, 0x1ff) as u32,
                        ..o.tmem.tiles[tile_of(cmd) as int]
                    },
                ),
                ..o.tmem
            },
            ..o
        }
    } else if op == 0x37 {
        n == CoreView { target: TargetView { fill_color: cmd as u32, ..o.target }, ..o }
    } else if op == 0x38 {
        n == CoreView {
            fragment: fragment_with(
                o.fragment,
                FragmentSettings { fog_color: color_of(cmd), ..o.fragment.settings },
            ),
            ..o
        }
    } else if op == 0x39 {
        n == CoreView {
            fragment: fragment_with(
                o.fragment,
                FragmentSettings { blend_color: color_of(cmd), ..o.fragment.settings },
            ),
            ..o
        }
    } else if op == 0x3a {
        n == CoreView {
            fragment: fragment_with(
                o.fragment,
                FragmentSettings { prim_color: color_of(cmd), ..o.fragment.settings },
            ),
            ..o
        }
    } else if op == 0x3b {
        n == CoreView {
            fragment: fragment_with(
                o.fragment,
                FragmentSettings { env_color: color_of(cmd), ..o.fragment.settings },
            ),
            ..o
        }
    } else if op == 0x3c {
        n == CoreView {
            fragment: fragment_with(o.fragment, combine_settings(o.fragment.settings, cmd)),
            ..o
        }
    } else if op == 0x3d {
        n == CoreView { tmem: TmemView { texture_image: texture_image_of(cmd), ..o.tmem }, ..o }
    } else if op == 0x3f {
        n == CoreView {
            target: TargetView {
                sync_dram_addr: field(cmd, 0, 0x3ff_ffff) as u32,
                sync_width: (field(cmd, 32, 0x3ff) + 1) as u32,
                output_format: color_image_format(cmd)->0,
                ..o.target
            },
            ..o
        }
    } else {
        n == o
    }
}

/// The command state after reset: no sync required, no interrupt, depth
/// from the vertices, the primitive depth at the far plane, no output, 8-bit
/// color index format, default tiles and texture image, zeroed TMEM, and
/// the default combiner and blender settings with no fragment state made.
pub open spec fn core_reset(v: CoreView) -> bool {
    &&& !v.sync_required
    &&& !v.interrupt
    &&& v.mode == (Mode { use_prim_depth: false })
    &&& v.prim_depth == Z_BUFFER_MAX
    &&& v.target == (TargetView {
        output: None,
        output_format: OutputFormat::Index8,
        texture_width: 0,
        texture_height: 0,
        sync_dram_addr: 0,
        sync_width: 0,
        fill_color: 0,
    })
    &&& v.tmem.tiles == Seq::new(8, |i: int| TileDescriptor::spec_default())
    &&& v.tmem.texture_image == tmem::TextureImage::spec_default()
    &&& v.tmem.data == Seq::new(TMEM_SIZE as nat, |i: int| 0u64)
    &&& v.fragment.settings == fragment::default_settings()
    &&& v.fragment.dirty
    &&& v.fragment.states.len() == 0
}

impl Core {
    /// Whether TMEM and the fragment stage are well formed.
    pub closed spec fn wf(&self) -> bool {
        self.tmem.wf() && self.fragment.wf()
    }

    /// The state after reset: no sync required, no interrupt, depth from
    /// the vertices at the far plane, and fresh target, TMEM and fragment
    /// stage.
    pub fn new() -> (r: Self)
        ensures
            r.wf(),
            core_reset(r@),
    {
        Core {
            sync_required: false,
            interrupt: false,
            mode: Mode { use_prim_depth: false },
            prim_depth: Z_BUFFER_MAX,
            target: Target::new(),
            tmem: Tmem::new(),
            fragment: FragmentControl::new(),
        }
    }

    pub fn sync_required(&self) -> (r: bool)
        ensures
            r == self@.sync_required,
    {
        self.sync_required
    }

    pub fn set_sync_required(&mut self, sync_required: bool)
        ensures
            final(self)@ == (CoreView { sync_required, ..old(self)@ }),
            old(self).wf() ==> final(self).wf(),
    {
        self.sync_required = sync_required;
    }

    pub fn interrupt(&self) -> (r: bool)
        ensures
            r == self@.interrupt,
    {
        self.interrupt
    }

    pub fn set_interrupt(&mut self, interrupt: bool)
        ensures
            final(self)@ == (CoreView { interrupt, ..old(self)@ }),
            old(self).wf() ==> final(self).wf(),
    {
        self.interrupt = interrupt;
    }

    pub fn mode(&self) -> (r: &Mode)
        ensures
            *r == self@.mode,
    {
        &self.mode
    }

    pub fn set_mode(&mut self, mode: Mode)
        ensures
            final(self)@ == (CoreView { mode, ..old(self)@ }),
            old(self).wf() ==> final(self).wf(),
    {
        self.mode = mode;
    }

    /// The primitive depth, in units of 1/65536.
    pub fn prim_depth(&self) -> (r: u64)
        ensures
            r == self@.prim_depth,
    {
        self.prim_depth
    }

    pub fn set_prim_depth(&mut self, prim_depth: u64)
        ensures
            final(self)@ == (CoreView { prim_depth, ..old(self)@ }),
            old(self).wf() ==> final(self).wf(),
    {
        self.prim_depth = prim_depth;
    }

    pub fn target(&self) -> (r: &Target)
        ensures
            r@ == self@.target,
    {
        &self.target
    }

    pub fn tmem(&self) -> (r: &Tmem)
        ensures
            r@ == self@.tmem,
            self.wf() ==> r.wf(),
    {
        &self.tmem
    }

    pub fn fragment(&self) -> (r: &FragmentControl)
        ensures
            r@ == self@.fragment,
            self.wf() ==> r.wf(),
    {
        &self.fragment
    }

    /// Draws a triangle of `vertices` into `scene` with the current state:
    /// binds the texture with key `texture` (0 for none) and the fragment
    /// state of the current settings, then adds the triangle.
    pub fn push_triangle<V: Copy>(&mut self, scene: &mut Scene<V>, vertices: &[V; 3], texture: usize)
        requires
            old(self).wf(),
            old(scene)@.wf(),
            old(scene)@.vertices.len() + 3 <= u32::MAX,
        ensures
            final(self).wf(),
            final(self)@ == (CoreView { fragment: final(self)@.fragment, ..old(self)@ }),
            cache_key_post(
                old(self)@.fragment,
                final(self)@.fragment,
                final(self)@.fragment.states.len() - 1,
            ),
            final(scene)@ == old(scene)@.with_texture(texture).with_fragment_state(
                (final(self)@.fragment.states.len() - 1) as usize,
            ).with_triangle(vertices@),
            final(scene)@.wf(),
    {
        scene.bind_texture(texture);
        let key = self.fragment.cache_key();
        scene.bind_fragment_state(key);
        scene.push_triangle(vertices);
    }

    /// Draws a rectangle, the quad of `vertices`, into `scene` with the
    /// current state: binds the texture with key `texture` (0 for none)
    /// and the fragment state of the current settings, then adds the quad.
    pub fn push_rect<V: Copy>(&mut self, scene: &mut Scene<V>, vertices: &[V; 4], texture: usize)
        requires
            old(self).wf(),
            old(scene)@.wf(),
            old(scene)@.vertices.len() + 4 <= u32::MAX,
            old(scene)@.indices.len() + 6 <= u32::MAX,
        ensures
            final(self).wf(),
            final(self)@ == (CoreView { fragment: final(self)@.fragment, ..old(self)@ }),
            cache_key_post(
                old(self)@.fragment,
                final(self)@.fragment,
                final(self)@.fragment.states.len() - 1,
            ),
            final(scene)@ == old(scene)@.with_texture(texture).with_fragment_state(
                (final(self)@.fragment.states.len() - 1) as usize,
            ).with_quad(vertices@),
            final(scene)@.wf(),
    {
        scene.bind_texture(texture);
        let key = self.fragment.cache_key();
        scene.bind_fragment_state(key);
        scene.push_quad(vertices);
    }
}

/// The words that follow command `cmd`, as `extra_words` counts them.
fn extra_word_count(cmd: u64) -> (r: usize)
    ensures
        r == extra_words(cmd),
{
    let op = (cmd >> 56u64) & 0x3f;
    if 0x08 <= op && op <= 0x0f {
        let shade: usize = if op & 4 != 0 {
            8
        } else {
            0
        };
        let texture: usize = if op & 2 != 0 {
            8
        } else {
            0
        };
        let depth: usize = if op & 1 != 0 {
            2
        } else {
            0
        };
        3 + shade + texture + depth
    } else if op == 0x24 || op == 0x25 {
        1
    } else {
        0
    }
}

/// Runs the command at `commands[at]`. A state command updates `core`; a
/// primitive leaves it as it is and is handed back with the words that
/// follow it, for the renderer to draw with the state as it stands. Returns
/// the position of the next command.
#[verifier::rlimit(60)]
pub fn dispatch(core: &mut Core, rdram: &[u8], commands: &[u64], at: usize) -> (r: (
    usize,
    Option<Draw>,
))
    requires
        old(core).wf(),
        at < commands@.len(),
        at + 1 + extra_words(commands@[at as int]) <= commands@.len(),
        can_dispatch(old(core)@, rdram@, commands@[at as int]),
    ensures
        final(core).wf(),
        r.0 == at + 1 + extra_words(commands@[at as int]),
        dispatch_post(old(core)@, final(core)@, rdram@, commands@[at as int]),
        is_draw(commands@[at as int]) ==> r.1 is Some && r.1->0.cmd == commands@[at as int]
            && r.1->0.args@ == commands@.subrange(at + 1, r.0 as int),
        !is_draw(commands@[at as int]) ==> r.1 is None,
{
    let cmd = commands[at];
    let op = (cmd >> 56u64) & 0x3f;
    let next = at + 1 + extra_word_count(cmd);
    if (0x08 <= op && op <= 0x0f) || op == 0x24 || op == 0x25 || op == 0x36 {
        let mut args: Vec<u64> = Vec::new();
        let mut k = at + 1;
        while k < next
            invariant
                at + 1 <= k <= next,
                next <= commands@.len(),
                args@ == commands@.subrange(at + 1, k as int),
            decreases next - k,
        {
            args.push(commands[k]);
            k = k + 1;
        }
        return (next, Some(Draw { cmd, args }));
    }
    if op == 0x29 {
        core.interrupt = true;
    } else if op == 0x2d {
        command::set_scissor(&mut core.target, cmd);
    } else if op == 0x2e {
        core.prim_depth = cmd as u32 as u64;
    } else if op == 0x2f {
        let mode = command::set_other_modes(&mut core.fragment, cmd);
        core.mode = mode;
    } else if op == 0x32 {
        command::texture::set_tile_size(&mut core.tmem, cmd);
    } else if op == 0x33 {
        command::texture::load_block(&mut core.tmem, rdram, cmd);
    } else if op == 0x34 {
        command::texture::load_tile(&mut core.tmem, rdram, cmd);
    } else if op == 0x35 {
        command::texture::set_tile(&mut core.tmem, cmd);
    } else if op == 0x37 {
        command::set_fill_color(&mut core.target, cmd);
    } else if op == 0x38 {
        command::set_fog_color(&mut core.fragment, cmd);
    } else if op == 0x39 {
        command::set_blend_color(&mut core.fragment, cmd);
    } else if op == 0x3a {
        command::set_prim_color(&mut core.fragment, cmd);
    } else if op == 0x3b {
        command::set_env_color(&mut core.fragment, cmd);
    } else if op == 0x3c {
        command::set_combine_mode(&mut core.fragment, cmd);
    } else if op == 0x3d {
        command::texture::set_texture_image(&mut core.tmem, cmd);
    } else if op == 0x3f {
        command::set_color_image(&mut core.target, cmd);
    }
    (next, None)
}

} // verus!
