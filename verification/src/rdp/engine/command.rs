//! The RDP commands that set state: the combine and blend modes, the
//! constant colors, the scissor, the fill color and the color image.
//! Each decodes its 64-bit command word and updates the fragment control
//! or the render target.

use super::fragment::{CombineMode, CombinerInputs, CycleType, FragmentControl, FragmentControlView};
use super::target::{OutputFormat, Target, TargetView};
pub mod texture;

use vstd::prelude::*;

verus! {

/// The field of a command word from bit `low`, under `mask`.
pub open spec fn field(cmd: u64, low: u64, mask: u64) -> u64 {
    (cmd >> low) & mask
}

/// The combiner equations that a SET_COMBINE_MODE command encodes.
pub open spec fn combine_mode_of(cmd: u64) -> CombineMode {
    CombineMode {
        rgb0: CombinerInputs {
            sub_a: field(cmd, 52, 0xf) as u8,
            sub_b: field(cmd, 28, 0xf) as u8,
            mul: field(cmd, 47, 0x1f) as u8,
            add: field(cmd, 15, 0x7) as u8,
        },
        alpha0: CombinerInputs {
            sub_a: field(cmd, 44, 0x7) as u8,
            sub_b: field(cmd, 12, 0x7) as u8,
            mul: field(cmd, 41, 0x7) as u8,
            add: field(cmd, 9, 0x7) as u8,
        },
        rgb1: CombinerInputs {
            sub_a: field(cmd, 37, 0xf) as u8,
            sub_b: field(cmd, 24, 0xf) as u8,
            mul: field(cmd, 32, 0x1f) as u8,
            add: field(cmd, 6, 0x7) as u8,
        },
        alpha1: CombinerInputs {
            sub_a: field(cmd, 21, 0x7) as u8,
            sub_b: field(cmd, 3, 0x7) as u8,
            mul: field(cmd, 18, 0x7) as u8,
            add: field(cmd, 0, 0x7) as u8,
        },
    }
}

/// The cycle type that bits 52-53 of SET_OTHER_MODES select.
pub open spec fn cycle_type_of(cmd: u64) -> CycleType {
    let c = field(cmd, 52, 3);
    if c == 0 {
        CycleType::Cycle1
    } else if c == 1 {
        CycleType::Cycle2
    } else if c == 2 {
        CycleType::Copy
    } else {
        CycleType::Fill
    }
}

/// The color that a color command encodes, as red, green, blue, alpha.
pub open spec fn color_of(cmd: u64) -> Seq<u8> {
    seq![field(cmd, 24, 0xff) as u8, field(cmd, 16, 0xff) as u8, field(cmd, 8, 0xff) as u8, field(cmd, 0, 0xff) as u8]
}

/// The output format that a SET_COLOR_IMAGE command selects, if any.
pub open spec fn color_image_format(cmd: u64) -> Option<OutputFormat> {
    let format = field(cmd, 53, 0x7);
    let size = field(cmd, 51, 3);
    if format == 0 && size == 3 {
        Some(OutputFormat::Rgba32)
    } else if format == 0 && size == 2 {
        Some(OutputFormat::Rgba16)
    } else if format == 2 && size == 1 {
        Some(OutputFormat::Index8)
    } else {
        None
    }
}

/// The fragment control with new settings: the cached state is stale when
/// anything changed.
pub open spec fn fragment_with(o: FragmentControlView, s: super::fragment::FragmentSettings) -> FragmentControlView {
    FragmentControlView { settings: s, dirty: o.dirty || s != o.settings, states: o.states }
}

/// The settings after SET_COMBINE_MODE.
pub open spec fn combine_settings(s: super::fragment::FragmentSettings, cmd: u64) -> super::fragment::FragmentSettings {
    let mode = combine_mode_of(cmd);
    super::fragment::FragmentSettings {
        rgb0: super::fragment::rgb_inputs_spec(mode.rgb0),
        alpha0: super::fragment::alpha_inputs_spec(mode.alpha0),
        rgb1: super::fragment::rgb_inputs_spec(mode.rgb1),
        alpha1: super::fragment::alpha_inputs_spec(mode.alpha1),
        ..s
    }
}

/// The settings after SET_OTHER_MODES: the cycle type and the blend mode.
pub open spec fn other_modes_settings(s: super::fragment::FragmentSettings, cmd: u64) -> super::fragment::FragmentSettings {
    let blend_mode = (cmd >> 16u64) as u16;
    super::fragment::FragmentSettings {
        cycle_type: cycle_type_of(cmd),
        blend0: super::fragment::blender_inputs_spec(blend_mode),
        blend1: super::fragment::blender_inputs_spec(blend_mode >> 2u16),
        ..s
    }
}

/// Whether the depth of primitives comes from the primitive depth
/// register, and not from the vertices.
#[derive(Copy, Clone, Debug, PartialEq, Eq, Structural)]
pub struct Mode {
    pub use_prim_depth: bool,
}

pub(crate) proof fn lemma_fields(cmd: u64)
    by (bit_vector)
    ensures
        (cmd >> 53u64) & 7 <= 7,
        (cmd >> 51u64) & 3 <= 3,
        (cmd >> 52u64) & 3 <= 3,
        (cmd >> 32u64) & 0x3ff <= 0x3ff,
        (cmd >> 0u64) & 0x3ff_ffff <= 0x3ff_ffff,
        (cmd >> 32u64) & 0xfff <= 0xfff,
        (cmd >> 44u64) & 0xfff <= 0xfff,
        (cmd >> 12u64) & 0xfff <= 0xfff,
        (cmd >> 0u64) & 0xfff <= 0xfff,
        (cmd >> 24u64) & 7 <= 7,
        (cmd >> 32u64) & 0x1ff <= 0x1ff,
        (cmd >> 0u64) == cmd,
{
}

/// SET_COMBINE_MODE: the fragment stage takes the combiner equations.
pub fn set_combine_mode(fragment: &mut FragmentControl, cmd: u64)
    requires
        old(fragment).wf(),
    ensures
        final(fragment).wf(),
        ({
            let mode = combine_mode_of(cmd);
            let o = old(fragment)@;
            let settings = super::fragment::FragmentSettings {
                rgb0: super::fragment::rgb_inputs_spec(mode.rgb0),
                alpha0: super::fragment::alpha_inputs_spec(mode.alpha0),
                rgb1: super::fragment::rgb_inputs_spec(mode.rgb1),
                alpha1: super::fragment::alpha_inputs_spec(mode.alpha1),
                ..o.settings
            };
            final(fragment)@ == FragmentControlView {
                settings,
                dirty: o.dirty || settings.rgb0 != o.settings.rgb0 || settings.alpha0
                    != o.settings.alpha0 || settings.rgb1 != o.settings.rgb1 || settings.alpha1
                    != o.settings.alpha1,
                states: o.states,
            }
        }),
{
    proof {
        lemma_fields(cmd);
    }
    let mode = CombineMode {
        rgb0: CombinerInputs {
            sub_a: ((cmd >> 52u64) & 0xf) as u8,
            sub_b: ((cmd >> 28u64) & 0xf) as u8,
            mul: ((cmd >> 47u64) & 0x1f) as u8,
            add: ((cmd >> 15u64) & 0x7) as u8,
        },
        alpha0: CombinerInputs {
            sub_a: ((cmd >> 44u64) & 0x7) as u8,
            sub_b: ((cmd >> 12u64) & 0x7) as u8,
            mul: ((cmd >> 41u64) & 0x7) as u8,
            add: ((cmd >> 9u64) & 0x7) as u8,
        },
        rgb1: CombinerInputs {
            sub_a: ((cmd >> 37u64) & 0xf) as u8,
            sub_b: ((cmd >> 24u64) & 0xf) as u8,
            mul: ((cmd >> 32u64) & 0x1f) as u8,
            add: ((cmd >> 6u64) & 0x7) as u8,
        },
        alpha1: CombinerInputs {
            sub_a: ((cmd >> 21u64) & 0x7) as u8,
            sub_b: ((cmd >> 3u64) & 0x7) as u8,
            mul: ((cmd >> 18u64) & 0x7) as u8,
            add: ((cmd >> 0u64) & 0x7) as u8,
        },
    };
    assert(mode == combine_mode_of(cmd));
    fragment.set_combine_mode(mode);
}

/// SET_OTHER_MODES: the fragment stage takes the cycle type and the
/// blend mode (bits 16-31); returns where primitive depth comes from.
pub fn set_other_modes(fragment: &mut FragmentControl, cmd: u64) -> (r: Mode)
    requires
        old(fragment).wf(),
    ensures
        final(fragment).wf(),
        r.use_prim_depth == (field(cmd, 2, 1) == 1),
        ({
            let o = old(fragment)@;
            let cycle = FragmentControlView {
                settings: super::fragment::FragmentSettings {
                    cycle_type: cycle_type_of(cmd),
                    ..o.settings
                },
                dirty: o.dirty || cycle_type_of(cmd) != o.settings.cycle_type,
                states: o.states,
            };
            let blend_mode = (cmd >> 16u64) as u16;
            let blend0 = super::fragment::blender_inputs_spec(blend_mode);
            let blend1 = super::fragment::blender_inputs_spec(blend_mode >> 2u16);
            final(fragment)@ == FragmentControlView {
                settings: super::fragment::FragmentSettings {
                    blend0,
                    blend1,
                    ..cycle.settings
                },
                dirty: cycle.dirty || blend0 != cycle.settings.blend0 || blend1
                    != cycle.settings.blend1,
                states: cycle.states,
            }
        }),
{
    proof {
        lemma_fields(cmd);
    }
    let cycle_type = match (cmd >> 52u64) & 3 {
        0 => CycleType::Cycle1,
        1 => CycleType::Cycle2,
        2 => CycleType::Copy,
        _ => CycleType::Fill,
    };
    fragment.set_cycle_type(cycle_type);
    fragment.set_blend_mode((cmd >> 16u64) as u16);
    Mode { use_prim_depth: (cmd >> 2u64) & 1 == 1 }
}

fn color(cmd: u64) -> (r: [u8; 4])
    ensures
        r@ == color_of(cmd),
{
    proof {
        lemma_fields(cmd);
    }
    let r = [
        ((cmd >> 24u64) & 0xff) as u8,
        ((cmd >> 16u64) & 0xff) as u8,
        ((cmd >> 8u64) & 0xff) as u8,
        ((cmd >> 0u64) & 0xff) as u8,
    ];
    assert(r@ =~= color_of(cmd));
    r
}

/// SET_BLEND_COLOR.
pub fn set_blend_color(fragment: &mut FragmentControl, cmd: u64)
    requires
        old(fragment).wf(),
    ensures
        final(fragment).wf(),
        final(fragment)@ == (FragmentControlView {
            settings: super::fragment::FragmentSettings {
                blend_color: color_of(cmd),
                ..old(fragment)@.settings
            },
            dirty: old(fragment)@.dirty || color_of(cmd) != old(fragment)@.settings.blend_color,
            states: old(fragment)@.states,
        }),
{
    fragment.set_blend_color(color(cmd));
}

/// SET_FOG_COLOR.
pub fn set_fog_color(fragment: &mut FragmentControl, cmd: u64)
    requires
        old(fragment).wf(),
    ensures
        final(fragment).wf(),
        final(fragment)@ == (FragmentControlView {
            settings: super::fragment::FragmentSettings {
                fog_color: color_of(cmd),
                ..old(fragment)@.settings
            },
            dirty: old(fragment)@.dirty || color_of(cmd) != old(fragment)@.settings.fog_color,
            states: old(fragment)@.states,
        }),
{
    fragment.set_fog_color(color(cmd));
}

/// SET_PRIM_COLOR.
pub fn set_prim_color(fragment: &mut FragmentControl, cmd: u64)
    requires
        old(fragment).wf(),
    ensures
        final(fragment).wf(),
        final(fragment)@ == (FragmentControlView {
            settings: super::fragment::FragmentSettings {
                prim_color: color_of(cmd),
                ..old(fragment)@.settings
            },
            dirty: old(fragment)@.dirty || color_of(cmd) != old(fragment)@.settings.prim_color,
            states: old(fragment)@.states,
        }),
{
    fragment.set_prim_color(color(cmd));
}

/// SET_ENV_COLOR.
pub fn set_env_color(fragment: &mut FragmentControl, cmd: u64)
    requires
        old(fragment).wf(),
    ensures
        final(fragment).wf(),
        final(fragment)@ == (FragmentControlView {
            settings: super::fragment::FragmentSettings {
                env_color: color_of(cmd),
                ..old(fragment)@.settings
            },
            dirty: old(fragment)@.dirty || color_of(cmd) != old(fragment)@.settings.env_color,
            states: old(fragment)@.states,
        }),
{
    fragment.set_env_color(color(cmd));
}

/// SET_FILL_COLOR: the low 32 bits.
pub fn set_fill_color(target: &mut Target, cmd: u64)
    ensures
        final(target)@ == (TargetView { fill_color: cmd as u32, ..old(target)@ }),
{
    target.set_fill_color(cmd as u32);
}

/// SET_SCISSOR: the rectangle from (xh, yh) to (xl, yl), in quarter
/// pixels, sizes the rendered image.
pub fn set_scissor(target: &mut Target, cmd: u64)
    ensures
        final(target)@ == (TargetView {
            texture_width: super::target::span(field(cmd, 44, 0xfff) as u32, field(cmd, 12, 0xfff) as u32),
            texture_height: super::target::span(field(cmd, 32, 0xfff) as u32, field(cmd, 0, 0xfff) as u32),
            ..old(target)@
        }),
{
    proof {
        lemma_fields(cmd);
    }
    let yl = ((cmd >> 0u64) & 0xfff) as u32;
    let xl = ((cmd >> 12u64) & 0xfff) as u32;
    let yh = ((cmd >> 32u64) & 0xfff) as u32;
    let xh = ((cmd >> 44u64) & 0xfff) as u32;
    target.set_scissor(xh, yh, xl, yl);
}

/// Whether a SET_COLOR_IMAGE command names a format that the target
/// supports: 32- or 16-bit RGBA (layout 0), or 8-bit color index
/// (layout 2).
pub fn is_color_image_supported(cmd: u64) -> (r: bool)
    ensures
        r == (color_image_format(cmd) is Some),
{
    proof {
        lemma_fields(cmd);
    }
    let format = (cmd >> 53u64) & 7;
    let size = (cmd >> 51u64) & 3;
    (format == 0 && (size == 3 || size == 2)) || (format == 2 && size == 1)
}

/// SET_COLOR_IMAGE: the color image's RDRAM address (bits 0-25), its
/// width (bits 32-41, plus one) and its format.
pub fn set_color_image(target: &mut Target, cmd: u64)
    requires
        color_image_format(cmd) is Some,
    ensures
        final(target)@ == (TargetView {
            sync_dram_addr: field(cmd, 0, 0x3ff_ffff) as u32,
            sync_width: (field(cmd, 32, 0x3ff) + 1) as u32,
            output_format: color_image_format(cmd)->0,
            ..old(target)@
        }),
{
    proof {
        lemma_fields(cmd);
    }
    let layout = (cmd >> 53u64) & 7;
    let size = (cmd >> 51u64) & 3;
    let format = if layout == 0 && size == 3 {
        OutputFormat::Rgba32
    } else if layout == 0 && size == 2 {
        OutputFormat::Rgba16
    } else {
        OutputFormat::Index8
    };
    let dram_addr = ((cmd >> 0u64) & 0x3ff_ffff) as u32;
    let width = ((cmd >> 32u64) & 0x3ff) as u32 + 1;
    target.set_color_image(dram_addr, width, format);
}

} // verus!
