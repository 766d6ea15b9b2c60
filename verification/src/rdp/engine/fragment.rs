//! The color combiner and blender settings that the fragment stage uses,
//! and the cache of their combinations: each distinct combination that is
//! drawn with gets one entry, which the renderer uploads once and refers
//! to by its key.

use vstd::prelude::*;

verus! {

/// The four inputs of one combiner equation, `(sub_a - sub_b) * mul +
/// add`.
#[derive(Copy, Clone, Debug, PartialEq, Eq, Structural)]
pub struct CombinerInputs<T> {
    pub sub_a: T,
    pub sub_b: T,
    pub mul: T,
    pub add: T,
}

/// The combiner equations of both cycles, as the SET_COMBINE_MODE
/// command encodes them.
#[derive(Copy, Clone, Debug, PartialEq, Eq, Structural)]
pub struct CombineMode {
    pub rgb0: CombinerInputs<u8>,
    pub alpha0: CombinerInputs<u8>,
    pub rgb1: CombinerInputs<u8>,
    pub alpha1: CombinerInputs<u8>,
}

#[derive(Copy, Clone, Debug, PartialEq, Eq, Structural)]
pub enum CycleType {
    Cycle1,
    Cycle2,
    Copy,
    Fill,
}

#[derive(Copy, Clone, Debug, PartialEq, Eq, Structural)]
pub enum RgbInput {
    PrevColor,
    Texel0Color,
    Texel1Color,
    PrimColor,
    ShadeColor,
    EnvColor,
    KeyCenter,
    KeyScale,
    PrevAlpha,
    Texel0Alpha,
    Texel1Alpha,
    PrimAlpha,
    ShadeAlpha,
    EnvAlpha,
    LodFraction,
    PrimLodFraction,
    Noise,
    ConvertK4,
    ConvertK5,
    Constant1,
    Constant0,
}

#[derive(Copy, Clone, Debug, PartialEq, Eq, Structural)]
pub enum AlphaInput {
    PrevAlpha,
    Texel0Alpha,
    Texel1Alpha,
    PrimAlpha,
    ShadeAlpha,
    EnvAlpha,
    LodFraction,
    PrimLodFraction,
    Constant1,
    Constant0,
}

#[derive(Copy, Clone, Debug, PartialEq, Eq, Structural)]
pub enum BlenderPmInput {
    PrevColor,
    MemoryColor,
    BlendColor,
    FogColor,
}

#[derive(Copy, Clone, Debug, PartialEq, Eq, Structural)]
pub enum BlenderAInput {
    PrevAlpha,
    FogAlpha,
    ShadeAlpha,
    Constant0,
}

#[derive(Copy, Clone, Debug, PartialEq, Eq, Structural)]
pub enum BlenderBInput {
    InvAlpha,
    MemoryAlpha,
    Constant1,
    Constant0,
}

/// The inputs of one blender equation, `(a * p + b * m) / (a + b)`.
#[derive(Copy, Clone, Debug, PartialEq, Eq, Structural)]
pub struct BlenderInputs {
    pub p: BlenderPmInput,
    pub m: BlenderPmInput,
    pub a: BlenderAInput,
    pub b: BlenderBInput,
}

/// An RGBA color, one byte per channel.
pub type Color = [u8; 4];

/// One combination of settings, as the shader reads it: each input by
/// its number, the colors, and the cycle type by its number.
#[derive(Copy, Clone, Debug)]
pub struct FragmentState {
    pub rgb0: [i32; 4],
    pub alpha0: [i32; 4],
    pub rgb1: [i32; 4],
    pub alpha1: [i32; 4],
    pub blend0: [i32; 4],
    pub blend1: [i32; 4],
    pub prim_color: Color,
    pub env_color: Color,
    pub blend_color: Color,
    pub fog_color: Color,
    pub cycle_type: i32,
}

/// The abstract value of a `FragmentState`.
pub struct FragmentStateView {
    pub rgb0: Seq<i32>,
    pub alpha0: Seq<i32>,
    pub rgb1: Seq<i32>,
    pub alpha1: Seq<i32>,
    pub blend0: Seq<i32>,
    pub blend1: Seq<i32>,
    pub prim_color: Seq<u8>,
    pub env_color: Seq<u8>,
    pub blend_color: Seq<u8>,
    pub fog_color: Seq<u8>,
    pub cycle_type: i32,
}

impl View for FragmentState {
    type V = FragmentStateView;

    open spec fn view(&self) -> FragmentStateView {
        FragmentStateView {
            rgb0: self.rgb0@,
            alpha0: self.alpha0@,
            rgb1: self.rgb1@,
            alpha1: self.alpha1@,
            blend0: self.blend0@,
            blend1: self.blend1@,
            prim_color: self.prim_color@,
            env_color: self.env_color@,
            blend_color: self.blend_color@,
            fog_color: self.fog_color@,
            cycle_type: self.cycle_type,
        }
    }
}

/// The RGB input that a combiner field selects, by its position.
pub open spec fn rgb_sub_a(v: u8) -> RgbInput {
    if v == 0 {
        RgbInput::PrevColor
    } else if v == 1 {
        RgbInput::Texel0Color
    } else if v == 2 {
        RgbInput::Texel1Color
    } else if v == 3 {
        RgbInput::PrimColor
    } else if v == 4 {
        RgbInput::ShadeColor
    } else if v == 5 {
        RgbInput::EnvColor
    } else if v == 6 {
        RgbInput::Constant1
    } else if v == 7 {
        RgbInput::Noise
    } else {
        RgbInput::Constant0
    }
}

pub open spec fn rgb_sub_b(v: u8) -> RgbInput {
    if v <= 5 {
        rgb_sub_a(v)
    } else if v == 6 {
        RgbInput::KeyCenter
    } else if v == 7 {
        RgbInput::ConvertK4
    } else {
        RgbInput::Constant0
    }
}

pub open spec fn rgb_mul(v: u8) -> RgbInput {
    if v <= 5 {
        rgb_sub_a(v)
    } else if v == 6 {
        RgbInput::KeyScale
    } else if v == 7 {
        RgbInput::PrevAlpha
    } else if v == 8 {
        RgbInput::Texel0Alpha
    } else if v == 9 {
        RgbInput::Texel1Alpha
    } else if v == 10 {
        RgbInput::PrimAlpha
    } else if v == 11 {
        RgbInput::ShadeAlpha
    } else if v == 12 {
        RgbInput::EnvAlpha
    } else if v == 13 {
        RgbInput::LodFraction
    } else if v == 14 {
        RgbInput::PrimLodFraction
    } else if v == 15 {
        RgbInput::ConvertK5
    } else {
        RgbInput::Constant0
    }
}

pub open spec fn rgb_add(v: u8) -> RgbInput {
    if v <= 6 {
        rgb_sub_a(v)
    } else {
        RgbInput::Constant0
    }
}

/// The alpha input that the sub and add fields select.
pub open spec fn alpha_sub_add(v: u8) -> AlphaInput {
    if v == 0 {
        AlphaInput::PrevAlpha
    } else if v == 1 {
        AlphaInput::Texel0Alpha
    } else if v == 2 {
        AlphaInput::Texel1Alpha
    } else if v == 3 {
        AlphaInput::PrimAlpha
    } else if v == 4 {
        AlphaInput::ShadeAlpha
    } else if v == 5 {
        AlphaInput::EnvAlpha
    } else if v == 6 {
        AlphaInput::Constant1
    } else {
        AlphaInput::Constant0
    }
}

/// The alpha input that the multiplier field selects.
pub open spec fn alpha_mul(v: u8) -> AlphaInput {
    if v == 0 {
        AlphaInput::LodFraction
    } else if v == 6 {
        AlphaInput::PrimLodFraction
    } else if v == 7 || v > 7 {
        AlphaInput::Constant0
    } else {
        alpha_sub_add(v)
    }
}

pub open spec fn rgb_inputs_spec(value: CombinerInputs<u8>) -> CombinerInputs<RgbInput> {
    CombinerInputs {
        sub_a: rgb_sub_a(value.sub_a),
        sub_b: rgb_sub_b(value.sub_b),
        mul: rgb_mul(value.mul),
        add: rgb_add(value.add),
    }
}

pub open spec fn alpha_inputs_spec(value: CombinerInputs<u8>) -> CombinerInputs<AlphaInput> {
    CombinerInputs {
        sub_a: alpha_sub_add(value.sub_a),
        sub_b: alpha_sub_add(value.sub_b),
        mul: alpha_mul(value.mul),
        add: alpha_sub_add(value.add),
    }
}

pub open spec fn pm_input(v: u16) -> BlenderPmInput {
    if v == 0 {
        BlenderPmInput::PrevColor
    } else if v == 1 {
        BlenderPmInput::MemoryColor
    } else if v == 2 {
        BlenderPmInput::BlendColor
    } else {
        BlenderPmInput::FogColor
    }
}

/// The blender inputs that a 16-bit blend mode selects for one cycle:
/// `p` from bits 12-13, `a` from bits 8-9, `m` from bits 4-5 and `b` from
/// bits 2-3.
pub open spec fn blender_inputs_spec(value: u16) -> BlenderInputs {
    let a = (value >> 8u16) & 3;
    let b = (value >> 2u16) & 3;
    BlenderInputs {
        p: pm_input((value >> 12u16) & 3),
        m: pm_input((value >> 4u16) & 3),
        a: if a == 0 {
            BlenderAInput::PrevAlpha
        } else if a == 1 {
            BlenderAInput::FogAlpha
        } else if a == 2 {
            BlenderAInput::ShadeAlpha
        } else {
            BlenderAInput::Constant0
        },
        b: if b == 0 {
            BlenderBInput::InvAlpha
        } else if b == 1 {
            BlenderBInput::MemoryAlpha
        } else if b == 2 {
            BlenderBInput::Constant1
        } else {
            BlenderBInput::Constant0
        },
    }
}

fn rgb_sub_a_exec(v: u8) -> (r: RgbInput)
    ensures
        r == rgb_sub_a(v),
{
    match v {
        0 => RgbInput::PrevColor,
        1 => RgbInput::Texel0Color,
        2 => RgbInput::Texel1Color,
        3 => RgbInput::PrimColor,
        4 => RgbInput::ShadeColor,
        5 => RgbInput::EnvColor,
        6 => RgbInput::Constant1,
        7 => RgbInput::Noise,
        _ => RgbInput::Constant0,
    }
}

fn alpha_sub_add_exec(v: u8) -> (r: AlphaInput)
    ensures
        r == alpha_sub_add(v),
{
    match v {
        0 => AlphaInput::PrevAlpha,
        1 => AlphaInput::Texel0Alpha,
        2 => AlphaInput::Texel1Alpha,
        3 => AlphaInput::PrimAlpha,
        4 => AlphaInput::ShadeAlpha,
        5 => AlphaInput::EnvAlpha,
        6 => AlphaInput::Constant1,
        _ => AlphaInput::Constant0,
    }
}

impl From<CombinerInputs<u8>> for CombinerInputs<RgbInput> {
    fn from(value: CombinerInputs<u8>) -> (r: Self) {
        let sub_b = match value.sub_b {
            0..=5 => rgb_sub_a_exec(value.sub_b),
            6 => RgbInput::KeyCenter,
            7 => RgbInput::ConvertK4,
            _ => RgbInput::Constant0,
        };
        let mul = match value.mul {
            0..=5 => rgb_sub_a_exec(value.mul),
            6 => RgbInput::KeyScale,
            7 => RgbInput::PrevAlpha,
            8 => RgbInput::Texel0Alpha,
            9 => RgbInput::Texel1Alpha,
            10 => RgbInput::PrimAlpha,
            11 => RgbInput::ShadeAlpha,
            12 => RgbInput::EnvAlpha,
            13 => RgbInput::LodFraction,
            14 => RgbInput::PrimLodFraction,
            15 => RgbInput::ConvertK5,
            _ => RgbInput::Constant0,
        };
        let add = match value.add {
            0..=6 => rgb_sub_a_exec(value.add),
            _ => RgbInput::Constant0,
        };
        CombinerInputs { sub_a: rgb_sub_a_exec(value.sub_a), sub_b, mul, add }
    }
}

impl vstd::std_specs::convert::FromSpecImpl<CombinerInputs<u8>> for CombinerInputs<RgbInput> {
    open spec fn obeys_from_spec() -> bool {
        true
    }

    open spec fn from_spec(v: CombinerInputs<u8>) -> CombinerInputs<RgbInput> {
        rgb_inputs_spec(v)
    }
}

impl From<CombinerInputs<u8>> for CombinerInputs<AlphaInput> {
    fn from(value: CombinerInputs<u8>) -> (r: Self) {
        let mul = match value.mul {
            0 => AlphaInput::LodFraction,
            1..=5 => alpha_sub_add_exec(value.mul),
            6 => AlphaInput::PrimLodFraction,
            _ => AlphaInput::Constant0,
        };
        CombinerInputs {
            sub_a: alpha_sub_add_exec(value.sub_a),
            sub_b: alpha_sub_add_exec(value.sub_b),
            mul,
            add: alpha_sub_add_exec(value.add),
        }
    }
}

impl vstd::std_specs::convert::FromSpecImpl<CombinerInputs<u8>> for CombinerInputs<AlphaInput> {
    open spec fn obeys_from_spec() -> bool {
        true
    }

    open spec fn from_spec(v: CombinerInputs<u8>) -> CombinerInputs<AlphaInput> {
        alpha_inputs_spec(v)
    }
}

fn pm_input_exec(v: u16) -> (r: BlenderPmInput)
    ensures
        r == pm_input(v),
{
    match v {
        0 => BlenderPmInput::PrevColor,
        1 => BlenderPmInput::MemoryColor,
        2 => BlenderPmInput::BlendColor,
        _ => BlenderPmInput::FogColor,
    }
}

impl From<u16> for BlenderInputs {
    fn from(value: u16) -> (r: Self) {
        BlenderInputs {
            p: pm_input_exec((value >> 12u16) & 3),
            m: pm_input_exec((value >> 4u16) & 3),
            a: match (value >> 8u16) & 3 {
                0 => BlenderAInput::PrevAlpha,
                1 => BlenderAInput::FogAlpha,
                2 => BlenderAInput::ShadeAlpha,
                _ => BlenderAInput::Constant0,
            },
            b: match (value >> 2u16) & 3 {
                0 => BlenderBInput::InvAlpha,
                1 => BlenderBInput::MemoryAlpha,
                2 => BlenderBInput::Constant1,
                _ => BlenderBInput::Constant0,
            },
        }
    }
}

impl vstd::std_specs::convert::FromSpecImpl<u16> for BlenderInputs {
    open spec fn obeys_from_spec() -> bool {
        true
    }

    open spec fn from_spec(v: u16) -> BlenderInputs {
        blender_inputs_spec(v)
    }
}

pub open spec fn rgb_code(x: RgbInput) -> i32 {
    match x {
        RgbInput::PrevColor => 0,
        RgbInput::Texel0Color => 1,
        RgbInput::Texel1Color => 2,
        RgbInput::PrimColor => 3,
        RgbInput::ShadeColor => 4,
        RgbInput::EnvColor => 5,
        RgbInput::KeyCenter => 6,
        RgbInput::KeyScale => 7,
        RgbInput::PrevAlpha => 8,
        RgbInput::Texel0Alpha => 9,
        RgbInput::Texel1Alpha => 10,
        RgbInput::PrimAlpha => 11,
        RgbInput::ShadeAlpha => 12,
        RgbInput::EnvAlpha => 13,
        RgbInput::LodFraction => 14,
        RgbInput::PrimLodFraction => 15,
        RgbInput::Noise => 16,
        RgbInput::ConvertK4 => 17,
        RgbInput::ConvertK5 => 18,
        RgbInput::Constant1 => 19,
        RgbInput::Constant0 => 20,
    }
}

pub open spec fn alpha_code(x: AlphaInput) -> i32 {
    match x {
        AlphaInput::PrevAlpha => 0,
        AlphaInput::Texel0Alpha => 1,
        AlphaInput::Texel1Alpha => 2,
        AlphaInput::PrimAlpha => 3,
        AlphaInput::ShadeAlpha => 4,
        AlphaInput::EnvAlpha => 5,
        AlphaInput::LodFraction => 6,
        AlphaInput::PrimLodFraction => 7,
        AlphaInput::Constant1 => 8,
        AlphaInput::Constant0 => 9,
    }
}

pub open spec fn pm_code(x: BlenderPmInput) -> i32 {
    match x {
        BlenderPmInput::PrevColor => 0,
        BlenderPmInput::MemoryColor => 1,
        BlenderPmInput::BlendColor => 2,
        BlenderPmInput::FogColor => 3,
    }
}

pub open spec fn a_code(x: BlenderAInput) -> i32 {
    match x {
        BlenderAInput::PrevAlpha => 0,
        BlenderAInput::FogAlpha => 1,
        BlenderAInput::ShadeAlpha => 2,
        BlenderAInput::Constant0 => 3,
    }
}

pub open spec fn b_code(x: BlenderBInput) -> i32 {
    match x {
        BlenderBInput::InvAlpha => 0,
        BlenderBInput::MemoryAlpha => 1,
        BlenderBInput::Constant1 => 2,
        BlenderBInput::Constant0 => 3,
    }
}

pub open spec fn cycle_code(x: CycleType) -> i32 {
    match x {
        CycleType::Cycle1 => 0,
        CycleType::Cycle2 => 1,
        CycleType::Copy => 2,
        CycleType::Fill => 3,
    }
}

/// The settings of the fragment stage.
pub struct FragmentSettings {
    pub rgb0: CombinerInputs<RgbInput>,
    pub alpha0: CombinerInputs<AlphaInput>,
    pub rgb1: CombinerInputs<RgbInput>,
    pub alpha1: CombinerInputs<AlphaInput>,
    pub blend0: BlenderInputs,
    pub blend1: BlenderInputs,
    pub prim_color: Seq<u8>,
    pub env_color: Seq<u8>,
    pub blend_color: Seq<u8>,
    pub fog_color: Seq<u8>,
    pub cycle_type: CycleType,
}

/// The cache entry that describes the settings.
pub open spec fn settings_state(s: FragmentSettings) -> FragmentStateView {
    FragmentStateView {
        rgb0: seq![rgb_code(s.rgb0.sub_a), rgb_code(s.rgb0.sub_b), rgb_code(s.rgb0.mul), rgb_code(s.rgb0.add)],
        alpha0: seq![
            alpha_code(s.alpha0.sub_a),
            alpha_code(s.alpha0.sub_b),
            alpha_code(s.alpha0.mul),
            alpha_code(s.alpha0.add),
        ],
        rgb1: seq![rgb_code(s.rgb1.sub_a), rgb_code(s.rgb1.sub_b), rgb_code(s.rgb1.mul), rgb_code(s.rgb1.add)],
        alpha1: seq![
            alpha_code(s.alpha1.sub_a),
            alpha_code(s.alpha1.sub_b),
            alpha_code(s.alpha1.mul),
            alpha_code(s.alpha1.add),
        ],
        blend0: seq![pm_code(s.blend0.p), pm_code(s.blend0.m), a_code(s.blend0.a), b_code(s.blend0.b)],
        blend1: seq![pm_code(s.blend1.p), pm_code(s.blend1.m), a_code(s.blend1.a), b_code(s.blend1.b)],
        prim_color: s.prim_color,
        env_color: s.env_color,
        blend_color: s.blend_color,
        fog_color: s.fog_color,
        cycle_type: cycle_code(s.cycle_type),
    }
}

/// The abstract state of the fragment control: the settings, whether they
/// changed since the last cache entry was made, and the entries.
pub struct FragmentControlView {
    pub settings: FragmentSettings,
    pub dirty: bool,
    pub states: Seq<FragmentStateView>,
}

/// The default settings: every input its first choice, black colors and
/// one-cycle mode.
pub open spec fn default_settings() -> FragmentSettings {
    FragmentSettings {
        rgb0: CombinerInputs {
            sub_a: RgbInput::PrevColor,
            sub_b: RgbInput::PrevColor,
            mul: RgbInput::PrevColor,
            add: RgbInput::PrevColor,
        },
        alpha0: CombinerInputs {
            sub_a: AlphaInput::PrevAlpha,
            sub_b: AlphaInput::PrevAlpha,
            mul: AlphaInput::PrevAlpha,
            add: AlphaInput::PrevAlpha,
        },
        rgb1: CombinerInputs {
            sub_a: RgbInput::PrevColor,
            sub_b: RgbInput::PrevColor,
            mul: RgbInput::PrevColor,
            add: RgbInput::PrevColor,
        },
        alpha1: CombinerInputs {
            sub_a: AlphaInput::PrevAlpha,
            sub_b: AlphaInput::PrevAlpha,
            mul: AlphaInput::PrevAlpha,
            add: AlphaInput::PrevAlpha,
        },
        blend0: BlenderInputs {
            p: BlenderPmInput::PrevColor,
            m: BlenderPmInput::PrevColor,
            a: BlenderAInput::PrevAlpha,
            b: BlenderBInput::InvAlpha,
        },
        blend1: BlenderInputs {
            p: BlenderPmInput::PrevColor,
            m: BlenderPmInput::PrevColor,
            a: BlenderAInput::PrevAlpha,
            b: BlenderBInput::InvAlpha,
        },
        prim_color: seq![0u8, 0, 0, 0],
        env_color: seq![0u8, 0, 0, 0],
        blend_color: seq![0u8, 0, 0, 0],
        fog_color: seq![0u8, 0, 0, 0],
        cycle_type: CycleType::Cycle1,
    }
}

/// `new` is `old` after `cache_key` returned `key`: a new entry for the
/// settings when they changed, and the key of the last entry.
pub open spec fn cache_key_post(old: FragmentControlView, new: FragmentControlView, key: int) -> bool {
    &&& new.settings == old.settings
    &&& !new.dirty
    &&& new.states == if old.dirty {
        old.states.push(settings_state(old.settings))
    } else {
        old.states
    }
    &&& key == new.states.len() - 1
    &&& new.states[key] == settings_state(new.settings)
}

fn rgb_code_exec(x: RgbInput) -> (r: i32)
    ensures
        r == rgb_code(x),
{
    match x {
        RgbInput::PrevColor => 0,
        RgbInput::Texel0Color => 1,
        RgbInput::Texel1Color => 2,
        RgbInput::PrimColor => 3,
        RgbInput::ShadeColor => 4,
        RgbInput::EnvColor => 5,
        RgbInput::KeyCenter => 6,
        RgbInput::KeyScale => 7,
        RgbInput::PrevAlpha => 8,
        RgbInput::Texel0Alpha => 9,
        RgbInput::Texel1Alpha => 10,
        RgbInput::PrimAlpha => 11,
        RgbInput::ShadeAlpha => 12,
        RgbInput::EnvAlpha => 13,
        RgbInput::LodFraction => 14,
        RgbInput::PrimLodFraction => 15,
        RgbInput::Noise => 16,
        RgbInput::ConvertK4 => 17,
        RgbInput::ConvertK5 => 18,
        RgbInput::Constant1 => 19,
        RgbInput::Constant0 => 20,
    }
}

fn alpha_code_exec(x: AlphaInput) -> (r: i32)
    ensures
        r == alpha_code(x),
{
    match x {
        AlphaInput::PrevAlpha => 0,
        AlphaInput::Texel0Alpha => 1,
        AlphaInput::Texel1Alpha => 2,
        AlphaInput::PrimAlpha => 3,
        AlphaInput::ShadeAlpha => 4,
        AlphaInput::EnvAlpha => 5,
        AlphaInput::LodFraction => 6,
        AlphaInput::PrimLodFraction => 7,
        AlphaInput::Constant1 => 8,
        AlphaInput::Constant0 => 9,
    }
}

fn blend_codes(x: BlenderInputs) -> (r: [i32; 4])
    ensures
        r@ == seq![pm_code(x.p), pm_code(x.m), a_code(x.a), b_code(x.b)],
{
    let p = match x.p {
        BlenderPmInput::PrevColor => 0,
        BlenderPmInput::MemoryColor => 1,
        BlenderPmInput::BlendColor => 2,
        BlenderPmInput::FogColor => 3,
    };
    let m = match x.m {
        BlenderPmInput::PrevColor => 0,
        BlenderPmInput::MemoryColor => 1,
        BlenderPmInput::BlendColor => 2,
        BlenderPmInput::FogColor => 3,
    };
    let a = match x.a {
        BlenderAInput::PrevAlpha => 0,
        BlenderAInput::FogAlpha => 1,
        BlenderAInput::ShadeAlpha => 2,
        BlenderAInput::Constant0 => 3,
    };
    let b = match x.b {
        BlenderBInput::InvAlpha => 0,
        BlenderBInput::MemoryAlpha => 1,
        BlenderBInput::Constant1 => 2,
        BlenderBInput::Constant0 => 3,
    };
    let r = [p, m, a, b];
    assert(r@ =~= seq![pm_code(x.p), pm_code(x.m), a_code(x.a), b_code(x.b)]);
    r
}

fn rgb_codes(x: CombinerInputs<RgbInput>) -> (r: [i32; 4])
    ensures
        r@ == seq![rgb_code(x.sub_a), rgb_code(x.sub_b), rgb_code(x.mul), rgb_code(x.add)],
{
    let r = [rgb_code_exec(x.sub_a), rgb_code_exec(x.sub_b), rgb_code_exec(x.mul), rgb_code_exec(x.add)];
    assert(r@ =~= seq![rgb_code(x.sub_a), rgb_code(x.sub_b), rgb_code(x.mul), rgb_code(x.add)]);
    r
}

fn alpha_codes(x: CombinerInputs<AlphaInput>) -> (r: [i32; 4])
    ensures
        r@ == seq![alpha_code(x.sub_a), alpha_code(x.sub_b), alpha_code(x.mul), alpha_code(x.add)],
{
    let r = [
        alpha_code_exec(x.sub_a),
        alpha_code_exec(x.sub_b),
        alpha_code_exec(x.mul),
        alpha_code_exec(x.add),
    ];
    assert(r@ =~= seq![alpha_code(x.sub_a), alpha_code(x.sub_b), alpha_code(x.mul), alpha_code(x.add)]);
    r
}

fn same_color(a: Color, b: Color) -> (r: bool)
    ensures
        r == (a@ == b@),
{
    let r = a[0] == b[0] && a[1] == b[1] && a[2] == b[2] && a[3] == b[3];
    if r {
        assert(a@ =~= b@);
    }
    r
}

/// The fragment stage's settings and the cache of their combinations.
pub struct FragmentControl {
    rgb0: CombinerInputs<RgbInput>,
    alpha0: CombinerInputs<AlphaInput>,
    rgb1: CombinerInputs<RgbInput>,
    alpha1: CombinerInputs<AlphaInput>,
    blend0: BlenderInputs,
    blend1: BlenderInputs,
    prim_color: Color,
    env_color: Color,
    blend_color: Color,
    fog_color: Color,
    cycle_type: CycleType,
    dirty: bool,
    states: Vec<FragmentState>,
}

impl View for FragmentControl {
    type V = FragmentControlView;

    closed spec fn view(&self) -> FragmentControlView {
        FragmentControlView {
            settings: FragmentSettings {
                rgb0: self.rgb0,
                alpha0: self.alpha0,
                rgb1: self.rgb1,
                alpha1: self.alpha1,
                blend0: self.blend0,
                blend1: self.blend1,
                prim_color: self.prim_color@,
                env_color: self.env_color@,
                blend_color: self.blend_color@,
                fog_color: self.fog_color@,
                cycle_type: self.cycle_type,
            },
            dirty: self.dirty,
            states: self.states@.map_values(|s: FragmentState| s@),
        }
    }
}

impl FragmentControl {
    /// Unless the settings changed since, the last entry describes them.
    pub closed spec fn wf(&self) -> bool {
        !self.dirty ==> self.states@.len() > 0 && self@.states.last() == settings_state(
            self@.settings,
        )
    }

    pub fn new() -> (r: Self)
        ensures
            r.wf(),
            r@.settings == default_settings(),
            r@.dirty,
            r@.states == Seq::<FragmentStateView>::empty(),
    {
        let default_rgb = CombinerInputs {
            sub_a: RgbInput::PrevColor,
            sub_b: RgbInput::PrevColor,
            mul: RgbInput::PrevColor,
            add: RgbInput::PrevColor,
        };
        let default_alpha = CombinerInputs {
            sub_a: AlphaInput::PrevAlpha,
            sub_b: AlphaInput::PrevAlpha,
            mul: AlphaInput::PrevAlpha,
            add: AlphaInput::PrevAlpha,
        };
        let default_blend = BlenderInputs {
            p: BlenderPmInput::PrevColor,
            m: BlenderPmInput::PrevColor,
            a: BlenderAInput::PrevAlpha,
            b: BlenderBInput::InvAlpha,
        };
        let r = FragmentControl {
            rgb0: default_rgb,
            alpha0: default_alpha,
            rgb1: default_rgb,
            alpha1: default_alpha,
            blend0: default_blend,
            blend1: default_blend,
            prim_color: [0u8; 4],
            env_color: [0u8; 4],
            blend_color: [0u8; 4],
            fog_color: [0u8; 4],
            cycle_type: CycleType::Cycle1,
            dirty: true,
            states: Vec::new(),
        };
        assert(r@.settings.prim_color =~= seq![0u8, 0, 0, 0]);
        assert(r@.settings.env_color =~= seq![0u8, 0, 0, 0]);
        assert(r@.settings.blend_color =~= seq![0u8, 0, 0, 0]);
        assert(r@.settings.fog_color =~= seq![0u8, 0, 0, 0]);
        assert(r@.states =~= Seq::<FragmentStateView>::empty());
        r
    }

    /// Takes the combiner equations of both cycles.
    pub fn set_combine_mode(&mut self, mode: CombineMode)
        requires
            old(self).wf(),
        ensures
            final(self).wf(),
            ({
                let o = old(self)@;
                let settings = FragmentSettings {
                    rgb0: rgb_inputs_spec(mode.rgb0),
                    alpha0: alpha_inputs_spec(mode.alpha0),
                    rgb1: rgb_inputs_spec(mode.rgb1),
                    alpha1: alpha_inputs_spec(mode.alpha1),
                    ..o.settings
                };
                final(self)@ == FragmentControlView {
                    settings,
                    dirty: o.dirty || settings.rgb0 != o.settings.rgb0 || settings.alpha0
                        != o.settings.alpha0 || settings.rgb1 != o.settings.rgb1 || settings.alpha1
                        != o.settings.alpha1,
                    states: o.states,
                }
            }),
    {
        let rgb0: CombinerInputs<RgbInput> = CombinerInputs::from(mode.rgb0);
        let alpha0: CombinerInputs<AlphaInput> = CombinerInputs::from(mode.alpha0);
        let rgb1: CombinerInputs<RgbInput> = CombinerInputs::from(mode.rgb1);
        let alpha1: CombinerInputs<AlphaInput> = CombinerInputs::from(mode.alpha1);
        self.dirty = self.dirty || rgb0 != self.rgb0 || alpha0 != self.alpha0 || rgb1 != self.rgb1
            || alpha1 != self.alpha1;
        self.rgb0 = rgb0;
        self.alpha0 = alpha0;
        self.rgb1 = rgb1;
        self.alpha1 = alpha1;
    }

    pub fn set_cycle_type(&mut self, cycle_type: CycleType)
        requires
            old(self).wf(),
        ensures
            final(self).wf(),
            final(self)@ == (FragmentControlView {
                settings: FragmentSettings { cycle_type, ..old(self)@.settings },
                dirty: old(self)@.dirty || cycle_type != old(self)@.settings.cycle_type,
                states: old(self)@.states,
            }),
    {
        self.dirty = self.dirty || cycle_type != self.cycle_type;
        self.cycle_type = cycle_type;
    }

    /// Takes the blend mode: cycle 0 from the mode, cycle 1 from the mode
    /// shifted right by two.
    pub fn set_blend_mode(&mut self, blend_mode: u16)
        requires
            old(self).wf(),
        ensures
            final(self).wf(),
            ({
                let o = old(self)@;
                let blend0 = blender_inputs_spec(blend_mode);
                let blend1 = blender_inputs_spec(blend_mode >> 2u16);
                final(self)@ == FragmentControlView {
                    settings: FragmentSettings { blend0, blend1, ..o.settings },
                    dirty: o.dirty || blend0 != o.settings.blend0 || blend1 != o.settings.blend1,
                    states: o.states,
                }
            }),
    {
        let blend0 = BlenderInputs::from(blend_mode);
        let blend1 = BlenderInputs::from(blend_mode >> 2u16);
        self.dirty = self.dirty || blend0 != self.blend0 || blend1 != self.blend1;
        self.blend0 = blend0;
        self.blend1 = blend1;
    }

    pub fn set_prim_color(&mut self, color: Color)
        requires
            old(self).wf(),
        ensures
            final(self).wf(),
            final(self)@ == (FragmentControlView {
                settings: FragmentSettings { prim_color: color@, ..old(self)@.settings },
                dirty: old(self)@.dirty || color@ != old(self)@.settings.prim_color,
                states: old(self)@.states,
            }),
    {
        self.dirty = self.dirty || !same_color(color, self.prim_color);
        self.prim_color = color;
    }

    pub fn set_env_color(&mut self, color: Color)
        requires
            old(self).wf(),
        ensures
            final(self).wf(),
            final(self)@ == (FragmentControlView {
                settings: FragmentSettings { env_color: color@, ..old(self)@.settings },
                dirty: old(self)@.dirty || color@ != old(self)@.settings.env_color,
                states: old(self)@.states,
            }),
    {
        self.dirty = self.dirty || !same_color(color, self.env_color);
        self.env_color = color;
    }

    pub fn set_blend_color(&mut self, color: Color)
        requires
            old(self).wf(),
        ensures
            final(self).wf(),
            final(self)@ == (FragmentControlView {
                settings: FragmentSettings { blend_color: color@, ..old(self)@.settings },
                dirty: old(self)@.dirty || color@ != old(self)@.settings.blend_color,
                states: old(self)@.states,
            }),
    {
        self.dirty = self.dirty || !same_color(color, self.blend_color);
        self.blend_color = color;
    }

    pub fn set_fog_color(&mut self, color: Color)
        requires
            old(self).wf(),
        ensures
            final(self).wf(),
            final(self)@ == (FragmentControlView {
                settings: FragmentSettings { fog_color: color@, ..old(self)@.settings },
                dirty: old(self)@.dirty || color@ != old(self)@.settings.fog_color,
                states: old(self)@.states,
            }),
    {
        self.dirty = self.dirty || !same_color(color, self.fog_color);
        self.fog_color = color;
    }

    /// The key of the cache entry for the current settings, making one if
    /// they changed since the last.
    pub fn cache_key(&mut self) -> (key: usize)
        requires
            old(self).wf(),
        ensures
            final(self).wf(),
            cache_key_post(old(self)@, final(self)@, key as int),
    {
        if self.dirty {
            let state = FragmentState {
                rgb0: rgb_codes(self.rgb0),
                alpha0: alpha_codes(self.alpha0),
                rgb1: rgb_codes(self.rgb1),
                alpha1: alpha_codes(self.alpha1),
                blend0: blend_codes(self.blend0),
                blend1: blend_codes(self.blend1),
                prim_color: self.prim_color,
                env_color: self.env_color,
                blend_color: self.blend_color,
                fog_color: self.fog_color,
                cycle_type: match self.cycle_type {
                    CycleType::Cycle1 => 0,
                    CycleType::Cycle2 => 1,
                    CycleType::Copy => 2,
                    CycleType::Fill => 3,
                },
            };
            let ghost before = self@;
            self.states.push(state);
            self.dirty = false;
            assert(self@.states =~= before.states.push(settings_state(before.settings)));
        }
        self.states.len() - 1
    }

    /// The number of cache entries.
    pub fn len(&self) -> (r: usize)
        ensures
            r == self@.states.len(),
    {
        self.states.len()
    }

    /// The cache entry for `key`.
    pub fn state(&self, key: usize) -> (r: FragmentState)
        requires
            key < self@.states.len(),
        ensures
            r@ == self@.states[key as int],
    {
        self.states[key]
    }
}

/// Asking for the key twice without changing the settings in between
/// gives the same key and makes no second entry.
pub proof fn lemma_cache_key_stable(
    a: FragmentControlView,
    b: FragmentControlView,
    c: FragmentControlView,
    k1: int,
    k2: int,
)
    requires
        cache_key_post(a, b, k1),
        cache_key_post(b, c, k2),
    ensures
        k1 == k2,
        c.states == b.states,
{
}

} // verus!
