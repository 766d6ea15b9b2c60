use utopia::rdp::engine::command::{
    is_color_image_supported, set_color_image, set_combine_mode, set_fill_color, set_other_modes,
    set_prim_color, set_scissor,
};
use utopia::rdp::engine::fragment::{
    AlphaInput, BlenderAInput, BlenderBInput, BlenderInputs, BlenderPmInput, CombinerInputs,
    FragmentControl, RgbInput,
};
use utopia::rdp::engine::target::{OutputFormat, Prepare, Target};

#[test]
fn rgb_inputs_by_position() {
    let inputs: CombinerInputs<RgbInput> =
        CombinerInputs::from(CombinerInputs { sub_a: 7u8, sub_b: 6u8, mul: 15u8, add: 7u8 });
    assert_eq!(inputs.sub_a, RgbInput::Noise);
    assert_eq!(inputs.sub_b, RgbInput::KeyCenter);
    assert_eq!(inputs.mul, RgbInput::ConvertK5);
    assert_eq!(inputs.add, RgbInput::Constant0);
    let inputs: CombinerInputs<RgbInput> =
        CombinerInputs::from(CombinerInputs { sub_a: 9u8, sub_b: 7u8, mul: 31u8, add: 6u8 });
    assert_eq!(inputs.sub_a, RgbInput::Constant0);
    assert_eq!(inputs.sub_b, RgbInput::ConvertK4);
    assert_eq!(inputs.mul, RgbInput::Constant0);
    assert_eq!(inputs.add, RgbInput::Constant1);
}

#[test]
fn alpha_inputs_by_position() {
    let inputs: CombinerInputs<AlphaInput> =
        CombinerInputs::from(CombinerInputs { sub_a: 6u8, sub_b: 3u8, mul: 0u8, add: 7u8 });
    assert_eq!(inputs.sub_a, AlphaInput::Constant1);
    assert_eq!(inputs.sub_b, AlphaInput::PrimAlpha);
    assert_eq!(inputs.mul, AlphaInput::LodFraction);
    assert_eq!(inputs.add, AlphaInput::Constant0);
    let inputs: CombinerInputs<AlphaInput> =
        CombinerInputs::from(CombinerInputs { sub_a: 0u8, sub_b: 0u8, mul: 6u8, add: 0u8 });
    assert_eq!(inputs.mul, AlphaInput::PrimLodFraction);
}

#[test]
fn blender_inputs_from_mode() {
    let inputs = BlenderInputs::from(0x3b6cu16);
    assert_eq!(inputs.p, BlenderPmInput::FogColor);
    assert_eq!(inputs.m, BlenderPmInput::BlendColor);
    assert_eq!(inputs.a, BlenderAInput::Constant0);
    assert_eq!(inputs.b, BlenderBInput::Constant0);
    let inputs = BlenderInputs::from(0u16);
    assert_eq!(inputs.p, BlenderPmInput::PrevColor);
    assert_eq!(inputs.b, BlenderBInput::InvAlpha);
}

#[test]
fn cache_keys_follow_changes() {
    let mut fragment = FragmentControl::new();
    assert_eq!(fragment.cache_key(), 0);
    assert_eq!(fragment.cache_key(), 0);
    assert_eq!(fragment.len(), 1);
    fragment.set_prim_color([0, 0, 0, 0]);
    assert_eq!(fragment.cache_key(), 0);
    fragment.set_prim_color([1, 2, 3, 4]);
    assert_eq!(fragment.cache_key(), 1);
    assert_eq!(fragment.state(1).prim_color, [1, 2, 3, 4]);
    assert_eq!(fragment.state(0).prim_color, [0, 0, 0, 0]);
    assert_eq!(fragment.len(), 2);
}

#[test]
fn combine_mode_command() {
    let mut fragment = FragmentControl::new();
    set_combine_mode(&mut fragment, 0xfc12_1824_ff33_ffff);
    let key = fragment.cache_key();
    let state = fragment.state(key);
    assert_eq!(state.rgb0, [1, 20, 4, 20]);
    assert_eq!(state.alpha0, [1, 9, 4, 9]);
    assert_eq!(state.rgb1, [1, 20, 4, 20]);
    assert_eq!(state.alpha1, [1, 9, 4, 9]);
    assert_eq!(state.cycle_type, 0);
    set_combine_mode(&mut fragment, 0xfc12_1824_ff33_ffff);
    assert_eq!(fragment.cache_key(), key);
}

#[test]
fn other_modes_command() {
    let mut fragment = FragmentControl::new();
    let cmd = 0x2f30_0000_3b6c_0004u64;
    let mode = set_other_modes(&mut fragment, cmd);
    assert!(mode.use_prim_depth);
    let key = fragment.cache_key();
    let state = fragment.state(key);
    assert_eq!(state.cycle_type, 3);
    assert_eq!(state.blend0, [3, 2, 3, 3]);
    let mode = set_other_modes(&mut fragment, 0x2f00_0000_0000_0000);
    assert!(!mode.use_prim_depth);
}

#[test]
fn prim_color_command() {
    let mut fragment = FragmentControl::new();
    set_prim_color(&mut fragment, 0x3a00_0000_1122_3344);
    let key = fragment.cache_key();
    let state = fragment.state(key);
    assert_eq!(state.prim_color, [0x11, 0x22, 0x33, 0x44]);
}

#[test]
fn target_prepare_follows_image_size() {
    let mut target = Target::new();
    assert_eq!(target.prepare(), Prepare::Release);
    set_color_image(&mut target, (2u64 << 51) | (319u64 << 32) | 0x0010_0000);
    assert_eq!(target.output_format(), OutputFormat::Rgba16);
    set_scissor(&mut target, 0x2d00_0000_0050_03c0);
    assert_eq!(target.prepare(), Prepare::Create(320, 240));
    assert_eq!(target.prepare(), Prepare::Keep);
    set_scissor(&mut target, 0x2d00_0000_0000_0000);
    assert_eq!(target.prepare(), Prepare::Release);
}

#[test]
fn color_image_formats() {
    assert!(is_color_image_supported(3u64 << 51));
    assert!(is_color_image_supported(2u64 << 51));
    assert!(is_color_image_supported((2u64 << 53) | (1u64 << 51)));
    assert!(!is_color_image_supported((1u64 << 53) | (2u64 << 51)));
    assert!(!is_color_image_supported(1u64 << 51));
    let mut target = Target::new();
    set_color_image(&mut target, (3u64 << 51) | (639u64 << 32) | 0x20);
    assert_eq!(target.output_format(), OutputFormat::Rgba32);
}

#[test]
fn copy_to_rdram_converts_pixels() {
    let mut target = Target::new();
    set_color_image(&mut target, (2u64 << 51) | 0x10);
    let mut rdram = vec![0u8; 0x20];
    let pixels = vec![0xff, 0x00, 0x00, 0xff, 0x08, 0x10, 0x18, 0x00];
    target.copy_to_rdram(&mut rdram, &pixels);
    assert_eq!(&rdram[0x10..0x14], &[0xf8, 0x01, 0x08, 0x86]);
    assert_eq!(rdram[0x14], 0);
    let mut target = Target::new();
    set_color_image(&mut target, (3u64 << 51) | 0x4);
    target.copy_to_rdram(&mut rdram, &pixels);
    assert_eq!(&rdram[0x4..0xc], &pixels[..]);
}

#[test]
fn fill_color_command() {
    let mut target = Target::new();
    set_fill_color(&mut target, 0x3700_0000_dead_beef);
    assert_eq!(target.fill_color(), 0xdead_beef);
}
