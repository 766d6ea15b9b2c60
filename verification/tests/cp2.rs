use utopia::rsp::cp2::compute::{
    clamp_signed, clamp_signed_low, clamp_signed_old, vadd, vaddc, vmudh, vmulf, vsar, vsubc,
};
use utopia::rsp::cp2::select::{vch, vlt};
use utopia::rsp::cp2::single_lane::{vmov, vrcp, vrcph};
use utopia::rsp::cp2::{inv_sqrt, reciprocal, Cp2};

fn set_lane(cp2: &mut Cp2, reg: u32, lane: u32, value: u16) {
    cp2.mtc2((reg << 11) | ((lane * 2) << 7), value as u32);
}

fn compute_word(funct: u32, vd: u32, vs: u32, vt: u32, modifier: u32) -> u32 {
    funct | (vd << 6) | (vs << 11) | (vt << 16) | (modifier << 21)
}

fn move_word(vs: u32, element: u32) -> u32 {
    (vs << 11) | (element << 7)
}

#[test]
fn divide_tables() {
    assert_eq!(reciprocal(0), 0xffff);
    assert_eq!(reciprocal(1), 0xff00);
    assert_eq!(reciprocal(2), 0xfe01);
    assert_eq!(reciprocal(511), 0x0040);
    assert_eq!(inv_sqrt(0), 0x6a09);
    assert_eq!(inv_sqrt(1), 0xffff);
    assert_eq!(inv_sqrt(2), 0x6955);
    assert_eq!(inv_sqrt(511), 0x6a64);
}

#[test]
fn clamps_saturate() {
    assert_eq!(clamp_signed(0x0000_7fff_0000), 0x7fff);
    assert_eq!(clamp_signed(0x0000_8000_0000), 0x7fff);
    assert_eq!(clamp_signed(0xffff_ffff_8000_0000), 0x8000);
    assert_eq!(clamp_signed(0xffff_ffff_7fff_0000), 0x8000);
    assert_eq!(clamp_signed(0x1234_5678), 0x1234);
    assert_eq!(clamp_signed_low(0x0000_1234_5678), 0x5678);
    assert_eq!(clamp_signed_low(0x0001_0000_0000), 0xffff);
    assert_eq!(clamp_signed_low(0xffff_ffff_0000_0000), 0);
    assert_eq!(clamp_signed_old(40000), 32767);
    assert_eq!(clamp_signed_old(-40000), -32768);
    assert_eq!(clamp_signed_old(5), 5);
}

#[test]
fn new_unit_is_zero() {
    let cp2 = Cp2::new();
    assert_eq!(cp2.get_le(5), [0; 8]);
    assert_eq!(cp2.acc_le(), [0; 8]);
    assert_eq!(cp2.cfc2(move_word(0, 0)), 0);
}

#[test]
fn move_from_sign_extends() {
    let mut cp2 = Cp2::new();
    set_lane(&mut cp2, 1, 0, 0x8001);
    assert_eq!(cp2.mfc2(move_word(1, 0)), 0xffff_8001);
    set_lane(&mut cp2, 1, 3, 0x1234);
    assert_eq!(cp2.mfc2(move_word(1, 6)), 0x1234);
}

#[test]
fn control_registers_round_trip() {
    let mut cp2 = Cp2::new();
    cp2.ctc2(move_word(1, 0), 0x1234);
    assert_eq!(cp2.cfc2(move_word(1, 0)), 0x1234);
    assert_eq!(cp2.mfc2(move_word(1, 0)), 0x1234);
    cp2.ctc2(move_word(0, 0), 0x80ff);
    assert_eq!(cp2.cfc2(move_word(0, 0)), 0xffff_80ff);
    cp2.ctc2(move_word(2, 0), 0x00aa);
    assert_eq!(cp2.cfc2(move_word(2, 0)), 0x00aa);
    assert_eq!(cp2.cfc2(move_word(3, 0)), 0);
}

#[test]
fn multiply_fraction() {
    let mut cp2 = Cp2::new();
    set_lane(&mut cp2, 1, 0, 0x4000);
    set_lane(&mut cp2, 2, 0, 0x4000);
    set_lane(&mut cp2, 1, 1, 0x8000);
    set_lane(&mut cp2, 2, 1, 0x8000);
    set_lane(&mut cp2, 1, 2, 0x8000);
    set_lane(&mut cp2, 2, 2, 0x7fff);
    vmulf(&mut cp2, compute_word(0x00, 3, 1, 2, 0));
    let result = cp2.get_be(3);
    assert_eq!(result[0], 0x2000);
    assert_eq!(result[1], 0x7fff);
    assert_eq!(result[2], 0x8001);
    assert_eq!(result[3], 0);
    let acc = cp2.acc_le();
    assert_eq!(acc[7], 0x2000_8000);
    assert_eq!(acc[6], 0x8000_8000);
    assert_eq!(acc[5], 0xffff_ffff_8001_8000);
    assert_eq!(acc[4], 0x8000);
}

#[test]
fn multiply_high_then_read_accumulator() {
    let mut cp2 = Cp2::new();
    set_lane(&mut cp2, 1, 0, 0x0100);
    set_lane(&mut cp2, 2, 0, 0x0200);
    vmudh(&mut cp2, compute_word(0x07, 3, 1, 2, 0));
    assert_eq!(cp2.get_be(3)[0], 0x7fff);
    assert_eq!(cp2.acc_le()[7], 0x2_0000_0000);
    vsar(&mut cp2, compute_word(0x1d, 4, 0, 0, 8));
    assert_eq!(cp2.get_be(4)[0], 0x0002);
    vsar(&mut cp2, compute_word(0x1d, 4, 0, 0, 9));
    assert_eq!(cp2.get_be(4)[0], 0);
    vsar(&mut cp2, compute_word(0x1d, 4, 0, 0, 3));
    assert_eq!(cp2.get_le(4), [0; 8]);
}

#[test]
fn add_with_carry() {
    let mut cp2 = Cp2::new();
    set_lane(&mut cp2, 1, 0, 0xffff);
    set_lane(&mut cp2, 2, 0, 0x0001);
    vaddc(&mut cp2, compute_word(0x14, 3, 1, 2, 0));
    assert_eq!(cp2.get_be(3)[0], 0);
    assert_eq!(cp2.cfc2(move_word(0, 0)), 0x0001);
    vadd(&mut cp2, compute_word(0x10, 5, 1, 2, 0));
    assert_eq!(cp2.get_be(5)[0], 1);
    assert_eq!(cp2.cfc2(move_word(0, 0)), 0);
}

#[test]
fn add_saturates() {
    let mut cp2 = Cp2::new();
    set_lane(&mut cp2, 1, 0, 0x7fff);
    set_lane(&mut cp2, 2, 0, 0x0010);
    set_lane(&mut cp2, 1, 1, 0x8000);
    set_lane(&mut cp2, 2, 1, 0xfff0);
    vadd(&mut cp2, compute_word(0x10, 3, 1, 2, 0));
    assert_eq!(cp2.get_be(3)[0], 0x7fff);
    assert_eq!(cp2.get_be(3)[1], 0x8000);
    assert_eq!(cp2.acc_le()[7] & 0xffff, 0x800f);
}

#[test]
fn subtract_with_borrow() {
    let mut cp2 = Cp2::new();
    set_lane(&mut cp2, 1, 0, 1);
    set_lane(&mut cp2, 2, 0, 2);
    vsubc(&mut cp2, compute_word(0x15, 3, 1, 2, 0));
    assert_eq!(cp2.get_be(3)[0], 0xffff);
    assert_eq!(cp2.cfc2(move_word(0, 0)), 0x0101);
}

#[test]
fn select_less_than() {
    let mut cp2 = Cp2::new();
    set_lane(&mut cp2, 1, 0, 5);
    set_lane(&mut cp2, 2, 0, 3);
    set_lane(&mut cp2, 1, 1, 0xfff0);
    set_lane(&mut cp2, 2, 1, 2);
    set_lane(&mut cp2, 1, 2, 7);
    set_lane(&mut cp2, 2, 2, 7);
    vlt(&mut cp2, compute_word(0x20, 3, 1, 2, 0));
    let result = cp2.get_be(3);
    assert_eq!(result[0], 3);
    assert_eq!(result[1], 0xfff0);
    assert_eq!(result[2], 7);
    assert_eq!(cp2.cfc2(move_word(1, 0)), 0x0002);
    assert_eq!(cp2.acc_le()[6], 0xfff0);
}

#[test]
fn clip_test_high() {
    let mut cp2 = Cp2::new();
    set_lane(&mut cp2, 1, 0, 0x0005);
    set_lane(&mut cp2, 2, 0, 0xfffd);
    vch(&mut cp2, compute_word(0x25, 3, 1, 2, 0));
    assert_eq!(cp2.get_be(3)[0], 5);
    assert_eq!(cp2.cfc2(move_word(0, 0)), 0x0101);
    assert_eq!(cp2.cfc2(move_word(1, 0)), 0xffff_ff00);
    assert_eq!(cp2.cfc2(move_word(2, 0)), 0);
}

#[test]
fn reciprocal_of_one() {
    let mut cp2 = Cp2::new();
    set_lane(&mut cp2, 2, 0, 1);
    vrcp(&mut cp2, compute_word(0x30, 3, 0, 2, 0));
    assert_eq!(cp2.get_be(3)[0], 0xc000);
    vrcph(&mut cp2, compute_word(0x32, 4, 0, 2, 0));
    assert_eq!(cp2.get_be(4)[0], 0x7fff);
    assert_eq!(cp2.acc_le()[7] & 0xffff, 1);
}

#[test]
fn reciprocal_of_zero() {
    let mut cp2 = Cp2::new();
    vrcp(&mut cp2, compute_word(0x30, 3, 0, 2, 0));
    assert_eq!(cp2.get_be(3)[0], 0xffff);
}

#[test]
fn move_lane() {
    let mut cp2 = Cp2::new();
    set_lane(&mut cp2, 2, 3, 0xabcd);
    vmov(&mut cp2, compute_word(0x33, 5, 6, 2, 11));
    assert_eq!(cp2.get_be(5)[6], 0xabcd);
    assert_eq!(cp2.get_be(5)[3], 0);
}

#[test]
fn cop2_dispatches_by_function() {
    let mut cp2 = Cp2::new();
    set_lane(&mut cp2, 1, 0, 0x0f0f);
    set_lane(&mut cp2, 2, 0, 0x00ff);
    cp2.cop2(compute_word(0x28, 3, 1, 2, 0));
    assert_eq!(cp2.get_be(3)[0], 0x000f);
    cp2.cop2(compute_word(0x2a, 3, 1, 2, 0));
    assert_eq!(cp2.get_be(3)[0], 0x0fff);
    cp2.cop2(compute_word(0x2c, 3, 1, 2, 0));
    assert_eq!(cp2.get_be(3)[0], 0x0ff0);
    cp2.cop2(compute_word(0x2d, 3, 1, 2, 0));
    assert_eq!(cp2.get_be(3)[0], 0xf00f);
}

#[test]
fn broadcast_modifier_selects_lane() {
    let mut cp2 = Cp2::new();
    for lane in 0..8 {
        set_lane(&mut cp2, 2, lane, (lane + 1) as u16);
        set_lane(&mut cp2, 1, lane, 0x1000);
    }
    // modifier 8 + 2: every lane of vt reads lane 2
    cp2.cop2(compute_word(0x28, 3, 1, 2, 10));
    assert_eq!(cp2.get_be(3), [0; 8]);
    cp2.cop2(compute_word(0x2a, 3, 1, 2, 10));
    assert_eq!(cp2.get_be(3), [0x1003; 8]);
}
