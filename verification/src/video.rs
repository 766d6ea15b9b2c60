//! The Video Interface (VI): scan-out timing, the VI interrupt, and the
//! conversion of the RDRAM frame buffer into RGBA pixels.

use crate::interrupt::{RcpIntType, RcpInterrupt};
use crate::memory::{spec_apply, Masked};
use vstd::prelude::*;

verus! {

/// The 16-bit big-endian value of two bytes.
pub open spec fn be_u16(hi: u8, lo: u8) -> u16 {
    ((hi as u16) * 256 + (lo as u16)) as u16
}

/// The RGBA8888 pixel of an RGBA5551 value.
pub open spec fn spec_decode_rgba16(value: u16) -> Seq<u8> {
    seq![
        ((((value >> 11) as u8) & 31) << 3) as u8,
        ((((value >> 6) as u8) & 31) << 3) as u8,
        ((((value >> 1) as u8) & 31) << 3) as u8,
        (((value as u8) & 1) * 255) as u8,
    ]
}

/// Converts the big-endian RGBA5551 pixel at the start of `chunk` to
/// RGBA8888.
pub fn decode_rgba16(chunk: &[u8]) -> (r: [u8; 4])
    requires
        chunk@.len() >= 2,
    ensures
        r@ == spec_decode_rgba16(be_u16(chunk@[0], chunk@[1])),
{
    let hi = chunk[0];
    let lo = chunk[1];
    let value: u16 = ((hi as u16) << 8) | (lo as u16);
    assert(((hi as u16) << 8) | (lo as u16) == ((hi as u16) * 256 + (lo as u16)) as u16)
        by (bit_vector);
    let red = (((value >> 11) as u8) & 31) << 3;
    let green = (((value >> 6) as u8) & 31) << 3;
    let blue = (((value >> 1) as u8) & 31) << 3;
    let a = (value as u8) & 1;
    proof {
        crate::bits::lemma_mask_bounds();
    }
    assert(a * 255 <= 255);
    let alpha = a * 255;
    let r = [red, green, blue, alpha];
    assert(r@ =~= spec_decode_rgba16(be_u16(chunk@[0], chunk@[1])));
    r
}

/// The size of the output window.
pub const DEFAULT_TARGET_WIDTH: u32 = 800;
pub const DEFAULT_TARGET_HEIGHT: u32 = 600;

/// The smallest source image handed to the upscaler.
pub const MIN_SOURCE_WIDTH: u32 = 256;
pub const MIN_SOURCE_HEIGHT: u32 = 192;

/// The VI registers, each as the CPU reads it.
#[derive(Copy, Clone, Debug, PartialEq, Eq, Structural)]
pub struct Registers {
    pub ctrl: u32,
    pub origin: u32,
    pub width: u32,
    pub v_intr: u32,
    pub v_current: u32,
    pub burst: u32,
    pub v_sync: u32,
    pub h_sync: u32,
    pub h_sync_leap: u32,
    pub h_video: u32,
    pub v_video: u32,
    pub v_burst: u32,
    pub x_scale: u32,
    pub y_scale: u32,
    pub test_addr: u32,
    pub staged_data: u32,
}

// Register fields.

/// VI_CTRL pixel type: 0 blank, 1 reserved, 2 RGBA5551, 3 RGBA8888.
pub open spec fn color_depth(ctrl: u32) -> u32 {
    ctrl & 3
}

/// VI_CTRL serrate bit (interlaced output).
pub open spec fn serrate(ctrl: u32) -> bool {
    ctrl & 0x40 != 0
}

/// VI_CTRL anti-alias mode; 3 disables anti-aliasing and resampling.
pub open spec fn aa_mode(ctrl: u32) -> u32 {
    (ctrl >> 8) & 3
}

/// A 10-bit half-line field (VI_V_INTR, VI_V_CURRENT, VI_V_SYNC).
pub open spec fn half_line(reg: u32) -> u32 {
    reg & 0x3ff
}

/// VI_H_SYNC: the number of cycles per line.
pub open spec fn h_sync(reg: u32) -> u32 {
    reg & 0xfff
}

/// The start field of VI_H_VIDEO and VI_V_VIDEO.
pub open spec fn video_start(reg: u32) -> u32 {
    (reg >> 16) & 0x3ff
}

/// The end field of VI_H_VIDEO and VI_V_VIDEO.
pub open spec fn video_end(reg: u32) -> u32 {
    reg & 0x3ff
}

/// The scale field of VI_X_SCALE and VI_Y_SCALE (2.10 fixed point).
pub open spec fn scale(reg: u32) -> u32 {
    reg & 0xfff
}

/// VI_ORIGIN: the frame buffer address.
pub open spec fn origin(reg: u32) -> u32 {
    reg & 0x00ff_ffff
}

/// VI_WIDTH: the frame buffer width in pixels.
pub open spec fn buffer_width(reg: u32) -> u32 {
    reg & 0xfff
}

/// A register with its half-line field replaced.
pub open spec fn with_half_line(reg: u32, value: u32) -> u32 {
    (reg & !0x3ffu32) | value
}

/// The abstract state of the video interface.
pub struct VideoView {
    pub h_counter: u64,
    pub v_counter: u32,
    pub field: bool,
    pub frame_complete: bool,
    pub regs: Registers,
}

/// The interface after reset: counters at zero, VI_V_INTR and VI_V_SYNC at
/// their last line and VI_H_SYNC at its longest line.
pub open spec fn vi_reset() -> VideoView {
    VideoView {
        h_counter: 0,
        v_counter: 0,
        field: false,
        frame_complete: false,
        regs: Registers {
            ctrl: 0,
            origin: 0,
            width: 0,
            v_intr: 0x3ff,
            v_current: 0,
            burst: 0,
            v_sync: 0x3ff,
            h_sync: 0x7ff,
            h_sync_leap: 0,
            h_video: 0,
            v_video: 0,
            v_burst: 0,
            x_scale: 0,
            y_scale: 0,
            test_addr: 0,
            staged_data: 0,
        },
    }
}

/// The state after the scan-out of one line: the line counter advances,
/// VI_V_CURRENT follows it, and at the vertical sync the counter wraps,
/// the field flips in interlaced mode and the frame is complete.
pub open spec fn line_step(v: VideoView) -> VideoView {
    let vc = (v.v_counter + 1) as u32;
    let field_bit: u32 = if v.field {
        1
    } else {
        0
    };
    let current = with_half_line(v.regs.v_current, (vc & !1u32) | field_bit);
    let h = (v.h_counter - h_sync(v.regs.h_sync)) as u64;
    if vc >= half_line(v.regs.v_sync) {
        let field = v.field != serrate(v.regs.ctrl);
        VideoView {
            h_counter: h,
            v_counter: 0,
            field,
            frame_complete: true,
            regs: Registers {
                v_current: with_half_line(
                    current,
                    if field {
                        1
                    } else {
                        0
                    },
                ),
                ..v.regs
            },
        }
    } else {
        VideoView { h_counter: h, v_counter: vc, regs: Registers { v_current: current, ..v.regs }, ..v }
    }
}

/// Whether the line after `v` is the one that raises the VI interrupt.
pub open spec fn line_hits(v: VideoView) -> bool {
    line_step(v).v_counter == half_line(v.regs.v_intr) >> 1
}

/// The state after `n` lines.
pub open spec fn run_lines(v: VideoView, n: nat) -> VideoView
    decreases n,
{
    if n == 0 {
        v
    } else {
        line_step(run_lines(v, (n - 1) as nat))
    }
}

/// Whether one of the first `n` lines raises the VI interrupt.
pub open spec fn any_hit(v: VideoView, n: nat) -> bool
    decreases n,
{
    if n == 0 {
        false
    } else {
        any_hit(v, (n - 1) as nat) || line_hits(run_lines(v, (n - 1) as nat))
    }
}

/// The source image that `update` prepares for the upscaler.
pub struct Frame {
    pub resample: bool,
    pub width: u32,
    pub height: u32,
}

/// The width of the visible picture in frame buffer pixels.
pub open spec fn screen_width(regs: Registers) -> int {
    (video_end(regs.h_video) - video_start(regs.h_video)) * scale(regs.x_scale) / 1024
}

/// The height of the visible picture in frame buffer lines.
pub open spec fn screen_height(regs: Registers) -> int {
    ((video_end(regs.v_video) - video_start(regs.v_video)) / 2) * scale(regs.y_scale) / 1024
}

/// The pixel type that scan-out uses: blank when the frame buffer or the
/// picture is empty.
pub open spec fn output_depth(regs: Registers) -> u32 {
    if buffer_width(regs.width) != 0 && screen_width(regs) != 0 && screen_height(regs) != 0 {
        color_depth(regs.ctrl)
    } else {
        0
    }
}

pub open spec fn max_int(a: int, b: int) -> int {
    if a >= b {
        a
    } else {
        b
    }
}

pub open spec fn min_int(a: int, b: int) -> int {
    if a <= b {
        a
    } else {
        b
    }
}

/// The size of the image handed to the upscaler.
pub open spec fn source_width(regs: Registers) -> int {
    max_int(screen_width(regs), MIN_SOURCE_WIDTH as int)
}

pub open spec fn source_height(regs: Registers) -> int {
    max_int(screen_height(regs), MIN_SOURCE_HEIGHT as int)
}

/// The bytes of one frame buffer line.
pub open spec fn src_pitch(regs: Registers) -> int {
    if output_depth(regs) == 2 {
        buffer_width(regs.width) * 2
    } else {
        buffer_width(regs.width) * 4
    }
}

/// The bytes of one picture line.
pub open spec fn dst_pitch(regs: Registers) -> int {
    screen_width(regs) * 4
}

/// The bytes of a picture line that the frame buffer line replaces.
pub open spec fn dst_display(regs: Registers) -> int {
    min_int(screen_width(regs), buffer_width(regs.width) as int) * 4
}

/// The RGBA8888 bytes of the frame buffer line at `src`.
pub open spec fn row_pixels(rdram: Seq<u8>, src: int, regs: Registers) -> Seq<u8> {
    let width = buffer_width(regs.width) as int;
    if output_depth(regs) == 2 {
        Seq::new(
            (width * 4) as nat,
            |j: int| spec_decode_rgba16(be_u16(rdram[src + 2 * (j / 4)], rdram[src + 2 * (j / 4) + 1]))[j % 4],
        )
    } else {
        rdram.subrange(src, src + width * 4)
    }
}

/// The picture after line `row` replaces `disp` bytes at `dst` and the rest
/// of the picture line up to `pitch` is cleared.
pub open spec fn place_row(pixels: Seq<u8>, row: Seq<u8>, dst: int, disp: int, pitch: int) -> Seq<
    u8,
> {
    let spliced = pixels.subrange(0, dst) + row + pixels.subrange(dst + disp, pixels.len() as int);
    Seq::new(
        spliced.len(),
        |k: int|
            if dst + disp <= k < dst + pitch {
                0u8
            } else {
                spliced[k]
            },
    )
}

/// The picture after the first `n` lines have been copied.
pub open spec fn render_rows(pixels: Seq<u8>, rdram: Seq<u8>, regs: Registers, n: nat) -> Seq<u8>
    decreases n,
{
    if n == 0 {
        pixels
    } else {
        let prev = render_rows(pixels, rdram, regs, (n - 1) as nat);
        place_row(
            prev,
            row_pixels(rdram, origin(regs.origin) + (n - 1) * src_pitch(regs), regs),
            (n - 1) * dst_pitch(regs),
            dst_display(regs),
            dst_pitch(regs),
        )
    }
}

/// `pixels` resized to `len` bytes, new bytes zero.
pub open spec fn resized(pixels: Seq<u8>, len: int) -> Seq<u8> {
    Seq::new(
        len as nat,
        |k: int|
            if k < pixels.len() {
                pixels[k]
            } else {
                0u8
            },
    )
}

/// The picture that `update` produces from the previous one.
pub open spec fn updated_pixels(pixels: Seq<u8>, rdram: Seq<u8>, regs: Registers) -> Seq<u8> {
    let len = source_width(regs) * source_height(regs) * 4;
    let start = resized(pixels, len);
    if output_depth(regs) == 0 {
        Seq::new(len as nat, |k: int| 0u8)
    } else {
        render_rows(start, rdram, regs, screen_height(regs) as nat)
    }
}

/// Whether `update` can scan out the frame: the video windows are not
/// inverted, the pixel type is not the reserved one, and the frame buffer
/// lies in `rdram`.
pub open spec fn update_ok(regs: Registers, rdram: Seq<u8>) -> bool {
    &&& video_end(regs.h_video) >= video_start(regs.h_video)
    &&& video_end(regs.v_video) >= video_start(regs.v_video)
    &&& output_depth(regs) != 1
    &&& output_depth(regs) >= 2 ==> origin(regs.origin) + screen_height(regs) * src_pitch(regs)
        <= rdram.len()
}

/// Decodes the RGBA5551 frame buffer line of `width` pixels at `src`.
fn decode_row16(rdram: &[u8], src: usize, width: usize) -> (r: Vec<u8>)
    requires
        src + 2 * width <= rdram@.len(),
    ensures
        r@ == Seq::new(
            (width * 4) as nat,
            |j: int| spec_decode_rgba16(be_u16(rdram@[src + 2 * (j / 4)], rdram@[src + 2 * (j / 4) + 1]))[j % 4],
        ),
{
    let ghost spec = Seq::new(
        (width * 4) as nat,
        |j: int| spec_decode_rgba16(be_u16(rdram@[src + 2 * (j / 4)], rdram@[src + 2 * (j / 4) + 1]))[j % 4],
    );
    let mut out: Vec<u8> = Vec::new();
    let mut i: usize = 0;
    let total = rdram.len();
    while i < width
        invariant
            i <= width,
            total == rdram@.len(),
            src + 2 * width <= rdram@.len(),
            out@ == spec.subrange(0, 4 * i as int),
            spec.len() == width * 4,
            spec == Seq::new(
                (width * 4) as nat,
                |j: int| spec_decode_rgba16(be_u16(rdram@[src + 2 * (j / 4)], rdram@[src + 2 * (j / 4) + 1]))[j % 4],
            ),
        decreases width - i,
    {
        let pixel = decode_rgba16(&rdram[src + 2 * i..src + 2 * i + 2]);
        out.push(pixel[0]);
        out.push(pixel[1]);
        out.push(pixel[2]);
        out.push(pixel[3]);
        i = i + 1;
        assert(out@ =~= spec.subrange(0, 4 * i as int));
    }
    assert(out@ =~= spec);
    out
}

/// Replaces `disp` bytes at `dst` with `row` and clears the picture line
/// from `dst + disp` up to `dst + pitch`.
fn place_row_exec(pixels: &mut Vec<u8>, row: &Vec<u8>, dst: usize, disp: usize, pitch: usize)
    requires
        dst + disp <= old(pixels)@.len(),
        disp <= pitch,
        dst + pitch <= old(pixels)@.len() - disp + row@.len(),
    ensures
        final(pixels)@ == place_row(old(pixels)@, row@, dst as int, disp as int, pitch as int),
{
    let plen = pixels.len();
    let rlen = row.len();
    assert(dst + pitch <= plen - disp + rlen);
    let ghost spliced = old(pixels)@.subrange(0, dst as int) + row@ + old(pixels)@.subrange(
        dst + disp,
        old(pixels)@.len() as int,
    );
    if row.len() == disp {
        let mut k: usize = 0;
        while k < disp
            invariant
                k <= disp,
                plen == old(pixels)@.len(),
                row@.len() == disp,
                dst + disp <= old(pixels)@.len(),
                pixels@.len() == old(pixels)@.len(),
                forall|j: int|
                    0 <= j < pixels@.len() ==> #[trigger] pixels@[j] == if dst <= j < dst + k {
                        row@[j - dst]
                    } else {
                        old(pixels)@[j]
                    },
            decreases disp - k,
        {
            pixels.set(dst + k, row[k]);
            k = k + 1;
        }
        assert(pixels@ =~= spliced);
    } else {
        let mut out: Vec<u8> = Vec::new();
        out.extend_from_slice(&pixels.as_slice()[0..dst]);
        out.extend_from_slice(row.as_slice());
        let len = pixels.len();
        out.extend_from_slice(&pixels.as_slice()[dst + disp..len]);
        assert(out@ =~= spliced);
        *pixels = out;
    }
    let new_len = pixels.len();
    assert(dst + pitch <= new_len);
    let mut k: usize = dst + disp;
    let end = dst + pitch;
    while k < end
        invariant
            end == dst + pitch,
            dst + disp <= k <= dst + pitch,
            dst + pitch <= spliced.len(),
            pixels@.len() == spliced.len(),
            forall|j: int|
                0 <= j < pixels@.len() ==> #[trigger] pixels@[j] == if dst + disp <= j < k {
                    0u8
                } else {
                    spliced[j]
                },
        decreases dst + pitch - k,
    {
        pixels.set(k, 0);
        k = k + 1;
    }
    assert(pixels@ =~= place_row(old(pixels)@, row@, dst as int, disp as int, pitch as int));
}

pub struct VideoInterface {
    h_counter: u64,
    v_counter: u32,
    field: bool,
    frame_complete: bool,
    regs: Registers,
    pixels: Vec<u8>,
    frame: Frame,
}

impl View for VideoInterface {
    type V = VideoView;

    closed spec fn view(&self) -> VideoView {
        VideoView {
            h_counter: self.h_counter,
            v_counter: self.v_counter,
            field: self.field,
            frame_complete: self.frame_complete,
            regs: self.regs,
        }
    }
}

impl VideoView {
    /// The line counter stays below the largest half line, so that it
    /// fits VI_V_CURRENT after each increment.
    pub open spec fn wf(self) -> bool {
        self.v_counter < 0x3ff
    }
}

/// VI after `cycles` cycles: the horizontal counter runs on, the lines
/// that it completes are run, and the VI interrupt is raised if one of
/// them hits the interrupt line. `o` and `oi` (the interrupt state) before,
/// `n` and `ni` after.
pub open spec fn vi_step_post(o: VideoInterface, n: VideoInterface, oi: RcpInterrupt, ni: RcpInterrupt, cycles: u64) -> bool {
    let start = VideoView { h_counter: (o@.h_counter + cycles) as u64, ..o@ };
    let total = o@.h_counter + cycles;
    let lines = (total / (h_sync(o@.regs.h_sync) as int)) as nat;
    &&& n@ == run_lines(start, lines)
    &&& n@.h_counter == total % (h_sync(o@.regs.h_sync) as int)
    &&& n@.wf()
    &&& if any_hit(start, lines) {
        ni.raised_from(oi, RcpIntType::VI)
    } else {
        ni == oi
    }
    &&& n.spec_pixels() == o.spec_pixels()
}

/// VI after a write of `value` at `address`: a write to VI_V_CURRENT
/// (0x10) acknowledges the VI interrupt, the others merge into their
/// register. `o` and `oi` (the interrupt state) before, `n` and `ni` after.
pub open spec fn vi_write_post(
    o: VideoInterface,
    n: VideoInterface,
    oi: RcpInterrupt,
    ni: RcpInterrupt,
    address: u32,
    value: Masked,
) -> bool {
    &&& address == 0x10 ==> n@ == o@ && ni.cleared_from(oi, RcpIntType::VI)
    &&& address != 0x10 ==> ni == oi && n@ == (VideoView {
        regs: with_reg_at(
            o@.regs,
            address,
            spec_apply(value.value, value.mask, reg_at(o@.regs, address)),
        ),
        ..o@
    })
    &&& n.spec_pixels() == o.spec_pixels()
}

impl VideoInterface {
    pub closed spec fn spec_pixels(&self) -> Seq<u8> {
        self.pixels@
    }

    pub closed spec fn spec_frame(&self) -> Frame {
        self.frame
    }

    pub fn new() -> (r: Self)
        ensures
            r@ == vi_reset(),
            r@.wf(),
            r.spec_pixels() == Seq::<u8>::empty(),
    {
        VideoInterface {
            h_counter: 0,
            v_counter: 0,
            field: false,
            frame_complete: false,
            regs: Registers {
                ctrl: 0,
                origin: 0,
                width: 0,
                v_intr: 0x3ff,
                v_current: 0,
                burst: 0,
                v_sync: 0x3ff,
                h_sync: 0x7ff,
                h_sync_leap: 0,
                h_video: 0,
                v_video: 0,
                v_burst: 0,
                x_scale: 0,
                y_scale: 0,
                test_addr: 0,
                staged_data: 0,
            },
            pixels: Vec::new(),
            frame: Frame { resample: false, width: MIN_SOURCE_WIDTH, height: MIN_SOURCE_HEIGHT },
        }
    }

    pub fn frame_complete(&self) -> (r: bool)
        ensures
            r == self@.frame_complete,
    {
        self.frame_complete
    }

    pub fn reset_frame_complete(&mut self)
        ensures
            final(self)@ == (VideoView { frame_complete: false, ..old(self)@ }),
            final(self).spec_pixels() == old(self).spec_pixels(),
    {
        self.frame_complete = false;
    }

    /// Advances scan-out by `cycles` CPU cycles: one line per VI_H_SYNC
    /// cycles, raising the VI interrupt on the line that VI_V_INTR names.
    pub fn step(&mut self, rcp_int: &mut RcpInterrupt, cycles: u64)
        requires
            old(self)@.wf(),
            old(rcp_int).wf(),
            h_sync(old(self)@.regs.h_sync) != 0,
            old(self)@.h_counter + cycles <= u64::MAX,
        ensures
            vi_step_post(*old(self), *final(self), *old(rcp_int), *final(rcp_int), cycles),
    {
        self.h_counter = self.h_counter + cycles;
        let ghost start = self@;
        let ghost total = self.h_counter as int;
        let cycles_per_line = (self.regs.h_sync & 0xfff) as u64;
        let ghost mut k: nat = 0;

        while self.h_counter >= cycles_per_line
            invariant
                cycles_per_line == h_sync(start.regs.h_sync),
                cycles_per_line > 0,
                self@ == run_lines(start, k),
                self@.regs.h_sync == start.regs.h_sync,
                self@.regs.v_sync == start.regs.v_sync,
                self@.regs.v_intr == start.regs.v_intr,
                self@.regs.ctrl == start.regs.ctrl,
                self@.wf(),
                self.h_counter as int == total - k * cycles_per_line,
                self.pixels@ == old(self).pixels@,
                old(rcp_int).wf(),
                if any_hit(start, k) {
                    rcp_int.raised_from(*old(rcp_int), RcpIntType::VI)
                } else {
                    *rcp_int == *old(rcp_int)
                },
            decreases self.h_counter,
        {
            let ghost before = self@;
            let ghost rcp_before = *rcp_int;
            self.h_counter = self.h_counter - cycles_per_line;
            self.v_counter = self.v_counter + 1;

            let field_bit: u32 = if self.field {
                1
            } else {
                0
            };
            let vc = self.v_counter;
            let half = (vc & !1u32) | field_bit;
            assert(half <= 0x3ff) by (bit_vector)
                requires
                    half == (vc & !1u32) | field_bit,
                    vc <= 0x3ff,
                    field_bit <= 1,
            ;
            self.regs.v_current = (self.regs.v_current & !0x3ffu32) | half;

            if self.v_counter >= (self.regs.v_sync & 0x3ff) {
                self.v_counter = 0;
                self.field = self.field != (self.regs.ctrl & 0x40 != 0);
                let field_bit: u32 = if self.field {
                    1
                } else {
                    0
                };
                self.regs.v_current = (self.regs.v_current & !0x3ffu32) | field_bit;
                self.frame_complete = true;
            } else {
                let vs = self.regs.v_sync;
                proof {
                    crate::bits::lemma_mask_bounds();
                }
                assert(vs & 0x3ff <= 0x3ff);
            }

            if self.v_counter == ((self.regs.v_intr & 0x3ff) >> 1) {
                rcp_int.raise(RcpIntType::VI);
                proof {
                    if any_hit(start, k) {
                        crate::interrupt::lemma_raise_idempotent(*old(rcp_int), rcp_before, *rcp_int, RcpIntType::VI);
                    }
                }
            }
            proof {
                assert(self@ == line_step(before));
                assert(self.h_counter as int == total - (k + 1) * cycles_per_line) by (
                nonlinear_arith)
                    requires
                        self.h_counter as int == total - k * cycles_per_line - cycles_per_line,
                ;
                k = k + 1;
            }
        }
        proof {
            vstd::arithmetic::div_mod::lemma_fundamental_div_mod_converse(
                total,
                cycles_per_line as int,
                k as int,
                self.h_counter as int,
            );
        }
    }

    /// Scans the frame buffer in `rdram` out into the picture handed to the
    /// upscaler: sets the upscaler parameters (resampling unless
    /// anti-aliasing is disabled, and the source size) and copies the
    /// visible lines.
    pub fn update(&mut self, rdram: &[u8])
        requires
            update_ok(old(self)@.regs, rdram@),
        ensures
            final(self)@ == old(self)@,
            final(self).spec_frame() == (Frame {
                resample: aa_mode(old(self)@.regs.ctrl) != 3,
                width: source_width(old(self)@.regs) as u32,
                height: source_height(old(self)@.regs) as u32,
            }),
            final(self).spec_pixels() == updated_pixels(
                old(self).spec_pixels(),
                rdram@,
                old(self)@.regs,
            ),
    {
        let ghost regs = self.regs;
        let ctrl = self.regs.ctrl;
        let resample = ((ctrl >> 8) & 3) != 3;
        let buffer_width = self.regs.width & 0xfff;
        let h_video = self.regs.h_video;
        let v_video = self.regs.v_video;
        let h_end = h_video & 0x3ff;
        let h_start = (h_video >> 16) & 0x3ff;
        let v_end = v_video & 0x3ff;
        let v_start = (v_video >> 16) & 0x3ff;
        let xs = self.regs.x_scale;
        let ys = self.regs.y_scale;
        let ws = self.regs.width;
        let x_scale = xs & 0xfff;
        let y_scale = ys & 0xfff;
        proof {
            crate::bits::lemma_mask_bounds();
        }
        assert(h_end <= 0x3ff && h_start <= 0x3ff && v_end <= 0x3ff && v_start <= 0x3ff
            && x_scale <= 0xfff && y_scale <= 0xfff && buffer_width <= 0xfff);
        assert((h_end - h_start) * x_scale <= 0x3ff * 0xfff) by (nonlinear_arith)
            requires
                h_end - h_start <= 0x3ff,
                x_scale <= 0xfff,
                h_end >= h_start,
        ;
        assert(((v_end - v_start) / 2) * y_scale <= 0x3ff * 0xfff) by (nonlinear_arith)
            requires
                v_end - v_start <= 0x3ff,
                y_scale <= 0xfff,
                v_end >= v_start,
        ;
        let screen_width = (h_end - h_start) * x_scale / 1024;
        let v_lines = v_end - v_start;
        let half_lines = v_lines >> 1;
        assert(half_lines == v_lines / 2);
        let screen_height = half_lines * y_scale / 1024;

        assert(ctrl & 3 <= 3);
        let depth = if buffer_width != 0 && screen_width != 0 && screen_height != 0 {
            ctrl & 3
        } else {
            0
        };

        let width = if screen_width >= MIN_SOURCE_WIDTH {
            screen_width
        } else {
            MIN_SOURCE_WIDTH
        };
        let height = if screen_height >= MIN_SOURCE_HEIGHT {
            screen_height
        } else {
            MIN_SOURCE_HEIGHT
        };
        self.frame = Frame { resample, width, height };

        proof {
            vstd::arithmetic::div_mod::lemma_div_is_ordered(
                ((h_end - h_start) * x_scale) as int,
                0x3ff * 0xfffint,
                1024,
            );
            assert(half_lines * y_scale <= 511 * 0xfff) by (nonlinear_arith)
                requires
                    half_lines == v_lines / 2,
                    v_lines <= 0x3ff,
                    y_scale <= 0xfff,
            ;
            vstd::arithmetic::div_mod::lemma_div_is_ordered(
                (half_lines * y_scale) as int,
                511 * 0xfffint,
                1024,
            );
            assert(511 * 0xfffint / 1024 == 2043);
            assert(0x3ff * 0xfffint == 4189185);
            assert(4189185int / 1024 == 4091);
            assert(screen_width as int == ((h_end - h_start) * x_scale) as int / 1024);
            assert(screen_height as int == (half_lines * y_scale) as int / 1024);
        }
        assert(width <= 4096 && height <= 2048);
        assert(width as int * height as int * 4 <= 4096 * 2048 * 4) by (nonlinear_arith)
            requires
                width <= 4096,
                height <= 2048,
        ;
        let len = width as usize * height as usize * 4;
        self.pixels.resize(len, 0);
        assert(self.pixels@ =~= resized(old(self).pixels@, len as int));

        if depth == 0 {
            let mut k: usize = 0;
            while k < len
                invariant
                    k <= len,
                    self@ == old(self)@,
                    self.frame == (Frame { resample, width, height }),
                    self.pixels@.len() == len,
                    forall|j: int| 0 <= j < k ==> #[trigger] self.pixels@[j] == 0u8,
                decreases len - k,
            {
                self.pixels.set(k, 0);
                k = k + 1;
            }
            assert(self.pixels@ =~= Seq::new(len as nat, |k: int| 0u8));
        } else {
            let width_bytes: usize = if depth == 2 {
                buffer_width as usize * 2
            } else {
                buffer_width as usize * 4
            };
            let dst_pitch = screen_width as usize * 4;
            let dst_display = if screen_width <= buffer_width {
                screen_width as usize * 4
            } else {
                buffer_width as usize * 4
            };
            let origin = (self.regs.origin & 0x00ff_ffff) as usize;
            let ghost start = self.pixels@;
            let rdram_len = rdram.len();
            assert(dst_pitch * screen_height <= len) by (nonlinear_arith)
                requires
                    dst_pitch == screen_width * 4,
                    screen_width <= width,
                    screen_height <= height,
                    len == width * height * 4,
            ;
            let mut src = origin;
            let mut dst: usize = 0;
            let mut line: u32 = 0;
            while line < screen_height
                invariant
                    line <= screen_height,
                    self@ == old(self)@,
                    self.frame == (Frame { resample, width, height }),
                    regs == old(self)@.regs,
                    rdram_len == rdram@.len(),
                    depth == output_depth(regs),
                    depth == 2 || depth == 3,
                    buffer_width == self::buffer_width(regs.width),
                    width_bytes == src_pitch(regs),
                    depth == 2 ==> width_bytes == 2 * buffer_width,
                    depth == 3 ==> width_bytes == 4 * buffer_width,
                    dst_pitch == self::dst_pitch(regs),
                    dst_display == self::dst_display(regs),
                    origin == self::origin(regs.origin),
                    screen_height == self::screen_height(regs),
                    src == origin + line * width_bytes,
                    dst == line * dst_pitch,
                    origin + screen_height * width_bytes <= rdram@.len(),
                    dst_pitch * screen_height <= len,
                    dst_display <= dst_pitch,
                    self.pixels@.len() >= len,
                    self.pixels@ == render_rows(start, rdram@, regs, line as nat),
                decreases screen_height - line,
            {
                assert(src + width_bytes <= origin + screen_height * width_bytes) by (nonlinear_arith)
                    requires
                        src == origin + line * width_bytes,
                        line < screen_height,
                ;
                assert(dst + dst_pitch <= dst_pitch * screen_height) by (nonlinear_arith)
                    requires
                        dst == line * dst_pitch,
                        line < screen_height,
                ;
                let row = if depth == 2 {
                    decode_row16(rdram, src, buffer_width as usize)
                } else {
                    let mut r: Vec<u8> = Vec::new();
                    r.extend_from_slice(&rdram[src..src + width_bytes]);
                    r
                };
                assert(row@ == row_pixels(rdram@, src as int, regs));
                place_row_exec(&mut self.pixels, &row, dst, dst_display, dst_pitch);
                src = src + width_bytes;
                dst = dst + dst_pitch;
                line = line + 1;
                assert(src == origin + line * width_bytes) by (nonlinear_arith)
                    requires
                        src == origin + (line - 1) * width_bytes + width_bytes,
                ;
                assert(dst == line * dst_pitch) by (nonlinear_arith)
                    requires
                        dst == (line - 1) * dst_pitch + dst_pitch,
                ;
            }
        }
    }

    /// Reads a VI register (0x00 to 0x3c).
    pub fn read_u32(&self, address: u32) -> (r: u32)
        requires
            address <= 0x3c,
            address & 3 == 0,
        ensures
            r == reg_at(self@.regs, address),
    {
        if address == 0x00 {
            self.regs.ctrl
        } else if address == 0x04 {
            self.regs.origin
        } else if address == 0x08 {
            self.regs.width
        } else if address == 0x0c {
            self.regs.v_intr
        } else if address == 0x10 {
            self.regs.v_current
        } else if address == 0x14 {
            self.regs.burst
        } else if address == 0x18 {
            self.regs.v_sync
        } else if address == 0x1c {
            self.regs.h_sync
        } else if address == 0x20 {
            self.regs.h_sync_leap
        } else if address == 0x24 {
            self.regs.h_video
        } else if address == 0x28 {
            self.regs.v_video
        } else if address == 0x2c {
            self.regs.v_burst
        } else if address == 0x30 {
            self.regs.x_scale
        } else if address == 0x34 {
            self.regs.y_scale
        } else if address == 0x38 {
            self.regs.test_addr
        } else {
            self.regs.staged_data
        }
    }

    /// Writes a VI register (0x00 to 0x3c); a write to VI_V_CURRENT (0x10)
    /// acknowledges the VI interrupt instead.
    pub fn write_u32(&mut self, rcp_int: &mut RcpInterrupt, address: u32, value: Masked)
        requires
            address <= 0x3c,
            address & 3 == 0,
        ensures
            vi_write_post(*old(self), *final(self), *old(rcp_int), *final(rcp_int), address, value),
    {
        if address == 0x10 {
            rcp_int.clear(RcpIntType::VI);
        } else if address == 0x00 {
            self.regs.ctrl = value.apply(self.regs.ctrl);
        } else if address == 0x04 {
            self.regs.origin = value.apply(self.regs.origin);
        } else if address == 0x08 {
            self.regs.width = value.apply(self.regs.width);
        } else if address == 0x0c {
            self.regs.v_intr = value.apply(self.regs.v_intr);
        } else if address == 0x14 {
            self.regs.burst = value.apply(self.regs.burst);
        } else if address == 0x18 {
            self.regs.v_sync = value.apply(self.regs.v_sync);
        } else if address == 0x1c {
            self.regs.h_sync = value.apply(self.regs.h_sync);
        } else if address == 0x20 {
            self.regs.h_sync_leap = value.apply(self.regs.h_sync_leap);
        } else if address == 0x24 {
            self.regs.h_video = value.apply(self.regs.h_video);
        } else if address == 0x28 {
            self.regs.v_video = value.apply(self.regs.v_video);
        } else if address == 0x2c {
            self.regs.v_burst = value.apply(self.regs.v_burst);
        } else if address == 0x30 {
            self.regs.x_scale = value.apply(self.regs.x_scale);
        } else if address == 0x34 {
            self.regs.y_scale = value.apply(self.regs.y_scale);
        } else if address == 0x38 {
            self.regs.test_addr = value.apply(self.regs.test_addr);
        } else {
            self.regs.staged_data = value.apply(self.regs.staged_data);
        }
    }
}

/// The register at a VI address.
pub open spec fn reg_at(regs: Registers, address: u32) -> u32 {
    if address == 0x00 {
        regs.ctrl
    } else if address == 0x04 {
        regs.origin
    } else if address == 0x08 {
        regs.width
    } else if address == 0x0c {
        regs.v_intr
    } else if address == 0x10 {
        regs.v_current
    } else if address == 0x14 {
        regs.burst
    } else if address == 0x18 {
        regs.v_sync
    } else if address == 0x1c {
        regs.h_sync
    } else if address == 0x20 {
        regs.h_sync_leap
    } else if address == 0x24 {
        regs.h_video
    } else if address == 0x28 {
        regs.v_video
    } else if address == 0x2c {
        regs.v_burst
    } else if address == 0x30 {
        regs.x_scale
    } else if address == 0x34 {
        regs.y_scale
    } else if address == 0x38 {
        regs.test_addr
    } else {
        regs.staged_data
    }
}

/// The registers with the one at `address` replaced.
pub open spec fn with_reg_at(regs: Registers, address: u32, value: u32) -> Registers {
    if address == 0x00 {
        Registers { ctrl: value, ..regs }
    } else if address == 0x04 {
        Registers { origin: value, ..regs }
    } else if address == 0x08 {
        Registers { width: value, ..regs }
    } else if address == 0x0c {
        Registers { v_intr: value, ..regs }
    } else if address == 0x10 {
        Registers { v_current: value, ..regs }
    } else if address == 0x14 {
        Registers { burst: value, ..regs }
    } else if address == 0x18 {
        Registers { v_sync: value, ..regs }
    } else if address == 0x1c {
        Registers { h_sync: value, ..regs }
    } else if address == 0x20 {
        Registers { h_sync_leap: value, ..regs }
    } else if address == 0x24 {
        Registers { h_video: value, ..regs }
    } else if address == 0x28 {
        Registers { v_video: value, ..regs }
    } else if address == 0x2c {
        Registers { v_burst: value, ..regs }
    } else if address == 0x30 {
        Registers { x_scale: value, ..regs }
    } else if address == 0x34 {
        Registers { y_scale: value, ..regs }
    } else if address == 0x38 {
        Registers { test_addr: value, ..regs }
    } else {
        Registers { staged_data: value, ..regs }
    }
}

} // verus!
