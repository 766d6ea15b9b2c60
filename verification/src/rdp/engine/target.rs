//! The render target: where the RDP's color image lives in RDRAM, its
//! format, the size that the scissor gives the rendered image, and the
//! copy of rendered pixels back into RDRAM.
//!
//! The renderer keeps one output texture; `prepare` decides whether it
//! has to be made anew and at what size.

use crate::video::{be_u16, spec_decode_rgba16};
use vstd::prelude::*;

verus! {

#[derive(Copy, Clone, Debug, PartialEq, Eq, Structural)]
pub enum OutputFormat {
    Index8,
    Rgba16,
    Rgba32,
}

/// What the renderer has to do with its output texture before drawing.
#[derive(Copy, Clone, Debug, PartialEq, Eq, Structural)]
pub enum Prepare {
    /// The texture it has fits.
    Keep,
    /// Make a texture of this width and height.
    Create(u32, u32),
    /// There is nothing to draw into: drop the texture.
    Release,
}

pub struct TargetView {
    pub output: Option<(u32, u32)>,
    pub output_format: OutputFormat,
    pub texture_width: u32,
    pub texture_height: u32,
    pub sync_dram_addr: u32,
    pub sync_width: u32,
    pub fill_color: u32,
}

pub struct Target {
    output: Option<(u32, u32)>,
    output_format: OutputFormat,
    texture_width: u32,
    texture_height: u32,
    sync_dram_addr: u32,
    sync_width: u32,
    fill_color: u32,
}

impl View for Target {
    type V = TargetView;

    closed spec fn view(&self) -> TargetView {
        TargetView {
            output: self.output,
            output_format: self.output_format,
            texture_width: self.texture_width,
            texture_height: self.texture_height,
            sync_dram_addr: self.sync_dram_addr,
            sync_width: self.sync_width,
            fill_color: self.fill_color,
        }
    }
}

/// The whole pixels between two coordinates in quarter pixels, zero when
/// the second is not past the first.
pub open spec fn span(low: u32, high: u32) -> u32 {
    if high >= low {
        ((high - low) / 4) as u32
    } else {
        0
    }
}

/// What `prepare` decides for the state `v`.
pub open spec fn prepare_action(v: TargetView) -> Prepare {
    if v.texture_width != 0 && v.texture_height != 0 {
        let update = match v.output {
            Some((width, height)) => v.texture_width != width || v.texture_height != height,
            None => true,
        };
        if update {
            Prepare::Create(v.sync_width, v.texture_height)
        } else {
            Prepare::Keep
        }
    } else {
        Prepare::Release
    }
}

/// The 16-bit RGBA5551 value of an RGBA8 pixel.
pub open spec fn rgba16(r: u8, g: u8, b: u8, a: u8) -> u16 {
    ((((r >> 3u8) as u16) << 11u16) | (((g >> 3u8) as u16) << 6u16) | (((b >> 3u8) as u16) << 1u16)
        | ((a >> 7u8) as u16)) as u16
}

/// Byte `k` of the big-endian RGBA5551 image of the RGBA8 pixels.
pub open spec fn rgba16_byte(pixels: Seq<u8>, k: int) -> u8 {
    let p = k / 2;
    let color = rgba16(pixels[4 * p], pixels[4 * p + 1], pixels[4 * p + 2], pixels[4 * p + 3]);
    if k % 2 == 0 {
        (color >> 8u16) as u8
    } else {
        color as u8
    }
}

/// The bit facts behind the RGBA5551 round trip.
proof fn lemma_rgba16_bits()
    by (bit_vector)
    ensures
        forall|v: u16|
            #[trigger] rgba16(
                ((((v >> 11) as u8) & 31) << 3) as u8,
                ((((v >> 6) as u8) & 31) << 3) as u8,
                ((((v >> 1) as u8) & 31) << 3) as u8,
                (((v as u8) & 1) * 255) as u8,
            ) == v,
        forall|hi: u8, lo: u8|
            #![trigger ((hi as u16) * 256 + (lo as u16))]
            (((((hi as u16) * 256 + (lo as u16)) as u16) >> 8u16) as u8) == hi && ((((hi as u16)
                * 256 + (lo as u16)) as u16) as u8) == lo,
{
}

/// Encoding the RGBA8 decoding of an RGBA5551 pixel gives the pixel back.
pub proof fn lemma_rgba16_round_trip(value: u16)
    ensures
        rgba16(
            spec_decode_rgba16(value)[0],
            spec_decode_rgba16(value)[1],
            spec_decode_rgba16(value)[2],
            spec_decode_rgba16(value)[3],
        ) == value,
{
    lemma_rgba16_bits();
}

/// The RGBA5551 image of the RGBA8 decoding of big-endian RGBA5551 pixels
/// `data` is `data` itself: what `copy_to_rdram` writes in RGBA16 mode for
/// decoded pixels are the pixels' own bytes.
pub proof fn lemma_rgba16_image_of_decoded(data: Seq<u8>, pixels: Seq<u8>)
    requires
        data.len() % 2 == 0,
        pixels.len() == 2 * data.len(),
        forall|j: int|
            0 <= j < pixels.len() ==> #[trigger] pixels[j] == spec_decode_rgba16(
                be_u16(data[2 * (j / 4)], data[2 * (j / 4) + 1]),
            )[j % 4],
    ensures
        forall|k: int| 0 <= k < data.len() ==> #[trigger] rgba16_byte(pixels, k) == data[k],
{
    lemma_rgba16_bits();
    assert forall|k: int| 0 <= k < data.len() implies #[trigger] rgba16_byte(pixels, k) == data[k] by {
        let p = k / 2;
        let hi = data[2 * p];
        let lo = data[2 * p + 1];
        let v = be_u16(hi, lo);
        assert(2 * p + 1 < data.len());
        assert forall|m: int| 0 <= m < 4 implies pixels[4 * p + m] == spec_decode_rgba16(v)[m] by {
            assert((4 * p + m) / 4 == p);
            assert((4 * p + m) % 4 == m);
        }
        lemma_rgba16_round_trip(v);
        assert(rgba16(pixels[4 * p], pixels[4 * p + 1], pixels[4 * p + 2], pixels[4 * p + 3]) == v);
        assert(((hi as u16) * 256 + (lo as u16)) as u16 == v);
    }
}

impl Target {
    pub fn new() -> (r: Self)
        ensures
            r@ == (TargetView {
                output: None,
                output_format: OutputFormat::Index8,
                texture_width: 0,
                texture_height: 0,
                sync_dram_addr: 0,
                sync_width: 0,
                fill_color: 0,
            }),
    {
        Target {
            output: None,
            output_format: OutputFormat::Index8,
            texture_width: 0,
            texture_height: 0,
            sync_dram_addr: 0,
            sync_width: 0,
            fill_color: 0,
        }
    }

    /// Sizes the rendered image from the scissor rectangle, given in
    /// quarter pixels.
    pub fn set_scissor(&mut self, xh: u32, yh: u32, xl: u32, yl: u32)
        ensures
            final(self)@ == (TargetView {
                texture_width: span(xh, xl),
                texture_height: span(yh, yl),
                ..old(self)@
            }),
    {
        self.texture_width = if xl >= xh {
            (xl - xh) / 4
        } else {
            0
        };
        self.texture_height = if yl >= yh {
            (yl - yh) / 4
        } else {
            0
        };
    }

    /// Sets where and in which format the rendered image goes to RDRAM.
    pub fn set_color_image(&mut self, dram_addr: u32, width: u32, format: OutputFormat)
        ensures
            final(self)@ == (TargetView {
                sync_dram_addr: dram_addr,
                sync_width: width,
                output_format: format,
                ..old(self)@
            }),
    {
        self.sync_dram_addr = dram_addr;
        self.sync_width = width;
        self.output_format = format;
    }

    /// The fill color as the SET_FILL_COLOR command gave it.
    pub fn fill_color(&self) -> (r: u32)
        ensures
            r == self@.fill_color,
    {
        self.fill_color
    }

    pub fn set_fill_color(&mut self, word: u32)
        ensures
            final(self)@ == (TargetView { fill_color: word, ..old(self)@ }),
    {
        self.fill_color = word;
    }

    pub fn output_format(&self) -> (r: OutputFormat)
        ensures
            r == self@.output_format,
    {
        self.output_format
    }

    /// Decides what becomes of the output texture: a new one, of the sync
    /// width by the image height, whenever the image size differs from
    /// the texture's; none when the image is empty.
    pub fn prepare(&mut self) -> (r: Prepare)
        ensures
            r == prepare_action(old(self)@),
            final(self)@ == (TargetView {
                output: match r {
                    Prepare::Create(width, height) => Some((width, height)),
                    Prepare::Keep => old(self)@.output,
                    Prepare::Release => None,
                },
                ..old(self)@
            }),
    {
        if self.texture_width != 0 && self.texture_height != 0 {
            let update = match self.output {
                Some((width, height)) => self.texture_width != width || self.texture_height
                    != height,
                None => true,
            };
            if update {
                self.output = Some((self.sync_width, self.texture_height));
                Prepare::Create(self.sync_width, self.texture_height)
            } else {
                Prepare::Keep
            }
        } else {
            self.output = None;
            Prepare::Release
        }
    }

    /// Copies rendered RGBA8 pixels to the color image in RDRAM, converted
    /// to its format.
    pub fn copy_to_rdram(&self, rdram: &mut Vec<u8>, pixel_data: &Vec<u8>)
        requires
            self@.output_format != OutputFormat::Index8,
            self@.output_format == OutputFormat::Rgba16 ==> pixel_data@.len() % 4 < 2
                && self@.sync_dram_addr + pixel_data@.len() / 2 <= old(rdram)@.len(),
            self@.output_format == OutputFormat::Rgba32 ==> self@.sync_dram_addr
                + pixel_data@.len() <= old(rdram)@.len(),
        ensures
            final(rdram)@.len() == old(rdram)@.len(),
            ({
                let start = self@.sync_dram_addr as int;
                let n: int = if self@.output_format == OutputFormat::Rgba16 {
                    (pixel_data@.len() / 2) as int
                } else {
                    pixel_data@.len() as int
                };
                forall|i: int|
                    0 <= i < old(rdram)@.len() ==> #[trigger] final(rdram)@[i] == if start <= i
                        < start + n {
                        if self@.output_format == OutputFormat::Rgba16 {
                            rgba16_byte(pixel_data@, i - start)
                        } else {
                            pixel_data@[i - start]
                        }
                    } else {
                        old(rdram)@[i]
                    }
            }),
    {
        let start = self.sync_dram_addr as usize;
        let total = rdram.len();
        let plen = pixel_data.len();
        if self.output_format == OutputFormat::Rgba16 {
            let n = plen / 2;
            let mut k: usize = 0;
            while k < n
                invariant
                    k <= n,
                    n == pixel_data@.len() / 2,
                    plen == pixel_data@.len(),
                    total == rdram@.len(),
                    pixel_data@.len() % 4 < 2,
                    start + n <= rdram@.len(),
                    rdram@.len() == old(rdram)@.len(),
                    forall|i: int|
                        0 <= i < old(rdram)@.len() ==> #[trigger] rdram@[i] == if start <= i < start
                            + k {
                            rgba16_byte(pixel_data@, i - start)
                        } else {
                            old(rdram)@[i]
                        },
                decreases n - k,
            {
                let p = k / 2;
                assert(4 * p + 3 < plen) by (nonlinear_arith)
                    requires
                        k < n,
                        n == plen / 2,
                        plen % 4 < 2,
                        p == k / 2,
                ;
                let color: u16 = ((pixel_data[4 * p] as u16 >> 3u16) << 11u16) | ((pixel_data[4 * p
                    + 1] as u16 >> 3u16) << 6u16) | ((pixel_data[4 * p + 2] as u16 >> 3u16) << 1u16)
                    | (pixel_data[4 * p + 3] as u16 >> 7u16);
                let (c0, c1, c2, c3) = (pixel_data[4 * p], pixel_data[4 * p + 1], pixel_data[4 * p + 2], pixel_data[4 * p + 3]);
                assert(color == rgba16(c0, c1, c2, c3)) by (bit_vector)
                    requires
                        color == ((((c0 as u16) >> 3u16) << 11u16) | (((c1 as u16) >> 3u16) << 6u16)
                            | (((c2 as u16) >> 3u16) << 1u16) | ((c3 as u16) >> 7u16)),
                ;
                let byte = if k % 2 == 0 {
                    (color >> 8u16) as u8
                } else {
                    color as u8
                };
                rdram.set(start + k, byte);
                k = k + 1;
            }
        } else {
            let n = plen;
            let mut k: usize = 0;
            while k < n
                invariant
                    k <= n,
                    n == pixel_data@.len(),
                    total == rdram@.len(),
                    start + n <= rdram@.len(),
                    rdram@.len() == old(rdram)@.len(),
                    forall|i: int|
                        0 <= i < old(rdram)@.len() ==> #[trigger] rdram@[i] == if start <= i < start
                            + k {
                            pixel_data@[i - start]
                        } else {
                            old(rdram)@[i]
                        },
                decreases n - k,
            {
                rdram.set(start + k, pixel_data[k]);
                k = k + 1;
            }
        }
    }
}

} // verus!
