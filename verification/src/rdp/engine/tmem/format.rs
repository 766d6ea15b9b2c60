//! Texture formats and their decoding into RGBA8888.

use crate::rdp::engine::primitive::TextureLayout;
use crate::video::{be_u16, decode_rgba16, spec_decode_rgba16};
use vstd::prelude::*;

verus! {

/// A texture format: a pixel layout and a size code (0: 4, 1: 8, 2: 16,
/// 3: 32 bits per pixel).
#[derive(Copy, Clone, Debug, PartialEq, Eq, Structural)]
pub struct TextureFormat(pub TextureLayout, pub u32);

/// Whether `decode` supports a format.
pub open spec fn is_decodable(format: TextureFormat) -> bool {
    match format.0 {
        TextureLayout::Rgba => format.1 == 3 || format.1 == 2,
        TextureLayout::IntensityAlpha => format.1 == 2 || format.1 == 1 || format.1 == 0,
        TextureLayout::Intensity => format.1 == 1 || format.1 == 0,
        _ => false,
    }
}

/// The RGBA8888 bytes of a texture of format `format` stored in `input`.
pub open spec fn spec_decode(format: TextureFormat, input: Seq<u8>) -> Seq<u8> {
    let n = input.len();
    match format {
        TextureFormat(TextureLayout::Rgba, 3) => input,
        TextureFormat(TextureLayout::Rgba, 2) => Seq::new(
            (n / 2) * 4,
            |j: int| spec_decode_rgba16(be_u16(input[2 * (j / 4)], input[2 * (j / 4) + 1]))[j % 4],
        ),
        TextureFormat(TextureLayout::IntensityAlpha, 2) => Seq::new(
            (n / 2) * 4,
            |j: int|
                if j % 4 == 3 {
                    input[2 * (j / 4) + 1]
                } else {
                    input[2 * (j / 4)]
                },
        ),
        TextureFormat(TextureLayout::IntensityAlpha, 1) => Seq::new(
            n * 4,
            |j: int|
                if j % 4 == 3 {
                    (input[j / 4] << 4) as u8
                } else {
                    input[j / 4] & 0xf0
                },
        ),
        TextureFormat(TextureLayout::IntensityAlpha, 0) => Seq::new(
            n * 8,
            |j: int| ia4_component(input[j / 8], j % 8),
        ),
        TextureFormat(TextureLayout::Intensity, 1) => Seq::new(n * 4, |j: int| input[j / 4]),
        TextureFormat(TextureLayout::Intensity, 0) => Seq::new(
            n * 8,
            |j: int|
                if j % 8 < 4 {
                    input[j / 8] & 0xf0
                } else {
                    (input[j / 8] << 4) as u8
                },
        ),
        _ => Seq::empty(),
    }
}

/// An IA8 texel decodes to one RGBA8888 pixel: the byte's high nibble is
/// the intensity, which red, green and blue take as their high nibble,
/// and its low nibble is the alpha, taken as the alpha's high nibble.
pub proof fn lemma_ia8_texel(input: Seq<u8>, i: int)
    requires
        0 <= i < input.len(),
    ensures
        spec_decode(TextureFormat(TextureLayout::IntensityAlpha, 1), input).len() == 4 * input.len(),
        ({
            let px = spec_decode(TextureFormat(TextureLayout::IntensityAlpha, 1), input);
            let intensity = (input[i] as int / 16) * 16;
            let alpha = (input[i] as int % 16) * 16;
            &&& px[4 * i] as int == intensity
            &&& px[4 * i + 1] as int == intensity
            &&& px[4 * i + 2] as int == intensity
            &&& px[4 * i + 3] as int == alpha
        }),
{
    crate::bits::lemma_law_bits();
    let b = input[i];
    assert((4 * i) / 4 == i && (4 * i + 1) / 4 == i && (4 * i + 2) / 4 == i && (4 * i + 3) / 4 == i);
    assert((4 * i) % 4 == 0 && (4 * i + 1) % 4 == 1 && (4 * i + 2) % 4 == 2 && (4 * i + 3) % 4 == 3);
    assert(b & 0xf0u8 == b - b % 16);
    assert(((b << 4u8) as u8) == (b % 16) * 16);
}

/// Component `k` of the two RGBA pixels that an IA4 byte holds.
pub open spec fn ia4_component(byte: u8, k: int) -> u8 {
    if k < 3 {
        byte & 0xe0
    } else if k == 3 {
        (((byte >> 4) & 1) * 255) as u8
    } else if k < 7 {
        ((byte & 0x0e) << 4) as u8
    } else {
        ((byte & 1) * 255) as u8
    }
}

impl TextureFormat {
    pub fn from(value: (TextureLayout, u32)) -> (r: Self)
        ensures
            r == TextureFormat(value.0, value.1),
    {
        TextureFormat(value.0, value.1)
    }

    /// The bits per pixel of the size code: 4 shifted left by it (so 4, 8,
    /// 16 and 32 for the four codes the RDP defines).
    pub fn bits_per_pixel(&self) -> (r: usize)
        requires
            self.1 < usize::BITS,
        ensures
            r == 4usize << self.1,
            self.1 <= 3 ==> r == 4 * pow2_u(self.1),
    {
        assert(4usize << 0u32 == 4 && 4usize << 1u32 == 8 && 4usize << 2u32 == 16 && 4usize << 3u32
            == 32) by (bit_vector);
        4usize << self.1
    }

    /// Decodes the texture data in `input` to RGBA8888 bytes.
    pub fn decode(&self, input: &[u8]) -> (r: Vec<u8>)
        requires
            is_decodable(*self),
        ensures
            r@ == spec_decode(*self, input@),
    {
        match self {
            TextureFormat(TextureLayout::Rgba, 3) => {
                let mut out: Vec<u8> = Vec::new();
                out.extend_from_slice(input);
                assert(out@ =~= input@);
                out
            },
            TextureFormat(TextureLayout::Rgba, 2) => decode_rgba16_texture(input),
            TextureFormat(TextureLayout::IntensityAlpha, 2) => decode_ia16(input),
            TextureFormat(TextureLayout::IntensityAlpha, 1) => decode_ia8(input),
            TextureFormat(TextureLayout::IntensityAlpha, 0) => decode_ia4(input),
            TextureFormat(TextureLayout::Intensity, 1) => decode_i8(input),
            _ => decode_i4(input),
        }
    }
}

/// 2 to the power `n`, for the size codes.
pub open spec fn pow2_u(n: u32) -> usize {
    if n == 0 {
        1
    } else if n == 1 {
        2
    } else if n == 2 {
        4
    } else {
        8
    }
}

impl Default for TextureFormat {
    fn default() -> (r: Self)
        ensures
            r == TextureFormat(TextureLayout::Rgba, 3),
    {
        TextureFormat(TextureLayout::Rgba, 3)
    }
}

fn decode_rgba16_texture(input: &[u8]) -> (r: Vec<u8>)
    ensures
        r@ == spec_decode(TextureFormat(TextureLayout::Rgba, 2), input@),
{
    let ghost spec = spec_decode(TextureFormat(TextureLayout::Rgba, 2), input@);
    let count = input.len() / 2;
    let mut out: Vec<u8> = Vec::new();
    let mut i: usize = 0;
    while i < count
        invariant
            count == input@.len() / 2,
            input@.len() <= usize::MAX,
            i <= count,
            spec.len() == count * 4,
            spec == spec_decode(TextureFormat(TextureLayout::Rgba, 2), input@),
            out@ == spec.subrange(0, 4 * i as int),
        decreases count - i,
    {
        let pixel = decode_rgba16(&input[2 * i..2 * i + 2]);
        out.push(pixel[0]);
        out.push(pixel[1]);
        out.push(pixel[2]);
        out.push(pixel[3]);
        i = i + 1;
        assert(out@ =~= spec.subrange(0, 4 * i as int));
    }
    assert(out@ =~= spec);
    out
}

fn decode_ia16(input: &[u8]) -> (r: Vec<u8>)
    ensures
        r@ == spec_decode(TextureFormat(TextureLayout::IntensityAlpha, 2), input@),
{
    let ghost spec = spec_decode(TextureFormat(TextureLayout::IntensityAlpha, 2), input@);
    let count = input.len() / 2;
    let mut out: Vec<u8> = Vec::new();
    let mut i: usize = 0;
    while i < count
        invariant
            count == input@.len() / 2,
            input@.len() <= usize::MAX,
            i <= count,
            spec.len() == count * 4,
            spec == spec_decode(TextureFormat(TextureLayout::IntensityAlpha, 2), input@),
            out@ == spec.subrange(0, 4 * i as int),
        decreases count - i,
    {
        let intensity = input[2 * i];
        let alpha = input[2 * i + 1];
        out.push(intensity);
        out.push(intensity);
        out.push(intensity);
        out.push(alpha);
        i = i + 1;
        assert(out@ =~= spec.subrange(0, 4 * i as int));
    }
    assert(out@ =~= spec);
    out
}

fn decode_ia8(input: &[u8]) -> (r: Vec<u8>)
    ensures
        r@ == spec_decode(TextureFormat(TextureLayout::IntensityAlpha, 1), input@),
{
    let ghost spec = spec_decode(TextureFormat(TextureLayout::IntensityAlpha, 1), input@);
    let count = input.len();
    let mut out: Vec<u8> = Vec::new();
    let mut i: usize = 0;
    while i < count
        invariant
            count == input@.len(),
            input@.len() <= usize::MAX,
            i <= count,
            spec.len() == count * 4,
            spec == spec_decode(TextureFormat(TextureLayout::IntensityAlpha, 1), input@),
            out@ == spec.subrange(0, 4 * i as int),
        decreases count - i,
    {
        let byte = input[i];
        let intensity = byte & 0xf0;
        let alpha = byte << 4;
        out.push(intensity);
        out.push(intensity);
        out.push(intensity);
        out.push(alpha);
        i = i + 1;
        assert(out@ =~= spec.subrange(0, 4 * i as int));
    }
    assert(out@ =~= spec);
    out
}

fn decode_ia4(input: &[u8]) -> (r: Vec<u8>)
    ensures
        r@ == spec_decode(TextureFormat(TextureLayout::IntensityAlpha, 0), input@),
{
    let ghost spec = spec_decode(TextureFormat(TextureLayout::IntensityAlpha, 0), input@);
    let count = input.len();
    let mut out: Vec<u8> = Vec::new();
    let mut i: usize = 0;
    while i < count
        invariant
            count == input@.len(),
            input@.len() <= usize::MAX,
            i <= count,
            spec.len() == count * 8,
            spec == spec_decode(TextureFormat(TextureLayout::IntensityAlpha, 0), input@),
            out@ == spec.subrange(0, 8 * i as int),
        decreases count - i,
    {
        let byte = input[i];
        let high_i = byte & 0xe0;
        let hb = (byte >> 4) & 1;
        let lb = byte & 1;
        proof {
            crate::bits::lemma_mask_bounds();
        }
        assert(hb * 255 <= 255 && lb * 255 <= 255);
        let high_a = hb * 255;
        let low_i = (byte & 0x0e) << 4;
        let low_a = lb * 255;
        out.push(high_i);
        out.push(high_i);
        out.push(high_i);
        out.push(high_a);
        out.push(low_i);
        out.push(low_i);
        out.push(low_i);
        out.push(low_a);
        i = i + 1;
        assert(out@ =~= spec.subrange(0, 8 * i as int));
    }
    assert(out@ =~= spec);
    out
}

fn decode_i8(input: &[u8]) -> (r: Vec<u8>)
    ensures
        r@ == spec_decode(TextureFormat(TextureLayout::Intensity, 1), input@),
{
    let ghost spec = spec_decode(TextureFormat(TextureLayout::Intensity, 1), input@);
    let count = input.len();
    let mut out: Vec<u8> = Vec::new();
    let mut i: usize = 0;
    while i < count
        invariant
            count == input@.len(),
            input@.len() <= usize::MAX,
            i <= count,
            spec.len() == count * 4,
            spec == spec_decode(TextureFormat(TextureLayout::Intensity, 1), input@),
            out@ == spec.subrange(0, 4 * i as int),
        decreases count - i,
    {
        let byte = input[i];
        out.push(byte);
        out.push(byte);
        out.push(byte);
        out.push(byte);
        i = i + 1;
        assert(out@ =~= spec.subrange(0, 4 * i as int));
    }
    assert(out@ =~= spec);
    out
}

fn decode_i4(input: &[u8]) -> (r: Vec<u8>)
    ensures
        r@ == spec_decode(TextureFormat(TextureLayout::Intensity, 0), input@),
{
    let ghost spec = spec_decode(TextureFormat(TextureLayout::Intensity, 0), input@);
    let count = input.len();
    let mut out: Vec<u8> = Vec::new();
    let mut i: usize = 0;
    while i < count
        invariant
            count == input@.len(),
            input@.len() <= usize::MAX,
            i <= count,
            spec.len() == count * 8,
            spec == spec_decode(TextureFormat(TextureLayout::Intensity, 0), input@),
            out@ == spec.subrange(0, 8 * i as int),
        decreases count - i,
    {
        let byte = input[i];
        let high = byte & 0xf0;
        let low = byte << 4;
        out.push(high);
        out.push(high);
        out.push(high);
        out.push(high);
        out.push(low);
        out.push(low);
        out.push(low);
        out.push(low);
        i = i + 1;
        assert(out@ =~= spec.subrange(0, 8 * i as int));
    }
    assert(out@ =~= spec);
    out
}

} // verus!
