//! Texture layouts as encoded in RDP commands.

use vstd::prelude::*;

verus! {

/// The pixel layout field (3 bits) of texture and color image commands.
#[derive(Copy, Clone, Debug, PartialEq, Eq, Structural)]
pub enum TextureLayout {
    Rgba,
    Yuv,
    ColorIndex,
    IntensityAlpha,
    Intensity,
}

impl TextureLayout {
    /// The field value of a layout.
    pub open spec fn spec_bits(self) -> u64 {
        match self {
            TextureLayout::Rgba => 0,
            TextureLayout::Yuv => 1,
            TextureLayout::ColorIndex => 2,
            TextureLayout::IntensityAlpha => 3,
            TextureLayout::Intensity => 4,
        }
    }

    pub fn into_bits(self) -> (r: u64)
        ensures
            r == self.spec_bits(),
    {
        match self {
            TextureLayout::Rgba => 0,
            TextureLayout::Yuv => 1,
            TextureLayout::ColorIndex => 2,
            TextureLayout::IntensityAlpha => 3,
            TextureLayout::Intensity => 4,
        }
    }

    /// Decodes the low three bits of `value`; the values 5 to 7 are invalid.
    pub fn from_bits(value: u64) -> (r: Self)
        requires
            value & 7 <= 4,
        ensures
            r.spec_bits() == value & 7,
    {
        let v = value & 7;
        if v == 0 {
            TextureLayout::Rgba
        } else if v == 1 {
            TextureLayout::Yuv
        } else if v == 2 {
            TextureLayout::ColorIndex
        } else if v == 3 {
            TextureLayout::IntensityAlpha
        } else {
            TextureLayout::Intensity
        }
    }
}

impl Default for TextureLayout {
    fn default() -> (r: Self)
        ensures
            r == TextureLayout::Rgba,
    {
        TextureLayout::Rgba
    }
}

/// Decoding the field value of a layout gives the layout back, and
/// distinct layouts have distinct field values.
pub proof fn lemma_layout_bits_roundtrip(layout: TextureLayout, other: TextureLayout)
    ensures
        layout.spec_bits() & 7 == layout.spec_bits(),
        layout.spec_bits() <= 4,
        layout.spec_bits() == other.spec_bits() ==> layout == other,
{
    let b = layout.spec_bits();
    assert(b == 0 || b == 1 || b == 2 || b == 3 || b == 4);
    assert(0u64 & 7 == 0 && 1u64 & 7 == 1 && 2u64 & 7 == 2 && 3u64 & 7 == 3 && 4u64 & 7 == 4)
        by (bit_vector);
}

} // verus!
