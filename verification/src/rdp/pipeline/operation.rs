//! RDP commands as the first pipeline decodes them.

use super::Pipeline;
use vstd::prelude::*;

verus! {

/// FILL_TRIANGLE: the triangle's Y bounds, tile, level and direction;
/// three edge coefficient words follow it in the command stream.
#[derive(Copy, Clone, Debug, PartialEq, Eq, Structural)]
pub struct FillTriangle {
    word: u64,
}

/// SET_TEXTURE_IMAGE: the RDRAM address, width, size and format of the
/// texture source.
#[derive(Copy, Clone, Debug, PartialEq, Eq, Structural)]
pub struct SetTextureImage {
    word: u64,
}

/// SET_TILE: the parameters of one of the eight tile descriptors.
#[derive(Copy, Clone, Debug, PartialEq, Eq, Structural)]
pub struct SetTile {
    word: u64,
}

impl FillTriangle {
    pub closed spec fn spec_word(&self) -> u64 {
        self.word
    }

    pub fn from(word: u64) -> (r: Self)
        ensures
            r.spec_word() == word,
    {
        FillTriangle { word }
    }

    /// Y coordinate of the major edge's top (bits 0-14).
    pub fn yh(&self) -> (r: u16)
        ensures
            r == self.spec_word() & 0x7fff,
    {
        let w = self.word;
        let v = w & 0x7fff;
        proof {
            crate::bits::lemma_mask_bounds();
        }
        assert(v <= 0x7fff);
        v as u16
    }

    /// Y coordinate of the mid vertex (bits 16-30).
    pub fn ym(&self) -> (r: u16)
        ensures
            r == (self.spec_word() >> 16) & 0x7fff,
    {
        let w = self.word;
        let v = (w >> 16) & 0x7fff;
        proof {
            crate::bits::lemma_mask_bounds();
        }
        assert(v <= 0x7fff);
        v as u16
    }

    /// Y coordinate of the bottom (bits 32-46).
    pub fn yl(&self) -> (r: u16)
        ensures
            r == (self.spec_word() >> 32) & 0x7fff,
    {
        let w = self.word;
        let v = (w >> 32) & 0x7fff;
        proof {
            crate::bits::lemma_mask_bounds();
        }
        assert(v <= 0x7fff);
        v as u16
    }

    /// The tile (bits 48-50).
    pub fn tile(&self) -> (r: u8)
        ensures
            r == (self.spec_word() >> 48) & 7,
    {
        let w = self.word;
        let v = (w >> 48) & 7;
        proof {
            crate::bits::lemma_mask_bounds();
        }
        assert(v <= 7);
        v as u8
    }

    /// The level (bits 51-53).
    pub fn level(&self) -> (r: u8)
        ensures
            r == (self.spec_word() >> 51) & 7,
    {
        let w = self.word;
        let v = (w >> 51) & 7;
        proof {
            crate::bits::lemma_mask_bounds();
        }
        assert(v <= 7);
        v as u8
    }

    /// The direction flag (bit 55).
    pub fn dir(&self) -> (r: bool)
        ensures
            r == ((self.spec_word() >> 55) & 1 == 1),
    {
        (self.word >> 55) & 1 == 1
    }

    /// Consumes the three edge coefficient words (low, high, mid) that
    /// follow the command, returning them in that order.
    pub fn exec(&self, pipeline: &mut Pipeline, _rdram: &mut [u8]) -> (r: (u64, u64, u64))
        requires
            old(pipeline).spec_commands().len() >= 3,
        ensures
            r == (
                old(pipeline).spec_commands()[0],
                old(pipeline).spec_commands()[1],
                old(pipeline).spec_commands()[2],
            ),
            final(pipeline).spec_commands() == old(pipeline).spec_commands().subrange(
                3,
                old(pipeline).spec_commands().len() as int,
            ),
            final(_rdram)@ == old(_rdram)@,
    {
        let low = pipeline.next_word();
        let high = pipeline.next_word();
        let mid = pipeline.next_word();
        assert(pipeline.spec_commands() =~= old(pipeline).spec_commands().subrange(
            3,
            old(pipeline).spec_commands().len() as int,
        ));
        (low, high, mid)
    }
}

impl SetTextureImage {
    pub closed spec fn spec_word(&self) -> u64 {
        self.word
    }

    pub fn from(word: u64) -> (r: Self)
        ensures
            r.spec_word() == word,
    {
        SetTextureImage { word }
    }

    /// Has no effect on the pipeline's state.
    pub fn exec(&self, pipeline: &mut Pipeline, _rdram: &mut [u8])
        ensures
            final(pipeline).spec_commands() == old(pipeline).spec_commands(),
            final(_rdram)@ == old(_rdram)@,
    {
    }
}

impl SetTile {
    pub closed spec fn spec_word(&self) -> u64 {
        self.word
    }

    pub fn from(word: u64) -> (r: Self)
        ensures
            r.spec_word() == word,
    {
        SetTile { word }
    }

    /// Has no effect on the pipeline's state.
    pub fn exec(&self, pipeline: &mut Pipeline, _rdram: &mut [u8])
        ensures
            final(pipeline).spec_commands() == old(pipeline).spec_commands(),
            final(_rdram)@ == old(_rdram)@,
    {
    }
}

} // verus!
