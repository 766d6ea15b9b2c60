//! The RDP texture commands: SET_TEXTURE_IMAGE, SET_TILE, SET_TILE_SIZE,
//! LOAD_TILE, LOAD_BLOCK and SYNC_TILE. Each decodes its command word and
//! hands the fields to TMEM.

use super::field;
use crate::rdp::engine::primitive::TextureLayout;
use crate::rdp::engine::tmem::format::TextureFormat;
use crate::rdp::engine::tmem::{
    load_tile_fits, SetTileParams, TextureImage, TileRect, Tmem, TmemView,
};
use vstd::prelude::*;

verus! {

/// The texel layout that a 3-bit format field (0 to 4) names.
pub open spec fn layout_of(v: u64) -> TextureLayout {
    if v == 0 {
        TextureLayout::Rgba
    } else if v == 1 {
        TextureLayout::Yuv
    } else if v == 2 {
        TextureLayout::ColorIndex
    } else if v == 3 {
        TextureLayout::IntensityAlpha
    } else {
        TextureLayout::Intensity
    }
}

/// The texture format in bits 51-55 of a texture command: the size in bits
/// 51-52, the layout in bits 53-55.
pub open spec fn format_of(cmd: u64) -> TextureFormat {
    TextureFormat(layout_of(field(cmd, 53, 7)), field(cmd, 51, 3) as u32)
}

/// Whether the layout field of a texture command is valid (0 to 4).
pub open spec fn has_valid_layout(cmd: u64) -> bool {
    field(cmd, 53, 7) <= 4
}

/// The texture image of SET_TEXTURE_IMAGE: the RDRAM address in bits 0-25
/// and the width less one in bits 32-41.
pub open spec fn texture_image_of(cmd: u64) -> TextureImage {
    TextureImage {
        format: format_of(cmd),
        dram_addr: field(cmd, 0, 0x3ff_ffff) as usize,
        dram_width: field(cmd, 32, 0x3ff) as usize,
    }
}

/// The tile that SET_TILE, SET_TILE_SIZE and the loads name (bits 24-26).
pub open spec fn tile_of(cmd: u64) -> u32 {
    field(cmd, 24, 7) as u32
}

/// The rectangle of SET_TILE_SIZE and LOAD_TILE, in quarter texels: `sl`
/// (bits 44-55) and `tl` (bits 32-43) at the top left, `sh` (bits 12-23)
/// and `th` (bits 0-11) at the bottom right.
pub open spec fn tile_rect_of(cmd: u64) -> TileRect {
    TileRect {
        xh: field(cmd, 44, 0xfff) as u32,
        yh: field(cmd, 32, 0xfff) as u32,
        xl: field(cmd, 12, 0xfff) as u32,
        yl: field(cmd, 0, 0xfff) as u32,
    }
}

fn layout(cmd: u64) -> (r: TextureLayout)
    requires
        has_valid_layout(cmd),
    ensures
        r == layout_of(field(cmd, 53, 7)),
{
    let l = TextureLayout::from_bits(cmd >> 53u64);
    proof {
        assert(((cmd >> 53u64) & 7) == field(cmd, 53, 7));
    }
    l
}

fn format(cmd: u64) -> (r: TextureFormat)
    requires
        has_valid_layout(cmd),
    ensures
        r == format_of(cmd),
{
    proof {
        super::lemma_fields(cmd);
    }
    TextureFormat::from((layout(cmd), ((cmd >> 51u64) & 3) as u32))
}

fn tile_rect(cmd: u64) -> (r: TileRect)
    ensures
        r == tile_rect_of(cmd),
        r.wf(),
{
    proof {
        super::lemma_fields(cmd);
    }
    TileRect {
        xh: ((cmd >> 44u64) & 0xfff) as u32,
        yh: ((cmd >> 32u64) & 0xfff) as u32,
        xl: ((cmd >> 12u64) & 0xfff) as u32,
        yl: (cmd & 0xfff) as u32,
    }
}

fn tile(cmd: u64) -> (r: u32)
    ensures
        r == tile_of(cmd),
        r < 8,
{
    proof {
        super::lemma_fields(cmd);
    }
    ((cmd >> 24u64) & 7) as u32
}

/// SET_TEXTURE_IMAGE: TMEM takes the texture image that later loads read.
pub fn set_texture_image(tmem: &mut Tmem, cmd: u64)
    requires
        has_valid_layout(cmd),
    ensures
        final(tmem)@ == (TmemView { texture_image: texture_image_of(cmd), ..old(tmem)@ }),
{
    proof {
        super::lemma_fields(cmd);
    }
    let image = TextureImage {
        format: format(cmd),
        dram_addr: (cmd & 0x3ff_ffff) as usize,
        dram_width: ((cmd >> 32u64) & 0x3ff) as usize,
    };
    tmem.set_texture_image(image);
}

/// SET_TILE: the tile takes its format and its TMEM address (bits 32-40).
pub fn set_tile(tmem: &mut Tmem, cmd: u64)
    requires
        old(tmem).wf(),
        has_valid_layout(cmd),
    ensures
        final(tmem).wf(),
        final(tmem)@ == (TmemView {
            tiles: old(tmem)@.tiles.update(
                tile_of(cmd) as int,
                crate::rdp::engine::tmem::TileDescriptor {
                    format: format_of(cmd),
                    tmem_addr: field(cmd, 32, 0x1ff) as u32,
                    ..old(tmem)@.tiles[tile_of(cmd) as int]
                },
            ),
            ..old(tmem)@
        }),
{
    proof {
        super::lemma_fields(cmd);
    }
    let params = SetTileParams { format: format(cmd), tmem_addr: ((cmd >> 32u64) & 0x1ff) as u32 };
    tmem.set_tile(tile(cmd), params);
}

/// SET_TILE_SIZE: the tile takes its extent.
pub fn set_tile_size(tmem: &mut Tmem, cmd: u64)
    requires
        old(tmem).wf(),
    ensures
        final(tmem).wf(),
        final(tmem)@ == (TmemView {
            tiles: old(tmem)@.tiles.update(
                tile_of(cmd) as int,
                crate::rdp::engine::tmem::TileDescriptor {
                    rect: crate::rdp::engine::tmem::sized_rect(tile_rect_of(cmd)),
                    ..old(tmem)@.tiles[tile_of(cmd) as int]
                },
            ),
            ..old(tmem)@
        }),
{
    let rect = tile_rect(cmd);
    tmem.set_tile_size(tile(cmd), &rect);
}

/// LOAD_TILE: loads the rectangle of the command into the tile.
pub fn load_tile(tmem: &mut Tmem, rdram: &[u8], cmd: u64)
    requires
        old(tmem).wf(),
        old(tmem)@.texture_image.format.1 <= 3,
        (old(tmem)@.texture_image.dram_width + 1) * 32 <= usize::MAX,
        load_tile_fits(old(tmem)@, rdram@, tile_of(cmd) as int, tile_rect_of(cmd)),
    ensures
        final(tmem).wf(),
        crate::rdp::engine::tmem::load_tile_post(
            old(tmem)@,
            final(tmem)@,
            rdram@,
            tile_of(cmd) as int,
            tile_rect_of(cmd),
        ),
{
    let rect = tile_rect(cmd);
    tmem.load_tile(tile(cmd), rdram, &rect);
}

/// LOAD_BLOCK: loads the texture image into the tile word after word; bits
/// 0-11 give the line step per word.
pub fn load_block(tmem: &mut Tmem, rdram: &[u8], cmd: u64)
    requires
        old(tmem).wf(),
        old(tmem)@.tiles[tile_of(cmd) as int].tmem_addr <= crate::rdp::engine::tmem::TMEM_SIZE,
        old(tmem)@.texture_image.dram_addr <= rdram@.len(),
        (rdram@.len() - old(tmem)@.texture_image.dram_addr) % 8 == 0,
        old(tmem)@.texture_image.dram_addr % 8 == 0,
    ensures
        final(tmem).wf(),
        crate::rdp::engine::tmem::load_block_post(
            old(tmem)@,
            final(tmem)@,
            rdram@,
            tile_of(cmd) as int,
            tile_rect_of(cmd).yh,
            tile_rect_of(cmd).yl,
        ),
{
    let rect = tile_rect(cmd);
    tmem.load_block(tile(cmd), rdram, rect.xh, rect.yh, rect.xl, rect.yl);
}

/// SYNC_TILE: nothing to wait for here.
pub fn sync_tile(_tmem: &mut Tmem, _cmd: u64)
    ensures
        final(_tmem)@ == old(_tmem)@,
{
}

} // verus!
