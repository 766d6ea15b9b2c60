use utopia::rdp::engine::command::texture;
use utopia::rdp::engine::primitive::TextureLayout;
use utopia::rdp::engine::tmem::format::TextureFormat;
use utopia::rdp::engine::tmem::{interleave, SetTileParams, TextureImage, TileRect, Tmem};

fn bytes(n: u8) -> Vec<u8> {
    (1..=n).collect()
}

#[test]
fn new_tmem_is_zeroed_with_default_tiles() {
    let tmem = Tmem::new();
    assert_eq!(tmem.data().len(), 512);
    assert!(tmem.data().iter().all(|w| *w == 0));
    let tile = tmem.tile(5);
    assert_eq!(tile.format, TextureFormat(TextureLayout::Rgba, 3));
    assert_eq!(tile.tmem_addr, 0);
    assert_eq!(tmem.texture_image().dram_width, 0);
}

#[test]
fn interleave_swaps_halves_on_odd_lines() {
    assert_eq!(interleave(0, 0x1122_3344_5566_7788), 0x1122_3344_5566_7788);
    assert_eq!(interleave(3, 0x1122_3344_5566_7788), 0x5566_7788_1122_3344);
    assert_eq!(interleave(3, interleave(3, 0xdead_beef_0123_4567)), 0xdead_beef_0123_4567);
}

#[test]
fn load_tile_interleaves_odd_lines() {
    let mut tmem = Tmem::new();
    tmem.set_texture_image(TextureImage {
        format: TextureFormat(TextureLayout::Rgba, 3),
        dram_addr: 0,
        dram_width: 1,
    });
    tmem.set_tile(2, SetTileParams { format: TextureFormat(TextureLayout::Rgba, 3), tmem_addr: 4 });
    let rdram = bytes(16);
    // two texels wide (quarter texels 0-4), lines 0 and 1
    tmem.load_tile(2, &rdram, &TileRect { xh: 0, yh: 0, xl: 4, yl: 4 });
    assert_eq!(tmem.data()[4], 0x0807_0605_0403_0201);
    assert_eq!(tmem.data()[5], 0x0c0b_0a09_100f_0e0d);
    assert_eq!(tmem.data()[3], 0);
    assert_eq!(tmem.data()[6], 0);
    assert_eq!(tmem.tile(2).rect, TileRect { xh: 0, yh: 0, xl: 8, yl: 8 });
}

#[test]
fn request_texture_undoes_interleaving() {
    let mut tmem = Tmem::new();
    tmem.set_texture_image(TextureImage {
        format: TextureFormat(TextureLayout::Rgba, 3),
        dram_addr: 0,
        dram_width: 1,
    });
    tmem.set_tile(0, SetTileParams { format: TextureFormat(TextureLayout::Rgba, 3), tmem_addr: 0 });
    let rdram = bytes(16);
    tmem.load_tile(0, &rdram, &TileRect { xh: 0, yh: 0, xl: 4, yl: 4 });
    let (texels, extent) = tmem.request_texture(0);
    assert_eq!(texels, bytes(16));
    assert_eq!(extent, (8, 8));
}

#[test]
fn request_texture_decodes_intensity() {
    let mut tmem = Tmem::new();
    tmem.set_texture_image(TextureImage {
        format: TextureFormat(TextureLayout::Intensity, 1),
        dram_addr: 0,
        dram_width: 7,
    });
    tmem.set_tile(1, SetTileParams { format: TextureFormat(TextureLayout::Intensity, 1), tmem_addr: 0 });
    let rdram = bytes(8);
    // eight texels wide, one line
    tmem.load_tile(1, &rdram, &TileRect { xh: 0, yh: 0, xl: 28, yl: 0 });
    let (texels, extent) = tmem.request_texture(1);
    assert_eq!(extent, (32, 4));
    let expected: Vec<u8> = (1..=8u8).flat_map(|b| [b; 4]).collect();
    assert_eq!(texels, expected);
}

#[test]
fn load_block_steps_lines() {
    let mut tmem = Tmem::new();
    tmem.set_texture_image(TextureImage {
        format: TextureFormat(TextureLayout::Rgba, 2),
        dram_addr: 8,
        dram_width: 0,
    });
    tmem.set_tile(3, SetTileParams { format: TextureFormat(TextureLayout::Rgba, 2), tmem_addr: 509 });
    let rdram = bytes(40);
    // starts on line 1 and moves to the next line after every word
    tmem.load_block(3, &rdram, 0, 1, 0, 2048);
    assert_eq!(tmem.data()[509], 0x0c0b_0a09_100f_0e0d);
    assert_eq!(tmem.data()[510], 0x1817_1615_1413_1211);
    assert_eq!(tmem.data()[511], 0x1c1b_1a19_201f_1e1d);
    assert_eq!(tmem.data()[508], 0);
}

#[test]
fn load_block_with_slow_step_stays_on_line() {
    let mut tmem = Tmem::new();
    tmem.set_texture_image(TextureImage {
        format: TextureFormat(TextureLayout::Rgba, 2),
        dram_addr: 0,
        dram_width: 0,
    });
    let rdram = bytes(24);
    // a step of 1024 crosses to the next line every second word
    tmem.load_block(0, &rdram, 0, 0, 0, 1024);
    assert_eq!(tmem.data()[0], 0x0807_0605_0403_0201);
    assert_eq!(tmem.data()[1], 0x100f_0e0d_0c0b_0a09);
    assert_eq!(tmem.data()[2], 0x1413_1211_1817_1615);
    assert_eq!(tmem.data()[3], 0);
}

#[test]
fn texture_commands_decode_fields() {
    let mut tmem = Tmem::new();
    // SET_TEXTURE_IMAGE: IA, 16 bits, width 32, address 0x123458
    let cmd = (3u64 << 53) | (2u64 << 51) | (31u64 << 32) | 0x12_3458;
    texture::set_texture_image(&mut tmem, cmd);
    let image = tmem.texture_image();
    assert_eq!(image.format, TextureFormat(TextureLayout::IntensityAlpha, 2));
    assert_eq!(image.dram_addr, 0x12_3458);
    assert_eq!(image.dram_width, 31);
    // SET_TILE: I, 8 bits, TMEM address 0x100, tile 6
    let cmd = (4u64 << 53) | (1u64 << 51) | (0x100u64 << 32) | (6u64 << 24);
    texture::set_tile(&mut tmem, cmd);
    assert_eq!(tmem.tile(6).format, TextureFormat(TextureLayout::Intensity, 1));
    assert_eq!(tmem.tile(6).tmem_addr, 0x100);
    // SET_TILE_SIZE: tile 6, (1, 2) to (3, 4) in quarter texels
    let cmd = (1u64 << 44) | (2u64 << 32) | (6u64 << 24) | (3u64 << 12) | 4;
    texture::set_tile_size(&mut tmem, cmd);
    assert_eq!(tmem.tile(6).rect, TileRect { xh: 1, yh: 2, xl: 7, yl: 8 });
    texture::sync_tile(&mut tmem, 0);
    assert_eq!(tmem.tile(6).rect, TileRect { xh: 1, yh: 2, xl: 7, yl: 8 });
}

#[test]
fn load_commands_copy_from_rdram() {
    let mut tmem = Tmem::new();
    let image = (0u64 << 53) | (3u64 << 51) | (1u64 << 32) | 0;
    texture::set_texture_image(&mut tmem, image);
    let rdram = bytes(16);
    // LOAD_TILE of tile 0, lines 0-1
    let cmd = (0u64 << 44) | (0u64 << 32) | (4u64 << 12) | 4;
    texture::load_tile(&mut tmem, &rdram, cmd);
    assert_eq!(tmem.data()[0], 0x0807_0605_0403_0201);
    assert_eq!(tmem.data()[1], 0x0c0b_0a09_100f_0e0d);
    // LOAD_BLOCK of tile 1 (TMEM address 0) with no line step
    let mut tmem = Tmem::new();
    texture::set_texture_image(&mut tmem, image);
    texture::load_block(&mut tmem, &rdram, (1u64 << 24) | 0);
    assert_eq!(tmem.data()[0], 0x0807_0605_0403_0201);
    assert_eq!(tmem.data()[1], 0x100f_0e0d_0c0b_0a09);
}
