//! Texture memory (TMEM): the eight tile descriptors, the texture image that
//! loads read from, and the 512 words of texture data, with the word
//! interleaving of odd lines.

pub mod format;

use crate::rdp::engine::primitive::TextureLayout;
use format::TextureFormat;
use vstd::prelude::*;

verus! {

/// The number of 64-bit words in TMEM.
pub const TMEM_SIZE: usize = 512;

/// The parameters of a SET_TILE command.
#[derive(Copy, Clone, Debug, PartialEq, Eq, Structural)]
pub struct SetTileParams {
    pub format: TextureFormat,
    pub tmem_addr: u32,
}

/// The source of texture loads, as set by SET_TEXTURE_IMAGE.
#[derive(Copy, Clone, Debug, PartialEq, Eq, Structural)]
pub struct TextureImage {
    pub format: TextureFormat,
    pub dram_addr: usize,
    pub dram_width: usize,
}

impl TextureImage {
    /// The image after reset: 32-bit RGBA at address 0, one texel wide.
    pub open spec fn spec_default() -> TextureImage {
        TextureImage {
            format: TextureFormat(TextureLayout::Rgba, 3),
            dram_addr: 0,
            dram_width: 0,
        }
    }
}

impl Default for TextureImage {
    fn default() -> (r: Self)
        ensures
            r == TextureImage::spec_default(),
    {
        TextureImage { format: TextureFormat(TextureLayout::Rgba, 3), dram_addr: 0, dram_width: 0 }
    }
}

/// A rectangle of texels in quarter texels (10.2 fixed point): `xh`, `yh`
/// is the top-left corner and `xl`, `yl` the bottom-right one.
#[derive(Copy, Clone, Debug, PartialEq, Eq, Structural)]
pub struct TileRect {
    pub xh: u32,
    pub yh: u32,
    pub xl: u32,
    pub yl: u32,
}

impl TileRect {
    /// Whether each coordinate fits the 12 bits of a command field.
    pub open spec fn wf(self) -> bool {
        self.xh < 0x1000 && self.yh < 0x1000 && self.xl < 0x1000 && self.yl < 0x1000
    }
}

/// Whether a tile extent is one that SET_TILE_SIZE can give: each
/// coordinate below 0x1004 quarter texels.
pub open spec fn rect_bounded(r: TileRect) -> bool {
    r.xh < 0x1004 && r.yh < 0x1004 && r.xl < 0x1004 && r.yl < 0x1004
}

/// The whole texels from `lo` to `hi` (in quarter texels), none when `hi`
/// comes first.
pub open spec fn extent_texels(lo: u32, hi: u32) -> int {
    if hi >= lo {
        (hi - lo) / 4
    } else {
        0
    }
}

/// The bytes of `words`, each word least significant byte first.
pub open spec fn le_bytes(words: Seq<u64>) -> Seq<u8> {
    Seq::new(8 * words.len(), |k: int| (words[k / 8] >> (8 * (k % 8)) as u64) as u8)
}

/// A tile: its texel format, its start in TMEM (in words) and its extent.
#[derive(Copy, Clone, Debug, PartialEq, Eq, Structural)]
pub struct TileDescriptor {
    pub format: TextureFormat,
    pub tmem_addr: u32,
    pub rect: TileRect,
}

impl TileDescriptor {
    pub open spec fn spec_default() -> TileDescriptor {
        TileDescriptor {
            format: TextureFormat(TextureLayout::Rgba, 3),
            tmem_addr: 0,
            rect: TileRect { xh: 0, yh: 0, xl: 0, yl: 0 },
        }
    }
}

/// The 64-bit word as TMEM stores it on line `line`: odd lines have their
/// 32-bit halves swapped.
pub open spec fn spec_interleave(line: usize, input: u64) -> u64 {
    if line & 1 != 0 {
        (input << 32) | (input >> 32)
    } else {
        input
    }
}

pub fn interleave(line: usize, input: u64) -> (r: u64)
    ensures
        r == spec_interleave(line, input),
{
    if (line & 1) != 0 {
        (input << 32) | (input >> 32)
    } else {
        input
    }
}

/// Interleaving a word twice on the same line gives the word back.
pub proof fn lemma_interleave_involution(line: usize, input: u64)
    ensures
        spec_interleave(line, spec_interleave(line, input)) == input,
{
    let x = (input << 32) | (input >> 32);
    assert(((x << 32) | (x >> 32)) == input) by (bit_vector)
        requires
            x == (input << 32) | (input >> 32),
    ;
}

/// The word that TMEM stores for `input` on a line of parity `odd`.
pub open spec fn swap_if(odd: bool, input: u64) -> u64 {
    if odd {
        (input << 32) | (input >> 32)
    } else {
        input
    }
}

/// The 64-bit word whose bytes, least significant first, start at `at`.
pub open spec fn le_word(bytes: Seq<u8>, at: int) -> u64 {
    (bytes[at] as u64) | ((bytes[at + 1] as u64) << 8u64) | ((bytes[at + 2] as u64) << 16u64) | ((
    bytes[at + 3] as u64) << 24u64) | ((bytes[at + 4] as u64) << 32u64) | ((bytes[at + 5] as u64)
        << 40u64) | ((bytes[at + 6] as u64) << 48u64) | ((bytes[at + 7] as u64) << 56u64)
}

fn read_le_word(bytes: &[u8], at: usize) -> (r: u64)
    requires
        at + 8 <= bytes@.len(),
    ensures
        r == le_word(bytes@, at as int),
{
    (bytes[at] as u64) | ((bytes[at + 1] as u64) << 8u64) | ((bytes[at + 2] as u64) << 16u64) | ((
    bytes[at + 3] as u64) << 24u64) | ((bytes[at + 4] as u64) << 32u64) | ((bytes[at + 5] as u64)
        << 40u64) | ((bytes[at + 6] as u64) << 48u64) | ((bytes[at + 7] as u64) << 56u64)
}

/// The abstract state of TMEM.
pub struct TmemView {
    pub tiles: Seq<TileDescriptor>,
    pub texture_image: TextureImage,
    pub data: Seq<u64>,
}

pub struct Tmem {
    tiles: [TileDescriptor; 8],
    texture_image: TextureImage,
    data: Vec<u64>,
}

impl View for Tmem {
    type V = TmemView;

    closed spec fn view(&self) -> TmemView {
        TmemView { tiles: self.tiles@, texture_image: self.texture_image, data: self.data@ }
    }
}

/// The extent that SET_TILE_SIZE gives a tile for the rectangle `rect`: the
/// bottom-right corner moves one texel out, so that it is exclusive.
pub open spec fn sized_rect(rect: TileRect) -> TileRect {
    TileRect { xh: rect.xh, yh: rect.yh, xl: (rect.xl + 4) as u32, yl: (rect.yl + 4) as u32 }
}

/// The bytes per line of the texture image.
pub open spec fn image_line_bytes(image: TextureImage) -> int {
    ((image.dram_width + 1) * (4 * format::pow2_u(image.format.1))) / 8
}

/// The first and the (exclusive) last line that LOAD_TILE loads.
pub open spec fn load_lines(rect: TileRect) -> (int, int) {
    ((rect.yh / 4) as int, (rect.yl / 4) as int + 1)
}

/// The number of lines that LOAD_TILE loads.
pub open spec fn load_line_count(rect: TileRect) -> int {
    let (start, end) = load_lines(rect);
    if end > start {
        end - start
    } else {
        0
    }
}

/// Whether LOAD_TILE of `rect` into tile `tile_id` stays within RDRAM and
/// TMEM and reads whole aligned words.
pub open spec fn load_tile_fits(v: TmemView, rdram: Seq<u8>, tile_id: int, rect: TileRect) -> bool {
    let width = image_line_bytes(v.texture_image);
    let lines = load_line_count(rect);
    let base = v.tiles[tile_id].tmem_addr as int;
    &&& lines > 0 ==> width % 8 == 0 && v.texture_image.dram_addr % 8 == 0
    &&& v.texture_image.dram_addr + lines * width <= rdram.len()
    &&& base + lines * (width / 8) <= TMEM_SIZE
}

/// The line state (line, fraction) before word `k` of LOAD_BLOCK: the line
/// starts at `tl` and moves on each time the fraction, stepped by `dxt`,
/// reaches 2048.
pub open spec fn block_line(k: nat, tl: int, dxt: int) -> (int, int)
    decreases k,
{
    if k == 0 {
        (tl, 0)
    } else {
        let (line, delta) = block_line((k - 1) as nat, tl, dxt);
        if delta + dxt >= 2048 {
            (line + 1, delta + dxt - 2048)
        } else {
            (line, delta + dxt)
        }
    }
}

/// What LOAD_TILE of `rect` into tile `tile_id` leaves, from `o` to `n`:
/// the tile takes the extent, the image stays, and the tile's words hold
/// the loaded lines while the rest of TMEM stays.
pub open spec fn load_tile_post(o: TmemView, n: TmemView, rdram: Seq<u8>, tile_id: int, rect: TileRect) -> bool {
    let base = o.tiles[tile_id].tmem_addr as int;
    let end = base + load_line_count(rect) * (image_line_bytes(o.texture_image) / 8);
    &&& n.tiles == o.tiles.update(tile_id, TileDescriptor { rect: sized_rect(rect), ..o.tiles[tile_id] })
    &&& n.texture_image == o.texture_image
    &&& n.data.len() == o.data.len()
    &&& forall|i: int| base <= i < end ==> #[trigger] n.data[i] == load_tile_word(o, rdram, tile_id, rect, i)
    &&& forall|i: int| 0 <= i < o.data.len() && !(base <= i < end) ==> #[trigger] n.data[i] == o.data[i]
}

/// What LOAD_BLOCK into tile `tile_id` leaves, from `o` to `n`: the tiles
/// and the image stay, the tile's words hold the loaded block and the rest
/// of TMEM stays.
pub open spec fn load_block_post(o: TmemView, n: TmemView, rdram: Seq<u8>, tile_id: int, tl: u32, dxt: u32) -> bool {
    let base = o.tiles[tile_id].tmem_addr as int;
    let end = base + block_count(o, rdram, tile_id);
    &&& n.tiles == o.tiles
    &&& n.texture_image == o.texture_image
    &&& n.data.len() == o.data.len()
    &&& forall|i: int| base <= i < end ==> #[trigger] n.data[i] == load_block_word(o, rdram, tl, dxt, i - base)
    &&& forall|i: int| 0 <= i < o.data.len() && !(base <= i < end) ==> #[trigger] n.data[i] == o.data[i]
}

/// The number of words that LOAD_BLOCK copies: to the end of RDRAM or of
/// TMEM, whichever comes first.
pub open spec fn block_count(v: TmemView, rdram: Seq<u8>, tile_id: int) -> int {
    let a = TMEM_SIZE - v.tiles[tile_id].tmem_addr as int;
    let b = (rdram.len() - v.texture_image.dram_addr) / 8;
    if a < b {
        a
    } else {
        b
    }
}

/// The word that LOAD_TILE leaves at TMEM index `i`: with `words` words
/// per line, index `i` holds word `j` of line `y` of the rectangle, read
/// from the texture image and interleaved by its line number.
pub open spec fn load_tile_word(v: TmemView, rdram: Seq<u8>, tile_id: int, rect: TileRect, i: int) -> u64 {
    let width = image_line_bytes(v.texture_image);
    let words = width / 8;
    let k = i - v.tiles[tile_id].tmem_addr as int;
    let y = k / words;
    let j = k % words;
    spec_interleave(
        (load_lines(rect).0 + y) as usize,
        le_word(rdram, v.texture_image.dram_addr + y * width + 8 * j),
    )
}

/// The word that LOAD_BLOCK leaves at word `k` of the tile: word `k` of the
/// texture image, interleaved by the line it falls on.
pub open spec fn load_block_word(v: TmemView, rdram: Seq<u8>, tl: u32, dxt: u32, k: int) -> u64 {
    swap_if(
        block_line(k as nat, tl as int, dxt as int).0 % 2 == 1,
        le_word(rdram, v.texture_image.dram_addr + 8 * k),
    )
}

/// Where the texels of tile `tile_id` start in TMEM, and how many words
/// they take: width times height texels, clipped to the end of TMEM.
pub open spec fn request_range(v: TmemView, tile_id: int) -> (int, int) {
    let t = v.tiles[tile_id];
    let w = extent_texels(t.rect.xh, t.rect.xl);
    let h = extent_texels(t.rect.yh, t.rect.yl);
    let start = t.tmem_addr as int;
    let total = (w * h * (4 * format::pow2_u(t.format.1))) / 64;
    (start, if start + total < TMEM_SIZE { start + total } else { TMEM_SIZE as int })
}

/// The words per line of tile `tile_id`.
pub open spec fn request_line_words(v: TmemView, tile_id: int) -> int {
    let t = v.tiles[tile_id];
    (extent_texels(t.rect.xh, t.rect.xl) * (4 * format::pow2_u(t.format.1))) / 64
}

/// The lines of tile `tile_id`, first and (exclusive) last.
pub open spec fn request_lines(v: TmemView, tile_id: int) -> (int, int) {
    let t = v.tiles[tile_id];
    ((t.rect.yh / 4) as int, (t.rect.yl / 4) as int)
}

/// The number of lines of tile `tile_id`.
pub open spec fn request_line_count(v: TmemView, tile_id: int) -> int {
    let (a, b) = request_lines(v, tile_id);
    if b > a {
        b - a
    } else {
        0
    }
}

/// Word `i` of the texels of tile `tile_id` with the interleaving undone:
/// words of the tile's lines are swapped back on odd lines.
pub open spec fn request_word(v: TmemView, tile_id: int, i: int) -> u64 {
    let (start, _) = request_range(v, tile_id);
    let wpl = request_line_words(v, tile_id);
    let raw = v.data[start + i];
    if i < request_line_count(v, tile_id) * wpl {
        spec_interleave((request_lines(v, tile_id).0 + i / wpl) as usize, raw)
    } else {
        raw
    }
}

/// The texel words of tile `tile_id`, in order.
pub open spec fn request_words(v: TmemView, tile_id: int) -> Seq<u64> {
    let (start, end) = request_range(v, tile_id);
    Seq::new((end - start) as nat, |i: int| request_word(v, tile_id, i))
}

/// The bytes of `words`, each word least significant byte first.
fn le_bytes_of(words: &Vec<u64>) -> (r: Vec<u8>)
    requires
        8 * words@.len() <= usize::MAX,
    ensures
        r@ == le_bytes(words@),
{
    let mut out: Vec<u8> = Vec::new();
    let mut i: usize = 0;
    while i < words.len()
        invariant
            i <= words@.len(),
            8 * words@.len() <= usize::MAX,
            out@.len() == 8 * i,
            forall|k: int| 0 <= k < 8 * i ==> #[trigger] out@[k] == (words@[k / 8] >> (8 * (k % 8)) as u64) as u8,
        decreases words@.len() - i,
    {
        let w = words[i];
        let mut m: u64 = 0;
        while m < 8
            invariant
                i < words@.len(),
                w == words@[i as int],
                m <= 8,
                out@.len() == 8 * i + m,
                forall|k: int| 0 <= k < 8 * i + m ==> #[trigger] out@[k] == (words@[k / 8] >> (8 * (k % 8)) as u64) as u8,
            decreases 8 - m,
        {
            out.push((w >> (8 * m)) as u8);
            proof {
                let k = 8 * i + m;
                assert(k / 8 == i && k % 8 == m);
            }
            m = m + 1;
        }
        i = i + 1;
    }
    assert(out@ =~= le_bytes(words@));
    out
}

impl Tmem {
    /// Whether the state is well formed: eight tiles, 512 words of data.
    pub open spec fn wf(self) -> bool {
        &&& self@.tiles.len() == 8
        &&& self@.data.len() == TMEM_SIZE
        &&& forall|i: int| 0 <= i < 8 ==> #[trigger] rect_bounded(self@.tiles[i].rect)
    }

    /// All tiles default, the default texture image, and zeroed data.
    pub fn new() -> (r: Self)
        ensures
            r.wf(),
            r@.tiles == Seq::new(8, |i: int| TileDescriptor::spec_default()),
            r@.texture_image == TextureImage::spec_default(),
            r@.data == Seq::new(TMEM_SIZE as nat, |i: int| 0u64),
    {
        let d = TileDescriptor {
            format: TextureFormat(TextureLayout::Rgba, 3),
            tmem_addr: 0,
            rect: TileRect { xh: 0, yh: 0, xl: 0, yl: 0 },
        };
        let r = Tmem {
            tiles: [d, d, d, d, d, d, d, d],
            texture_image: TextureImage::default(),
            data: vec![0u64; TMEM_SIZE],
        };
        assert(r@.tiles =~= Seq::new(8, |i: int| TileDescriptor::spec_default()));
        assert(r@.data =~= Seq::new(TMEM_SIZE as nat, |i: int| 0u64));
        r
    }

    pub fn set_texture_image(&mut self, texture_image: TextureImage)
        ensures
            final(self)@ == (TmemView { texture_image, ..old(self)@ }),
    {
        self.texture_image = texture_image;
    }

    /// Sets the format and TMEM address of tile `tile_id`.
    pub fn set_tile(&mut self, tile_id: u32, params: SetTileParams)
        requires
            old(self).wf(),
            tile_id < 8,
        ensures
            final(self).wf(),
            final(self)@ == (TmemView {
                tiles: old(self)@.tiles.update(
                    tile_id as int,
                    TileDescriptor {
                        format: params.format,
                        tmem_addr: params.tmem_addr,
                        ..old(self)@.tiles[tile_id as int]
                    },
                ),
                ..old(self)@
            }),
    {
        let i = tile_id as usize;
        let mut tile = self.tiles[i];
        tile.format = params.format;
        tile.tmem_addr = params.tmem_addr;
        self.tiles[i] = tile;
    }

    /// Sets the extent of tile `tile_id` from `rect`.
    pub fn set_tile_size(&mut self, tile_id: u32, rect: &TileRect)
        requires
            old(self).wf(),
            tile_id < 8,
            rect.wf(),
        ensures
            final(self).wf(),
            final(self)@ == (TmemView {
                tiles: old(self)@.tiles.update(
                    tile_id as int,
                    TileDescriptor { rect: sized_rect(*rect), ..old(self)@.tiles[tile_id as int] },
                ),
                ..old(self)@
            }),
    {
        let i = tile_id as usize;
        let mut tile = self.tiles[i];
        tile.rect = TileRect { xh: rect.xh, yh: rect.yh, xl: rect.xl + 4, yl: rect.yl + 4 };
        self.tiles[i] = tile;
    }

    /// LOAD_TILE: sets the extent of tile `tile_id` from `rect`, then copies
    /// the lines of `rect` from the texture image in RDRAM into TMEM at the
    /// tile's address, line after line, each word interleaved by its line.
    #[verifier::rlimit(40)]
    pub fn load_tile(&mut self, tile_id: u32, rdram: &[u8], rect: &TileRect)
        requires
            old(self).wf(),
            tile_id < 8,
            rect.wf(),
            old(self)@.texture_image.format.1 <= 3,
            (old(self)@.texture_image.dram_width + 1) * 32 <= usize::MAX,
            load_tile_fits(old(self)@, rdram@, tile_id as int, *rect),
        ensures
            final(self).wf(),
            load_tile_post(old(self)@, final(self)@, rdram@, tile_id as int, *rect),
    {
        let ghost v0 = self@;
        let image = self.texture_image;
        let tile = self.tiles[tile_id as usize];
        let n = rdram.len();
        let bpp = image.format.bits_per_pixel();
        assert((image.dram_width + 1) * bpp <= (image.dram_width + 1) * 32) by (nonlinear_arith)
            requires
                bpp <= 32,
        ;
        let width = ((image.dram_width + 1) * bpp) / 8;
        let words = width / 8;
        let y_start = (rect.yh / 4) as usize;
        let y_end = (rect.yl / 4) as usize + 1;
        let base = tile.tmem_addr as usize;
        let ghost lines = load_line_count(*rect);
        assert(width == image_line_bytes(v0.texture_image));

        self.set_tile_size(tile_id, rect);
        let ghost v1 = self@;

        let mut line = y_start;
        let mut dst = base;
        assert(0int * (words as int) == 0) by (nonlinear_arith);
        assert(0int * (width as int) == 0) by (nonlinear_arith);
        let mut dram_start = image.dram_addr;
        while line < y_end
            invariant
                self.wf(),
                self@.tiles == v1.tiles,
                self@.texture_image == v0.texture_image,
                image == v0.texture_image,
                tile == v0.tiles[tile_id as int],
                base == tile.tmem_addr,
                width == image_line_bytes(v0.texture_image),
                words == width / 8,
                load_lines(*rect) == (y_start as int, y_end as int),
                lines == load_line_count(*rect),
                load_tile_fits(v0, rdram@, tile_id as int, *rect),
                n == rdram@.len(),
                y_start <= line,
                line <= y_end || line == y_start,
                y_end <= 0x1000,
                dst == base + (line - y_start) * words,
                dram_start == image.dram_addr + (line - y_start) * width,
                forall|i: int|
                    base <= i < dst ==> #[trigger] self@.data[i] == load_tile_word(
                        v0,
                        rdram@,
                        tile_id as int,
                        *rect,
                        i,
                    ),
                forall|i: int|
                    0 <= i < TMEM_SIZE && !(base <= i < dst) ==> #[trigger] self@.data[i]
                        == v0.data[i],
            decreases y_end - line,
        {
            let ghost y = (line - y_start) as int;
            assert(lines == y_end - y_start);
            assert(y < lines);
            assert(width % 8 == 0);
            assert((y + 1) * width <= lines * width) by (nonlinear_arith)
                requires
                    y + 1 <= lines,
                    width >= 0,
            ;
            assert((y + 1) * words <= lines * words) by (nonlinear_arith)
                requires
                    y + 1 <= lines,
                    words >= 0,
            ;
            assert((y + 1) * width == y * width + width) by (nonlinear_arith);
            assert((y + 1) * words == y * words + words) by (nonlinear_arith);
            let mut j: usize = 0;
            while j < words
                invariant
                    self.wf(),
                    self@.tiles == v1.tiles,
                    self@.texture_image == v0.texture_image,
                    image == v0.texture_image,
                    tile == v0.tiles[tile_id as int],
                    base == tile.tmem_addr,
                    width == image_line_bytes(v0.texture_image),
                    words == width / 8,
                    width % 8 == 0,
                    load_lines(*rect) == (y_start as int, y_end as int),
                    y == line - y_start,
                    y_start <= line < y_end,
                    y_end <= 0x1000,
                    j <= words,
                    dst == base + y * words + j,
                    base + y * words + words <= TMEM_SIZE,
                    dram_start == image.dram_addr + y * width,
                    image.dram_addr + y * width + width <= rdram@.len(),
                    n == rdram@.len(),
                    forall|i: int|
                        base <= i < dst ==> #[trigger] self@.data[i] == load_tile_word(
                            v0,
                            rdram@,
                            tile_id as int,
                            *rect,
                            i,
                        ),
                    forall|i: int|
                        0 <= i < TMEM_SIZE && !(base <= i < dst) ==> #[trigger] self@.data[i]
                            == v0.data[i],
                decreases words - j,
            {
                assert(8 * j + 8 <= width);
                let w = read_le_word(rdram, dram_start + 8 * j);
                let value = interleave(line, w);
                proof {
                    crate::bits::lemma_div_mod(dst - base, words as int, y, j as int);
                    assert(load_tile_word(v0, rdram@, tile_id as int, *rect, dst as int) == value);
                }
                self.data.set(dst, value);
                dst = dst + 1;
                j = j + 1;
            }
            dram_start = dram_start + width;
            line = line + 1;
        }
        assert(0int * (words as int) == 0) by (nonlinear_arith);
        if y_start < y_end {
            assert(line == y_end);
            assert(lines == line - y_start);
        } else {
            assert(lines == 0);
            assert(line == y_start);
        }
        assert(dst == base + lines * words);
    }

    /// LOAD_BLOCK: copies the texture image from RDRAM into TMEM at the
    /// address of tile `tile_id`, word after word, until RDRAM or TMEM ends.
    /// The line, which decides the interleaving, starts at `tl` and moves on
    /// each time a fraction stepped by `dxt` per word passes 2048.
    pub fn load_block(&mut self, tile_id: u32, rdram: &[u8], _sl: u32, tl: u32, _sh: u32, dxt: u32)
        requires
            old(self).wf(),
            tile_id < 8,
            old(self)@.tiles[tile_id as int].tmem_addr <= TMEM_SIZE,
            old(self)@.texture_image.dram_addr <= rdram@.len(),
            (rdram@.len() - old(self)@.texture_image.dram_addr) % 8 == 0,
            old(self)@.texture_image.dram_addr % 8 == 0,
        ensures
            final(self).wf(),
            load_block_post(old(self)@, final(self)@, rdram@, tile_id as int, tl, dxt),
    {
        let ghost v0 = self@;
        let image = self.texture_image;
        let base = self.tiles[tile_id as usize].tmem_addr as usize;
        let n = rdram.len();
        let room = TMEM_SIZE - base;
        let available = (rdram.len() - image.dram_addr) / 8;
        let count = if room < available {
            room
        } else {
            available
        };
        let mut line: u64 = tl as u64;
        let mut y_delta: u64 = 0;
        let mut k: usize = 0;
        while k < count
            invariant
                self.wf(),
                self@.tiles == v0.tiles,
                self@.texture_image == v0.texture_image,
                image == v0.texture_image,
                base == v0.tiles[tile_id as int].tmem_addr,
                count == block_count(v0, rdram@, tile_id as int),
                base + count <= TMEM_SIZE,
                image.dram_addr + 8 * count <= rdram@.len(),
                n == rdram@.len(),
                k <= count,
                block_line(k as nat, tl as int, dxt as int) == (line as int, y_delta as int),
                line <= tl + k,
                y_delta <= 2048 + k * 0x1_0000_0000,
                forall|i: int|
                    base <= i < base + k ==> #[trigger] self@.data[i] == load_block_word(
                        v0,
                        rdram@,
                        tl,
                        dxt,
                        i - base,
                    ),
                forall|i: int|
                    0 <= i < TMEM_SIZE && !(base <= i < base + k) ==> #[trigger] self@.data[i]
                        == v0.data[i],
            decreases count - k,
        {
            let w = read_le_word(rdram, image.dram_addr + 8 * k);
            let odd = line & 1 != 0;
            let value = if odd {
                (w << 32u64) | (w >> 32u64)
            } else {
                w
            };
            proof {
                crate::bits::lemma_low_bits(line);
                assert(load_block_word(v0, rdram@, tl, dxt, k as int) == value);
            }
            self.data.set(base + k, value);
            y_delta = y_delta + dxt as u64;
            if y_delta >= 2048 {
                y_delta = y_delta - 2048;
                line = line + 1;
            }
            k = k + 1;
        }
    }

    /// The texels of tile `tile_id` as RGBA8888 bytes, with the tile's
    /// extent in quarter texels (right minus left, bottom minus top). The
    /// words of the tile, width times height texels from its TMEM address
    /// (clipped to the end of TMEM), have the interleaving of their lines
    /// undone, are taken least significant byte first and decoded from the
    /// tile's format.
    #[verifier::rlimit(40)]
    pub fn request_texture(&self, tile_id: u32) -> (r: (Vec<u8>, (i64, i64)))
        requires
            self.wf(),
            tile_id < 8,
            self@.tiles[tile_id as int].tmem_addr <= TMEM_SIZE,
            format::is_decodable(self@.tiles[tile_id as int].format),
            request_line_count(self@, tile_id as int) * request_line_words(self@, tile_id as int)
                <= request_range(self@, tile_id as int).1 - request_range(self@, tile_id as int).0,
        ensures
            r.0@ == format::spec_decode(
                self@.tiles[tile_id as int].format,
                le_bytes(request_words(self@, tile_id as int)),
            ),
            r.1.0 == self@.tiles[tile_id as int].rect.xl as int - self@.tiles[tile_id as int].rect.xh as int,
            r.1.1 == self@.tiles[tile_id as int].rect.yl as int - self@.tiles[tile_id as int].rect.yh as int,
    {
        let ghost v = self@;
        let ghost tid = tile_id as int;
        let t = self.tiles[tile_id as usize];
        assert(rect_bounded(v.tiles[tid].rect));
        let w: usize = if t.rect.xl >= t.rect.xh {
            ((t.rect.xl - t.rect.xh) / 4) as usize
        } else {
            0
        };
        let h: usize = if t.rect.yl >= t.rect.yh {
            ((t.rect.yl - t.rect.yh) / 4) as usize
        } else {
            0
        };
        let bpp = t.format.bits_per_pixel();
        assert(w * h <= 0x1001 * 0x1001) by (nonlinear_arith)
            requires
                w <= 0x1001,
                h <= 0x1001,
        ;
        assert(w * h * bpp <= 0x1001 * 0x1001 * 32) by (nonlinear_arith)
            requires
                w * h <= 0x1001 * 0x1001,
                bpp <= 32,
        ;
        assert(w * bpp <= 0x1001 * 32) by (nonlinear_arith)
            requires
                w <= 0x1001,
                bpp <= 32,
        ;
        let total = (w * h * bpp) / 64;
        let start = t.tmem_addr as usize;
        let end = if start + total < TMEM_SIZE {
            start + total
        } else {
            TMEM_SIZE
        };
        let wpl = (w * bpp) / 64;
        let y0 = (t.rect.yh / 4) as usize;
        let y1 = (t.rect.yl / 4) as usize;
        assert(request_range(v, tid) == (start as int, end as int));
        assert(request_line_words(v, tid) == wpl);
        assert(request_lines(v, tid) == (y0 as int, y1 as int));

        let mut words: Vec<u64> = Vec::new();
        let mut k = start;
        while k < end
            invariant
                self@ == v,
                self.wf(),
                start <= k <= end,
                end <= TMEM_SIZE,
                words@.len() == k - start,
                forall|i: int| 0 <= i < k - start ==> #[trigger] words@[i] == v.data[start + i],
            decreases end - k,
        {
            words.push(self.data[k]);
            k = k + 1;
        }

        let ghost lines = request_line_count(v, tid);
        let mut line = y0;
        let mut offset: usize = 0;
        assert(0int * (wpl as int) == 0) by (nonlinear_arith);
        while line < y1
            invariant
                words@.len() == end - start,
                request_lines(v, tid) == (y0 as int, y1 as int),
                lines == request_line_count(v, tid),
                lines * wpl <= end - start,
                y0 <= line,
                line <= y1 || line == y0,
                y1 <= 0x1004,
                offset == (line - y0) * wpl,
                forall|i: int|
                    0 <= i < offset ==> #[trigger] words@[i] == spec_interleave(
                        (y0 + i / (wpl as int)) as usize,
                        v.data[start + i],
                    ),
                forall|i: int|
                    offset <= i < end - start ==> #[trigger] words@[i] == v.data[start + i],
            decreases y1 - line,
        {
            let ghost y = (line - y0) as int;
            assert(lines == y1 - y0);
            assert((y + 1) * wpl <= lines * wpl) by (nonlinear_arith)
                requires
                    y + 1 <= lines,
                    wpl >= 0,
            ;
            assert((y + 1) * wpl == y * wpl + wpl) by (nonlinear_arith);
            let mut j: usize = 0;
            while j < wpl
                invariant
                    words@.len() == end - start,
                    y == line - y0,
                    y0 <= line < y1,
                    y1 <= 0x1004,
                    offset == y * wpl,
                    offset + wpl <= end - start,
                    j <= wpl,
                    forall|i: int|
                        0 <= i < offset + j ==> #[trigger] words@[i] == spec_interleave(
                            (y0 + i / (wpl as int)) as usize,
                            v.data[start + i],
                        ),
                    forall|i: int|
                        offset + j <= i < end - start ==> #[trigger] words@[i] == v.data[start + i],
                decreases wpl - j,
            {
                let value = interleave(line, words[offset + j]);
                proof {
                    crate::bits::lemma_div_mod((offset + j) as int, wpl as int, y, j as int);
                }
                words.set(offset + j, value);
                j = j + 1;
            }
            offset = offset + wpl;
            line = line + 1;
        }
        if y0 < y1 {
            assert(line == y1);
            assert(lines == line - y0);
        } else {
            assert(lines == 0);
            assert(line == y0);
        }
        assert(offset == lines * wpl);
        assert(words@ =~= request_words(v, tid));

        let bytes = le_bytes_of(&words);
        let texels = t.format.decode(bytes.as_slice());
        let xw = t.rect.xl as i64 - t.rect.xh as i64;
        let yh = t.rect.yl as i64 - t.rect.yh as i64;
        (texels, (xw, yh))
    }

    /// Whether `request_texture` can decode tile `tile_id`: the tile
    /// exists, starts within TMEM and has a format that `decode` supports,
    /// and its lines fit in the words taken from TMEM.
    pub fn can_request_texture(&self, tile_id: u32) -> (r: bool)
        requires
            self.wf(),
        ensures
            r == (tile_id < 8 && self@.tiles[tile_id as int].tmem_addr <= TMEM_SIZE
                && format::is_decodable(self@.tiles[tile_id as int].format)
                && request_line_count(self@, tile_id as int) * request_line_words(self@, tile_id as int)
                <= request_range(self@, tile_id as int).1 - request_range(self@, tile_id as int).0),
    {
        if tile_id >= 8 {
            return false;
        }
        let ghost v = self@;
        let ghost tid = tile_id as int;
        let t = self.tiles[tile_id as usize];
        if t.tmem_addr as usize > TMEM_SIZE {
            return false;
        }
        let decodable = match t.format.0 {
            TextureLayout::Rgba => t.format.1 == 3 || t.format.1 == 2,
            TextureLayout::IntensityAlpha => t.format.1 == 2 || t.format.1 == 1 || t.format.1 == 0,
            TextureLayout::Intensity => t.format.1 == 1 || t.format.1 == 0,
            _ => false,
        };
        if !decodable {
            return false;
        }
        assert(rect_bounded(v.tiles[tid].rect));
        let w: usize = if t.rect.xl >= t.rect.xh {
            ((t.rect.xl - t.rect.xh) / 4) as usize
        } else {
            0
        };
        let h: usize = if t.rect.yl >= t.rect.yh {
            ((t.rect.yl - t.rect.yh) / 4) as usize
        } else {
            0
        };
        let bpp = t.format.bits_per_pixel();
        assert(w * h <= 0x1001 * 0x1001) by (nonlinear_arith)
            requires
                w <= 0x1001,
                h <= 0x1001,
        ;
        assert(w * h * bpp <= 0x1001 * 0x1001 * 32) by (nonlinear_arith)
            requires
                w * h <= 0x1001 * 0x1001,
                bpp <= 32,
        ;
        assert(w * bpp <= 0x1001 * 32) by (nonlinear_arith)
            requires
                w <= 0x1001,
                bpp <= 32,
        ;
        let total = (w * h * bpp) / 64;
        let start = t.tmem_addr as usize;
        let end = if start + total < TMEM_SIZE {
            start + total
        } else {
            TMEM_SIZE
        };
        let wpl = (w * bpp) / 64;
        let y0 = (t.rect.yh / 4) as usize;
        let y1 = (t.rect.yl / 4) as usize;
        let lines: usize = if y1 > y0 {
            y1 - y0
        } else {
            0
        };
        assert(request_range(v, tid) == (start as int, end as int));
        assert(request_line_words(v, tid) == wpl);
        assert(request_line_count(v, tid) == lines);
        assert(lines * wpl <= 0x1004 * 0x1001 * 32) by (nonlinear_arith)
            requires
                lines <= 0x1004,
                wpl <= 0x1001 * 32,
        ;
        lines * wpl <= end - start
    }

    pub fn data(&self) -> (r: &Vec<u64>)
        ensures
            r@ == self@.data,
    {
        &self.data
    }

    pub fn tile(&self, tile_id: u32) -> (r: TileDescriptor)
        requires
            self.wf(),
            tile_id < 8,
        ensures
            r == self@.tiles[tile_id as int],
    {
        self.tiles[tile_id as usize]
    }

    pub fn texture_image(&self) -> (r: TextureImage)
        ensures
            r == self@.texture_image,
    {
        self.texture_image
    }
}

/// Loading a tile and reading it back gives the image: after LOAD_TILE of
/// `rect` into tile `tile_id`, when a line of the tile takes as many words
/// as a line of the texture image, each word of the tile's lines that the
/// read covers is the image word that the load read for it, with the
/// interleaving undone.
pub proof fn lemma_load_tile_read_back(o: TmemView, n: TmemView, rdram: Seq<u8>, tile_id: int, rect: TileRect)
    requires
        o.tiles.len() == 8,
        o.data.len() == TMEM_SIZE,
        0 <= tile_id < 8,
        rect.wf(),
        load_tile_fits(o, rdram, tile_id, rect),
        load_tile_post(o, n, rdram, tile_id, rect),
        request_line_words(n, tile_id) == image_line_bytes(o.texture_image) / 8,
    ensures
        forall|i: int|
            0 <= i < request_words(n, tile_id).len() && i < load_line_count(rect)
                * request_line_words(n, tile_id) ==> #[trigger] request_words(n, tile_id)[i]
                == le_word(
                rdram,
                o.texture_image.dram_addr + (i / request_line_words(n, tile_id))
                    * image_line_bytes(o.texture_image) + 8 * (i % request_line_words(n, tile_id)),
            ),
{
    let wpl = request_line_words(n, tile_id);
    let width = image_line_bytes(o.texture_image);
    let base = o.tiles[tile_id].tmem_addr as int;
    assert forall|i: int|
        0 <= i < request_words(n, tile_id).len() && i < load_line_count(rect) * wpl implies #[trigger] request_words(
        n,
        tile_id,
    )[i] == le_word(rdram, o.texture_image.dram_addr + (i / wpl) * width + 8 * (i % wpl)) by {
        assert(n.tiles[tile_id].tmem_addr == o.tiles[tile_id].tmem_addr);
        assert(n.tiles[tile_id].rect == sized_rect(rect));
        assert(request_line_count(n, tile_id) == load_line_count(rect));
        assert(request_words(n, tile_id)[i] == request_word(n, tile_id, i));
        let word = le_word(rdram, o.texture_image.dram_addr + (i / wpl) * width + 8 * (i % wpl));
        let line = (load_lines(rect).0 + i / wpl) as usize;
        assert(n.data[base + i] == load_tile_word(o, rdram, tile_id, rect, base + i));
        assert(load_tile_word(o, rdram, tile_id, rect, base + i) == spec_interleave(line, word));
        lemma_interleave_involution(line, word);
    }
}

} // verus!
