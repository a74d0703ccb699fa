use vstd::prelude::*;
use crate::ppu::bit_of;

verus! {

/// The 2-bit colour of screen pixel (`x`, `y`) when the 256 tiles of the pattern table at
/// `base` in `chr` are laid out 16 to a row: bit 7 - (x mod 8) of the tile's two bit planes
/// at row y mod 8, the second plane giving the high bit.
pub open spec fn pattern_colour(chr: Seq<u8>, base: int, x: int, y: int) -> u8 {
    let tile = (y / 8) * 16 + x / 8;
    let low = chr[base + tile * 16 + y % 8];
    let high = chr[base + tile * 16 + 8 + y % 8];
    let bit = (7 - x % 8) as u8;
    (bit_of(high, bit) * 2 + bit_of(low, bit)) as u8
}

/// Tile `tile` of a pattern table sits at column tile mod 16 and row tile / 16 of the 16x16
/// grid; row `row` of the tile (bytes `row` and `8 + row` of its 16) is drawn top-down as
/// screen row 8 * (tile / 16) + row, its bit 7 at the left: the pixel at column `col` of
/// that row takes bit 7 - col of the first plane as its low bit and of the second as its
/// high bit.
pub proof fn lemma_tile_layout(chr: Seq<u8>, base: int, tile: int, row: int, col: int)
    requires
        0 <= tile < 256,
        0 <= row < 8,
        0 <= col < 8,
    ensures
        pattern_colour(chr, base, (tile % 16) * 8 + col, (tile / 16) * 8 + row) == (bit_of(
            chr[base + tile * 16 + 8 + row],
            (7 - col) as u8,
        ) * 2 + bit_of(chr[base + tile * 16 + row], (7 - col) as u8)) as u8,
{
    let x = (tile % 16) * 8 + col;
    let y = (tile / 16) * 8 + row;
    assert(x / 8 == tile % 16 && x % 8 == col);
    assert(y / 8 == tile / 16 && y % 8 == row);
    assert((tile / 16) * 16 + tile % 16 == tile);
}

/// The RGBA grey, packed in a `u32`, that shows 2-bit colour `colour`.
pub open spec fn grey_value(colour: u8) -> u32 {
    if colour == 0 {
        0x000000FF
    } else if colour == 1 {
        0x555555FF
    } else if colour == 2 {
        0xAAAAAAFF
    } else {
        0xFFFFFFFF
    }
}

/// The four greys brighten evenly with the colour: 2-bit colour c is red, green and blue
/// 0x55 * c at full opacity.
pub proof fn lemma_greys(colour: u8)
    requires
        colour < 4,
    ensures
        grey_value(colour) == (0x55 * colour) * 0x1000000 + (0x55 * colour) * 0x10000 + (0x55
            * colour) * 0x100 + 0xFF,
{
}

fn grey(colour: u8) -> (r: u32)
    ensures
        r == grey_value(colour),
{
    match colour {
        0 => 0x000000FF,
        1 => 0x555555FF,
        2 => 0xAAAAAAFF,
        _ => 0xFFFFFFFF,
    }
}

/// The 2-bit colour of column `col` of a tile row whose bit planes are `plane_0` and
/// `plane_1`: the top bits after shifting both planes left by `col`.
pub(crate) fn row_colour(plane_0: u8, plane_1: u8, col: u8) -> (r: u8)
    requires
        col < 8,
    ensures
        r == bit_of(plane_1, (7 - col) as u8) * 2 + bit_of(plane_0, (7 - col) as u8),
{
    let p0 = plane_0 << col;
    let p1 = plane_1 << col;
    let colour = ((p1 & 0x80) >> 6) | ((p0 & 0x80) >> 7);
    assert(colour == bit_of(plane_1, (7 - col) as u8) * 2 + bit_of(plane_0, (7 - col) as u8))
        by (bit_vector)
        requires
            col < 8,
            p0 == plane_0 << col,
            p1 == plane_1 << col,
            colour == ((p1 & 0x80) >> 6) | ((p0 & 0x80) >> 7),
    ;
    colour
}

/// Draws the 256 tiles of the first pattern table in `chr` as a 128x128 image in four greys,
/// row by row.
pub fn draw_pattern_framebuffer(chr: &[u8]) -> (framebuffer: Vec<u32>)
    requires
        chr@.len() >= 0x1000,
    ensures
        framebuffer@.len() == 128 * 128,
        forall|x: int, y: int|
            0 <= x < 128 && 0 <= y < 128 ==> #[trigger] framebuffer@[y * 128 + x] == grey_value(
                pattern_colour(chr@, 0, x, y),
            ),
{
    let mut framebuffer: Vec<u32> = Vec::new();
    for screen_y in 0..128usize
        invariant
            chr@.len() >= 0x1000,
            framebuffer@.len() == screen_y * 128,
            forall|x: int, y: int|
                0 <= x < 128 && 0 <= y < screen_y ==> #[trigger] framebuffer@[y * 128 + x]
                    == grey_value(pattern_colour(chr@, 0, x, y)),
    {
        for screen_x in 0..128usize
            invariant
                chr@.len() >= 0x1000,
                screen_y < 128,
                framebuffer@.len() == screen_y * 128 + screen_x,
                forall|x: int, y: int|
                    0 <= x < 128 && 0 <= y < screen_y ==> #[trigger] framebuffer@[y * 128 + x]
                        == grey_value(pattern_colour(chr@, 0, x, y)),
                forall|x: int|
                    0 <= x < screen_x ==> #[trigger] framebuffer@[screen_y * 128 + x]
                        == grey_value(pattern_colour(chr@, 0, x, screen_y as int)),
        {
            let tile_x = screen_x / 8;
            let tile_y = screen_y / 8;
            let row = screen_y % 8;
            let col = screen_x % 8;
            let offset = (tile_x + tile_y * 16) * 16;
            let colour = row_colour(chr[offset + row], chr[offset + 8 + row], col as u8);
            framebuffer.push(grey(colour));
        }
    }
    framebuffer
}

} // verus!
