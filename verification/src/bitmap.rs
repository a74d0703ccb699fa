use vstd::prelude::*;
use crate::debug::{pattern_colour, row_colour};

verus! {

/// A pixel: red, green, blue and alpha bytes.
pub type Rgba = [u8; 4];

/// The grey that shows 2-bit colour `colour`, as red, green, blue and alpha bytes.
pub open spec fn grey_rgba(colour: u8) -> Seq<u8> {
    if colour == 0 {
        seq![0x00u8, 0x00, 0x00, 0xFF]
    } else if colour == 1 {
        seq![0x55u8, 0x55, 0x55, 0xFF]
    } else if colour == 2 {
        seq![0xAAu8, 0xAA, 0xAA, 0xFF]
    } else {
        seq![0xFFu8, 0xFF, 0xFF, 0xFF]
    }
}

/// The four greys brighten evenly with the colour: 2-bit colour c is red, green and blue
/// 0x55 * c at full opacity.
pub proof fn lemma_grey_pixels(colour: u8)
    requires
        colour < 4,
    ensures
        grey_rgba(colour) == seq![(0x55 * colour) as u8, (0x55 * colour) as u8, (0x55 * colour) as u8, 0xFFu8],
{
    assert(grey_rgba(colour) =~= seq![(0x55 * colour) as u8, (0x55 * colour) as u8, (0x55 * colour) as u8, 0xFFu8]);
}

fn grey(colour: u8) -> (r: Rgba)
    ensures
        r@ == grey_rgba(colour),
{
    let r = match colour {
        0 => [0x00, 0x00, 0x00, 0xFF],
        1 => [0x55, 0x55, 0x55, 0xFF],
        2 => [0xAA, 0xAA, 0xAA, 0xFF],
        _ => [0xFF, 0xFF, 0xFF, 0xFF],
    };
    assert(r@ =~= grey_rgba(colour));
    r
}

/// An image of `width` by `height` pixels, row by row.
pub struct Bitmap {
    pub pixels: Vec<Rgba>,
    pub width: u32,
    pub height: u32,
}

impl Bitmap {
    pub fn new(pixels: Vec<Rgba>, width: u32, height: u32) -> (b: Self)
        ensures
            b.pixels == pixels,
            b.width == width,
            b.height == height,
    {
        Self { pixels, width, height }
    }

    /// Draws the 256 tiles of pattern table `table` (the first when `table` is 0, the
    /// second otherwise) in `chr` as a 128x128 bitmap in four greys.
    pub fn from_pattern_table(chr: &[u8], table: u8) -> (b: Self)
        requires
            chr@.len() >= if table == 0 { 0x1000int } else { 0x2000int },
        ensures
            b.width == 128 && b.height == 128,
            b.pixels@.len() == 128 * 128,
            forall|x: int, y: int|
                0 <= x < 128 && 0 <= y < 128 ==> (#[trigger] b.pixels@[y * 128 + x])@ == grey_rgba(
                    pattern_colour(chr@, if table == 0 { 0int } else { 0x1000int }, x, y),
                ),
    {
        let base: usize = if table == 0 { 0 } else { 0x1000 };
        let ghost b = base as int;
        let mut pixels: Vec<Rgba> = Vec::new();
        for screen_y in 0..128usize
            invariant
                b == (if table == 0 { 0int } else { 0x1000int }),
                base == b,
                chr@.len() >= b + 0x1000,
                pixels@.len() == screen_y * 128,
                forall|x: int, y: int|
                    0 <= x < 128 && 0 <= y < screen_y ==> (#[trigger] pixels@[y * 128 + x])@
                        == grey_rgba(pattern_colour(chr@, b, x, y)),
        {
            for screen_x in 0..128usize
                invariant
                    b == (if table == 0 { 0int } else { 0x1000int }),
                    base == b,
                    chr@.len() >= b + 0x1000,
                    screen_y < 128,
                    pixels@.len() == screen_y * 128 + screen_x,
                    forall|x: int, y: int|
                        0 <= x < 128 && 0 <= y < screen_y ==> (#[trigger] pixels@[y * 128 + x])@
                            == grey_rgba(pattern_colour(chr@, b, x, y)),
                    forall|x: int|
                        0 <= x < screen_x ==> (#[trigger] pixels@[screen_y * 128 + x])@
                            == grey_rgba(pattern_colour(chr@, b, x, screen_y as int)),
            {
                let tile_x = screen_x / 8;
                let tile_y = screen_y / 8;
                let row = screen_y % 8;
                let col = screen_x % 8;
                let offset = base + (tile_x + tile_y * 16) * 16;
                let colour = row_colour(chr[offset + row], chr[offset + 8 + row], col as u8);
                pixels.push(grey(colour));
            }
        }
        Self::new(pixels, 128, 128)
    }
}

} // verus!
