//! The tiles of the cursor sprite: one small triangle for each colour of the palette.

use crate::color::PaletteColor;
use crate::geometry::Point;
use crate::palette::PALETTE_LEN;
use crate::render::{filled_triangle, triangle_points};
use crate::tile::{lemma_painted_over, painted, Tile8bpp};
use vstd::prelude::*;

verus! {

/// The points of the cursor's shape: the triangle with the corners (0, 0),
/// (7, 4) and (4, 7), its tip at the tile's top left corner.
pub open spec fn cursor_shape() -> Seq<Point> {
    triangle_points(Point { x: 0, y: 0 }, Point { x: 7, y: 4 }, Point { x: 4, y: 7 })
}

/// The pixels of the cursor tile for the palette entry `entry`: the shape in
/// that entry on a transparent ground.
pub open spec fn cursor_pixels(entry: u8) -> Seq<u8> {
    painted(Seq::new(64, |i: int| 0u8), cursor_shape(), entry)
}

/// The tiles of the cursor sprite, one for each of the palette entries 1 to 8, in order.
pub fn draw_cursor() -> (tiles: Vec<Tile8bpp>)
    ensures
        tiles@.len() == 8,
        forall|i: int| 0 <= i < 8 ==> (#[trigger] tiles@[i])@ == cursor_pixels((i + 1) as u8),
{
    let shape = filled_triangle(Point::new(0, 0), Point::new(7, 4), Point::new(4, 7));
    let mut tile = Tile8bpp::new();
    let mut tiles: Vec<Tile8bpp> = Vec::new();
    let mut i: usize = 1;
    while i <= PALETTE_LEN
        invariant
            1 <= i <= 9,
            shape@ == cursor_shape(),
            tiles@.len() == i - 1,
            forall|j: int| 0 <= j < i - 1 ==> (#[trigger] tiles@[j])@ == cursor_pixels((j + 1) as u8),
            i == 1 ==> tile@ == Seq::new(64, |k: int| 0u8),
            i > 1 ==> tile@ == cursor_pixels((i - 1) as u8),
        decreases 9 - i,
    {
        let _ = tile.fill_points(&shape, PaletteColor::new(i as u8));
        proof {
            if i > 1 {
                lemma_painted_over(Seq::new(64, |k: int| 0u8), cursor_shape(), (i - 1) as u8, i as u8);
            }
        }
        tiles.push(tile);
        i += 1;
    }
    tiles
}

} // verus!
