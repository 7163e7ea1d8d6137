//! The tile surface: 8x8 pixels of one byte each, packed four to a word.

use crate::color::PaletteColor;
use crate::geometry::{Pixel, Point, Size};
use core::convert::Infallible;
use vstd::prelude::*;

verus! {

/// The width and the height of a tile, in pixels.
pub const TILE_SIDE: u32 = 8;

/// The number of pixels in a tile.
pub const TILE_PIXELS: usize = 64;

/// The number of words that hold a tile.
pub const TILE_WORDS: usize = 16;

/// The extent of a tile.
pub open spec fn tile_size() -> Size {
    Size { width: 8, height: 8 }
}

/// The byte in lane `k` of a word; lane 0 is the lowest byte.
pub open spec fn lane(word: u32, k: u32) -> u8 {
    ((word >> (8 * k)) & 0xff) as u8
}

/// The pixels that the words of a tile hold, row by row: pixel `i` is lane
/// `i % 4` of word `i / 4`.
pub open spec fn pixels_of(words: Seq<u32>) -> Seq<u8> {
    Seq::new(4 * words.len(), |i: int| lane(words[i / 4], (i % 4) as u32))
}

/// The place of a point among the pixels of a tile, row by row.
pub open spec fn pixel_index(p: Point) -> int {
    p.x + 8 * p.y
}

/// The word that holds the pixel at `p`.
pub open spec fn word_of(p: Point) -> int {
    pixel_index(p) / 4
}

/// The byte lane, within its word, of the pixel at `p`.
pub open spec fn lane_of(p: Point) -> u32 {
    (pixel_index(p) % 4) as u32
}

/// The pixels of a tile after a write of `v` at `p`: inside the tile that one
/// pixel changes, outside it nothing does.
pub open spec fn drawn(pixels: Seq<u8>, p: Point, v: u8) -> Seq<u8> {
    if p.within(tile_size()) {
        pixels.update(pixel_index(p), v)
    } else {
        pixels
    }
}

/// The pixels of a tile after the writes of `items`, in order.
pub open spec fn drawn_all(pixels: Seq<u8>, items: Seq<Pixel<PaletteColor>>) -> Seq<u8>
    decreases items.len(),
{
    if items.len() == 0 {
        pixels
    } else {
        drawn(drawn_all(pixels, items.drop_last()), items.last().0, items.last().1@)
    }
}

/// The pixels of a tile after a write of `v` at each of `points`, in order.
pub open spec fn painted(pixels: Seq<u8>, points: Seq<Point>, v: u8) -> Seq<u8>
    decreases points.len(),
{
    if points.len() == 0 {
        pixels
    } else {
        drawn(painted(pixels, points.drop_last(), v), points.last(), v)
    }
}

/// Whether one of `points` lies in the tile at pixel `k`.
pub open spec fn covers(points: Seq<Point>, k: int) -> bool {
    exists|j: int|
        0 <= j < points.len() && (#[trigger] points[j]).within(tile_size()) && pixel_index(
            points[j],
        ) == k
}

/// Replacing one lane of a word sets that lane and keeps the other three.
proof fn lemma_lane_replaced(word: u32, k: u32, v: u8, j: u32)
    by (bit_vector)
    requires
        k < 4,
        j < 4,
    ensures
        lane((word & !(0xffu32 << (8 * k))) | ((v as u32) << (8 * k)), j) == if j == k {
            v
        } else {
            lane(word, j)
        },
{
}

/// A word is made of its four lanes.
proof fn lemma_word_of_lanes(a: u32, b: u32)
    by (bit_vector)
    requires
        lane(a, 0) == lane(b, 0),
        lane(a, 1) == lane(b, 1),
        lane(a, 2) == lane(b, 2),
        lane(a, 3) == lane(b, 3),
    ensures
        a == b,
{
}

/// An 8x8 tile of palette indices, as the sixteen words that video memory holds.
#[derive(Clone, Copy, Debug)]
pub struct Tile8bpp(pub [u32; 16]);

impl View for Tile8bpp {
    type V = Seq<u8>;

    /// The 64 palette indices, row by row.
    open spec fn view(&self) -> Seq<u8> {
        pixels_of(self.0@)
    }
}

impl Tile8bpp {
    /// A tile of which every pixel shows nothing.
    pub fn new() -> (tile: Tile8bpp)
        ensures
            tile.0@ == Seq::new(16, |i: int| 0u32),
            tile@ == Seq::new(64, |i: int| 0u8),
    {
        let tile = Tile8bpp([0u32;16]);
        proof {
            assert(lane(0u32, 0) == 0 && lane(0u32, 1) == 0 && lane(0u32, 2) == 0 && lane(0u32, 3)
                == 0) by (bit_vector);
            assert(tile.0@ =~= Seq::new(16, |i: int| 0u32));
            assert(tile@ =~= Seq::new(64, |i: int| 0u8));
        }
        tile
    }

    /// Writes one pixel. A pixel outside the tile is dropped, and the words
    /// stay as they were.
    pub fn draw_pixel(&mut self, pixel: Pixel<PaletteColor>) -> (res: Result<(), Infallible>)
        ensures
            res.is_ok(),
            final(self)@ == drawn(old(self)@, pixel.0, pixel.1@),
            !pixel.0.within(tile_size()) ==> final(self).0 == old(self).0,
            pixel.0.within(tile_size()) ==> forall|w: int|
                0 <= w < 16 && w != word_of(pixel.0) ==> final(self).0[w] == old(self).0[w],
    {
        if let Some((x, y)) = pixel.0.try_into_unsigned() {
            if x < TILE_SIDE && y < TILE_SIDE {
                let index: u32 = x + y * 8;
                let w: usize = (index / 4) as usize;
                let k: u32 = index % 4;
                let word: u32 = self.0[w];
                let v: u8 = pixel.1.into_storage();
                let replaced: u32 = (word & !(0xffu32 << (k * 8))) | ((v as u32) << (k * 8));
                self.0[w] = replaced;
                proof {
                    assert(k * 8 == 8 * k);
                    assert forall|i: int| 0 <= i < 64 implies self@[i] == old(self)@.update(
                        index as int,
                        v,
                    )[i] by {
                        if i / 4 == w {
                            lemma_lane_replaced(word, k, v, (i % 4) as u32);
                        }
                    }
                    assert(self@ =~= old(self)@.update(index as int, v));
                }
            }
        }
        Ok(())
    }

    /// The extent of the tile: 8 by 8.
    pub fn size(&self) -> (s: Size)
        ensures
            s == tile_size(),
    {
        Size::new(TILE_SIDE, TILE_SIDE)
    }

    /// Reads one pixel; `None` outside the tile.
    pub fn pixel(&self, p: Point) -> (r: Option<PaletteColor>)
        ensures
            p.within(tile_size()) ==> r.is_some() && r.unwrap()@ == self@[pixel_index(p)],
            !p.within(tile_size()) ==> r.is_none(),
    {
        if let Some((x, y)) = p.try_into_unsigned() {
            if x < TILE_SIDE && y < TILE_SIDE {
                let index: u32 = x + y * 8;
                let word: u32 = self.0[(index / 4) as usize];
                let k: u32 = index % 4;
                assert(k * 8 == 8 * k);
                assert(((word >> (8 * k)) & 0xff) < 256) by (bit_vector);
                return Some(PaletteColor::new(((word >> (k * 8)) & 0xff) as u8));
            }
        }
        None
    }

    /// Writes one palette index at each of `points`, in order.
    pub fn fill_points(&mut self, points: &Vec<Point>, color: PaletteColor) -> (res: Result<
        (),
        Infallible,
    >)
        ensures
            res.is_ok(),
            final(self)@ == painted(old(self)@, points@, color@),
    {
        let mut i: usize = 0;
        while i < points.len()
            invariant
                i <= points.len(),
                self@ == painted(old(self)@, points@.take(i as int), color@),
            decreases points.len() - i,
        {
            let _ = self.draw_pixel(Pixel(points[i], color));
            proof {
                assert(points@.take(i + 1).drop_last() =~= points@.take(i as int));
            }
            i += 1;
        }
        proof {
            assert(points@.take(i as int) =~= points@);
        }
        Ok(())
    }

    /// Writes the pixels of `items`, in order.
    pub fn draw_iter(&mut self, items: &Vec<Pixel<PaletteColor>>) -> (res: Result<(), Infallible>)
        ensures
            res.is_ok(),
            final(self)@ == drawn_all(old(self)@, items@),
    {
        let mut i: usize = 0;
        while i < items.len()
            invariant
                i <= items.len(),
                self@ == drawn_all(old(self)@, items@.take(i as int)),
            decreases items.len() - i,
        {
            let _ = self.draw_pixel(items[i]);
            proof {
                assert(items@.take(i + 1).drop_last() =~= items@.take(i as int));
            }
            i += 1;
        }
        proof {
            assert(items@.take(i as int) =~= items@);
        }
        Ok(())
    }
}

/// A write inside the tile sets the pixel it names, and every other pixel,
/// the three that share its word among them, stays as it was.
pub proof fn lemma_write_then_read(pixels: Seq<u8>, p: Point, v: u8)
    requires
        pixels.len() == 64,
        p.within(tile_size()),
    ensures
        drawn(pixels, p, v).len() == 64,
        drawn(pixels, p, v)[pixel_index(p)] == v,
        forall|i: int| 0 <= i < 64 && i != pixel_index(p) ==> drawn(pixels, p, v)[i] == pixels[i],
{
}

/// In the words of a tile, a write inside it sets one byte lane: that lane
/// reads back as the index written, the three other lanes of its word are as
/// before, and so is every other word.
pub proof fn lemma_write_in_words(before: Tile8bpp, after: Tile8bpp, p: Point, v: u8)
    requires
        p.within(tile_size()),
        after@ == drawn(before@, p, v),
    ensures
        lane(after.0[word_of(p)], lane_of(p)) == v,
        forall|k: u32|
            k < 4 && k != lane_of(p) ==> #[trigger] lane(after.0[word_of(p)], k) == lane(
                before.0[word_of(p)],
                k,
            ),
        forall|w: int| 0 <= w < 16 && w != word_of(p) ==> after.0[w] == before.0[w],
{
    let i = pixel_index(p);
    assert(before.0@.len() == 16 && after.0@.len() == 16);
    assert(after@[i] == v);
    assert forall|k: u32| k < 4 && k != lane_of(p) implies #[trigger] lane(
        after.0[word_of(p)],
        k,
    ) == lane(before.0[word_of(p)], k) by {
        let j = 4 * (i / 4) + k;
        assert(j / 4 == i / 4 && j % 4 == k);
        assert(after@[j] == before@[j]);
    }
    assert forall|w: int| 0 <= w < 16 && w != i / 4 implies after.0[w] == before.0[w] by {
        assert((4 * w) / 4 == w && (4 * w + 1) / 4 == w && (4 * w + 2) / 4 == w && (4 * w + 3) / 4
            == w);
        assert(after@[4 * w] == before@[4 * w]);
        assert(after@[4 * w + 1] == before@[4 * w + 1]);
        assert(after@[4 * w + 2] == before@[4 * w + 2]);
        assert(after@[4 * w + 3] == before@[4 * w + 3]);
        assert(after@[4 * w] == lane(after.0@[w], 0) && before@[4 * w] == lane(before.0@[w], 0));
        assert(after@[4 * w + 1] == lane(after.0@[w], 1) && before@[4 * w + 1] == lane(
            before.0@[w],
            1,
        ));
        assert(after@[4 * w + 2] == lane(after.0@[w], 2) && before@[4 * w + 2] == lane(
            before.0@[w],
            2,
        ));
        assert(after@[4 * w + 3] == lane(after.0@[w], 3) && before@[4 * w + 3] == lane(
            before.0@[w],
            3,
        ));
        lemma_word_of_lanes(after.0[w], before.0[w]);
    }
}

/// A write outside the tile changes no pixel.
pub proof fn lemma_write_outside(pixels: Seq<u8>, p: Point, v: u8)
    requires
        !p.within(tile_size()),
    ensures
        drawn(pixels, p, v) == pixels,
{
}

/// After one palette index is written at each of a run of points, a pixel
/// that one of the points covers holds that index, and every other pixel is
/// as before.
pub proof fn lemma_painted_pixel(pixels: Seq<u8>, points: Seq<Point>, v: u8, k: int)
    requires
        pixels.len() == 64,
        0 <= k < 64,
    ensures
        painted(pixels, points, v).len() == 64,
        painted(pixels, points, v)[k] == if covers(points, k) {
            v
        } else {
            pixels[k]
        },
    decreases points.len(),
{
    if points.len() > 0 {
        let front = points.drop_last();
        let last = points.last();
        lemma_painted_pixel(pixels, front, v, k);
        if covers(front, k) {
            let j = choose|j: int|
                0 <= j < front.len() && (#[trigger] front[j]).within(tile_size()) && pixel_index(
                    front[j],
                ) == k;
            assert(points[j] == front[j]);
        }
        if covers(points, k) && !(last.within(tile_size()) && pixel_index(last) == k) {
            let j = choose|j: int|
                0 <= j < points.len() && (#[trigger] points[j]).within(tile_size()) && pixel_index(
                    points[j],
                ) == k;
            assert(front[j] == points[j]);
        }
        if last.within(tile_size()) && pixel_index(last) == k {
            assert(points[points.len() - 1] == last);
        }
    }
}

/// Writing a second palette index at the same points leaves no trace of the first.
pub proof fn lemma_painted_over(pixels: Seq<u8>, points: Seq<Point>, first: u8, second: u8)
    requires
        pixels.len() == 64,
    ensures
        painted(painted(pixels, points, first), points, second) == painted(pixels, points, second),
{
    let once = painted(pixels, points, first);
    assert forall|k: int| 0 <= k < 64 implies painted(once, points, second)[k] == painted(
        pixels,
        points,
        second,
    )[k] by {
        lemma_painted_pixel(pixels, points, first, k);
        lemma_painted_pixel(once, points, second, k);
        lemma_painted_pixel(pixels, points, second, k);
    }
    lemma_painted_pixel(pixels, points, first, 0);
    lemma_painted_pixel(once, points, second, 0);
    lemma_painted_pixel(pixels, points, second, 0);
    assert(painted(once, points, second) =~= painted(pixels, points, second));
}

/// The pixels of a tile determine its words: two tiles that show the same
/// pixels hold the same words.
pub proof fn lemma_pixels_determine_words(a: Tile8bpp, b: Tile8bpp)
    requires
        a@ == b@,
    ensures
        a.0 == b.0,
{
    assert forall|w: int| 0 <= w < 16 implies a.0[w] == b.0[w] by {
        assert((4 * w) / 4 == w && (4 * w + 1) / 4 == w && (4 * w + 2) / 4 == w && (4 * w + 3) / 4
            == w);
        assert(a.0@.len() == 16 && b.0@.len() == 16);
        assert(a@[4 * w] == lane(a.0@[w], 0) && b@[4 * w] == lane(b.0@[w], 0));
        assert(a@[4 * w + 1] == lane(a.0@[w], 1) && b@[4 * w + 1] == lane(b.0@[w], 1));
        assert(a@[4 * w + 2] == lane(a.0@[w], 2) && b@[4 * w + 2] == lane(b.0@[w], 2));
        assert(a@[4 * w + 3] == lane(a.0@[w], 3) && b@[4 * w + 3] == lane(b.0@[w], 3));
        lemma_word_of_lanes(a.0[w], b.0[w]);
    }
    assert(a.0 =~= b.0);
}

} // verus!
