//! The bitmap surface: 240x160 pixels of one sixteen-bit colour each, row by row.

use crate::color::{
    channels_in_range, lemma_pack_unpack, lemma_unpack_pack, pack, unpack, Bgr555, Channels,
};
use crate::geometry::{Pixel, Point, Size};
use core::convert::Infallible;
use vstd::prelude::*;

verus! {

/// The width of the screen, in pixels.
pub const WIDTH: u32 = 240;

/// The height of the screen, in pixels.
pub const HEIGHT: u32 = 160;

/// The number of pixels on the screen.
pub const PIXEL_COUNT: usize = 38400;

/// The extent of the screen.
pub open spec fn screen_size() -> Size {
    Size { width: 240, height: 160 }
}

/// The place of a point among the cells of the screen, row by row.
pub open spec fn cell_index(p: Point) -> int {
    p.x + 240 * p.y
}

/// The cells after a write of `raw` at `p`: on the screen that one cell
/// changes, off it nothing does.
pub open spec fn written(cells: Seq<u16>, p: Point, raw: u16) -> Seq<u16> {
    if p.within(screen_size()) {
        cells.update(cell_index(p), raw)
    } else {
        cells
    }
}

/// The cells after the writes of `items`, in order.
pub open spec fn written_all(cells: Seq<u16>, items: Seq<Pixel<Bgr555>>) -> Seq<u16>
    decreases items.len(),
{
    if items.len() == 0 {
        cells
    } else {
        written(
            written_all(cells, items.drop_last()),
            items.last().0,
            pack(items.last().1@) as u16,
        )
    }
}

/// The cells after a write of `raw` at each of `points`, in order.
pub open spec fn painted(cells: Seq<u16>, points: Seq<Point>, raw: u16) -> Seq<u16>
    decreases points.len(),
{
    if points.len() == 0 {
        cells
    } else {
        written(painted(cells, points.drop_last(), raw), points.last(), raw)
    }
}

/// Whether one of `points` lies on the screen in cell `k`.
pub open spec fn covers(points: Seq<Point>, k: int) -> bool {
    exists|j: int|
        0 <= j < points.len() && (#[trigger] points[j]).within(screen_size()) && cell_index(
            points[j],
        ) == k
}

/// One pixel of a decoded image: its column, its row and its colour as the
/// image's decoder hands them out.
#[derive(Clone, Copy, Debug, PartialEq, Eq, Structural)]
pub struct ImagePixel {
    pub x: u32,
    pub y: u32,
    pub color: u32,
}

/// Where an image pixel goes when the image's corner lies at the origin. A
/// column or row too large for a coordinate gives a point off the screen.
pub open spec fn image_point(pixel: ImagePixel) -> Point {
    Point {
        x: if pixel.x <= i32::MAX {
            pixel.x as i32
        } else {
            -1i32
        },
        y: if pixel.y <= i32::MAX {
            pixel.y as i32
        } else {
            -1i32
        },
    }
}

/// The cells after the pixels of an image are written, in order. Of each
/// colour the low fifteen bits are stored.
pub open spec fn drawn_image(cells: Seq<u16>, image: Seq<ImagePixel>) -> Seq<u16>
    decreases image.len(),
{
    if image.len() == 0 {
        cells
    } else {
        written(
            drawn_image(cells, image.drop_last()),
            image_point(image.last()),
            (image.last().color % 0x8000) as u16,
        )
    }
}

/// A screen of which every cell holds `raw`.
pub open spec fn cleared(raw: u16) -> Seq<u16> {
    Seq::new(38400, |i: int| raw)
}

/// The display: one front buffer of 240x160 colours, with no second page.
pub struct GbaDisplay {
    cells: [u16; 38400],
}

impl View for GbaDisplay {
    type V = Seq<u16>;

    /// The 38400 stored colours, row by row.
    closed spec fn view(&self) -> Seq<u16> {
        self.cells@
    }
}

impl GbaDisplay {
    /// A display of which every pixel is black.
    pub fn new() -> (display: GbaDisplay)
        ensures
            display@ == cleared(0),
    {
        let display = GbaDisplay { cells: [0u16;38400] };
        assert(display@ =~= cleared(0));
        display
    }

    /// The cell that holds the pixel at `p`; `None` for a point off the screen.
    pub fn cell_of(p: Point) -> (r: Option<usize>)
        ensures
            p.within(screen_size()) ==> r == Some(cell_index(p) as usize) && cell_index(p) < 38400,
            !p.within(screen_size()) ==> r.is_none(),
    {
        if let Some((x, y)) = p.try_into_unsigned() {
            if x < WIDTH && y < HEIGHT {
                return Some((x + y * WIDTH) as usize);
            }
        }
        None
    }

    /// Writes one pixel. A pixel off the screen is dropped.
    pub fn draw_pixel(&mut self, pixel: Pixel<Bgr555>) -> (res: Result<(), Infallible>)
        ensures
            res.is_ok(),
            final(self)@ == written(old(self)@, pixel.0, pack(pixel.1@) as u16),
    {
        if let Some(cell) = Self::cell_of(pixel.0) {
            self.cells[cell] = pixel.1.into_storage();
        }
        Ok(())
    }

    /// The extent of the screen: 240 by 160.
    pub fn size(&self) -> (s: Size)
        ensures
            s == screen_size(),
    {
        Size::new(WIDTH, HEIGHT)
    }

    /// Fills the whole screen with one colour.
    pub fn clear(&mut self, color: Bgr555) -> (res: Result<(), Infallible>)
        ensures
            res.is_ok(),
            final(self)@ == cleared(pack(color@) as u16),
    {
        let raw: u16 = color.into_storage();
        self.cells = [raw;38400];
        assert(self@ =~= cleared(raw));
        Ok(())
    }

    /// Reads one pixel; `None` off the screen.
    pub fn pixel(&self, p: Point) -> (r: Option<Bgr555>)
        ensures
            p.within(screen_size()) ==> r.is_some() && r.unwrap().wf() && r.unwrap()@ == unpack(
                self@[cell_index(p)] as int,
            ),
            !p.within(screen_size()) ==> r.is_none(),
    {
        match Self::cell_of(p) {
            Some(cell) => Some(Bgr555::from_storage(self.cells[cell])),
            None => None,
        }
    }

    /// Writes the pixels of `items`, in order.
    pub fn draw_iter(&mut self, items: &Vec<Pixel<Bgr555>>) -> (res: Result<(), Infallible>)
        ensures
            res.is_ok(),
            final(self)@ == written_all(old(self)@, items@),
    {
        let mut i: usize = 0;
        while i < items.len()
            invariant
                i <= items.len(),
                self@ == written_all(old(self)@, items@.take(i as int)),
            decreases items.len() - i,
        {
            let _ = self.draw_pixel(items[i]);
            proof {
                assert(items@.take(i + 1).drop_last() =~= items@.take(i as int));
            }
            i += 1;
        }
        proof {
            assert(items@.take(i as int) =~= items@);
        }
        Ok(())
    }

    /// Writes one colour at each of `points`, in order.
    pub fn fill_points(&mut self, points: &Vec<Point>, color: Bgr555) -> (res: Result<
        (),
        Infallible,
    >)
        ensures
            res.is_ok(),
            final(self)@ == painted(old(self)@, points@, pack(color@) as u16),
    {
        let mut i: usize = 0;
        while i < points.len()
            invariant
                i <= points.len(),
                self@ == painted(old(self)@, points@.take(i as int), pack(color@) as u16),
            decreases points.len() - i,
        {
            let _ = self.draw_pixel(Pixel(points[i], color));
            proof {
                assert(points@.take(i + 1).drop_last() =~= points@.take(i as int));
            }
            i += 1;
        }
        proof {
            assert(points@.take(i as int) =~= points@);
        }
        Ok(())
    }

    /// Draws a decoded image with its corner at the origin: each pixel at
    /// its column and row, in the order given. What falls off the screen is
    /// dropped.
    pub fn draw_background(&mut self, image: &Vec<ImagePixel>) -> (res: Result<(), Infallible>)
        ensures
            res.is_ok(),
            final(self)@ == drawn_image(old(self)@, image@),
    {
        let mut i: usize = 0;
        while i < image.len()
            invariant
                i <= image.len(),
                self@ == drawn_image(old(self)@, image@.take(i as int)),
            decreases image.len() - i,
        {
            let item = image[i];
            let color = Bgr555::from_storage((item.color & 0xffff) as u16);
            let x: i32 = if item.x <= 0x7fff_ffff {
                item.x as i32
            } else {
                -1
            };
            let y: i32 = if item.y <= 0x7fff_ffff {
                item.y as i32
            } else {
                -1
            };
            proof {
                let c = item.color;
                assert(c & 0xffff == c % 0x10000) by (bit_vector);
                lemma_pack_unpack((c & 0xffff) as u16);
                assert(image@.take(i + 1).drop_last() =~= image@.take(i as int));
            }
            let _ = self.draw_pixel(Pixel(Point::new(x, y), color));
            i += 1;
        }
        proof {
            assert(image@.take(i as int) =~= image@);
        }
        Ok(())
    }

    /// The display always holds one cell for each pixel of the screen.
    pub proof fn lemma_len(self)
        ensures
            self@.len() == 38400,
    {
    }
}

/// Each point of the screen has a cell of its own.
pub proof fn lemma_cell_index(p: Point, q: Point)
    requires
        p.within(screen_size()),
        q.within(screen_size()),
    ensures
        0 <= cell_index(p) < 38400,
        cell_index(p) == cell_index(q) ==> p == q,
{
}

/// After a clear to a colour, every pixel of the screen reads as that colour.
pub proof fn lemma_clear_then_read(ch: Channels, p: Point)
    requires
        channels_in_range(ch),
        p.within(screen_size()),
    ensures
        unpack(cleared(pack(ch) as u16)[cell_index(p)] as int) == ch,
{
    lemma_unpack_pack(ch);
}

/// After a write on the screen, the pixel written reads as the colour
/// written, and every other pixel reads as before.
pub proof fn lemma_write_then_read(cells: Seq<u16>, p: Point, ch: Channels, q: Point)
    requires
        cells.len() == 38400,
        channels_in_range(ch),
        p.within(screen_size()),
        q.within(screen_size()),
    ensures
        written(cells, p, pack(ch) as u16).len() == 38400,
        unpack(written(cells, p, pack(ch) as u16)[cell_index(p)] as int) == ch,
        q != p ==> written(cells, p, pack(ch) as u16)[cell_index(q)] == cells[cell_index(q)],
{
    lemma_unpack_pack(ch);
    lemma_cell_index(p, q);
}

/// After one colour is written at each of a run of points, a cell that one
/// of the points covers holds that colour, and every other cell is as before.
pub proof fn lemma_painted_cell(cells: Seq<u16>, points: Seq<Point>, raw: u16, k: int)
    requires
        cells.len() == 38400,
        0 <= k < 38400,
    ensures
        painted(cells, points, raw).len() == 38400,
        painted(cells, points, raw)[k] == if covers(points, k) {
            raw
        } else {
            cells[k]
        },
    decreases points.len(),
{
    if points.len() > 0 {
        let front = points.drop_last();
        let last = points.last();
        lemma_painted_cell(cells, front, raw, k);
        if covers(front, k) {
            let j = choose|j: int|
                0 <= j < front.len() && (#[trigger] front[j]).within(screen_size()) && cell_index(
                    front[j],
                ) == k;
            assert(points[j] == front[j]);
        }
        if covers(points, k) && !(last.within(screen_size()) && cell_index(last) == k) {
            let j = choose|j: int|
                0 <= j < points.len() && (#[trigger] points[j]).within(screen_size())
                    && cell_index(points[j]) == k;
            assert(front[j] == points[j]);
        }
        if last.within(screen_size()) && cell_index(last) == k {
            assert(points[points.len() - 1] == last);
        }
    }
}

/// A write off the screen changes no cell.
pub proof fn lemma_write_outside(cells: Seq<u16>, p: Point, raw: u16)
    requires
        !p.within(screen_size()),
    ensures
        written(cells, p, raw) == cells,
{
}

} // verus!
