//! The points that the shapes and the text of the `embedded-graphics` crate
//! cover. That crate rasterises; this module hands its points on as plain
//! values, and the surfaces write them.

use crate::geometry::Point;
use embedded_graphics::fonts::{Font6x8, Text};
use embedded_graphics::pixelcolor::BinaryColor;
use embedded_graphics::primitives::{Primitive, Rectangle, Triangle};
use embedded_graphics::style::{PrimitiveStyle, PrimitiveStyleBuilder, TextStyle};
use vstd::prelude::*;

verus! {

/// The largest coordinate, either way from the origin, that a shape may have.
pub const SHAPE_LIMIT: i32 = 1024;

/// The largest number of characters that a text may have.
pub const TEXT_LIMIT: usize = 4096;

/// Whether both coordinates of a point are within the limit for shapes.
pub open spec fn in_shape_limit(p: Point) -> bool {
    -1024 <= p.x <= 1024 && -1024 <= p.y <= 1024
}

/// The points of the rectangle with these two corners, both included: row by
/// row from the top, each row from the left.
pub open spec fn rectangle_points(top_left: Point, bottom_right: Point) -> Seq<Point> {
    let width = bottom_right.x - top_left.x + 1;
    let height = bottom_right.y - top_left.y + 1;
    Seq::new(
        (width * height) as nat,
        |i: int| Point { x: (top_left.x + i % width) as i32, y: (top_left.y + i / width) as i32 },
    )
}

/// The points that `embedded-graphics` draws for the triangle with these
/// corners, with a stroke one pixel wide and a fill, in the order in which it
/// draws them.
pub uninterp spec fn triangle_points(a: Point, b: Point, c: Point) -> Seq<Point>;

/// The points that `embedded-graphics` draws for a text in its 6x8 font with
/// no background, the text's top left corner at `at`, in the order in which
/// it draws them.
pub uninterp spec fn text_points(text: Seq<char>, at: Point) -> Seq<Point>;

/// Collects the positions that `embedded_graphics::primitives::Rectangle`,
/// styled with `PrimitiveStyle::with_fill`, yields from `into_iter`.
///
/// Not proved, but taken from that crate: the iterator starts at the top
/// left corner, goes right to the column of the bottom right corner, then to
/// the next row, and ends after the row of the bottom right corner. The
/// corners are ordered and within the limit, so that its arithmetic cannot
/// overflow.
#[verifier::external_body]
pub(crate) fn filled_rectangle(top_left: Point, bottom_right: Point) -> (out: Vec<Point>)
    requires
        in_shape_limit(top_left),
        in_shape_limit(bottom_right),
        top_left.x <= bottom_right.x,
        top_left.y <= bottom_right.y,
    ensures
        out@ == rectangle_points(top_left, bottom_right),
{
    let shape = Rectangle::new(
        embedded_graphics::geometry::Point::new(top_left.x, top_left.y),
        embedded_graphics::geometry::Point::new(bottom_right.x, bottom_right.y),
    ).into_styled(PrimitiveStyle::with_fill(BinaryColor::On));
    (&shape).into_iter().map(|pixel| Point::new(pixel.0.x, pixel.0.y)).collect()
}

/// Collects the positions that `embedded_graphics::primitives::Triangle`,
/// styled with a stroke of width 1 and a fill, yields from `into_iter`.
///
/// Not proved, but taken from that crate: the positions are a function of
/// the three corners alone, which `triangle_points` names; nothing else is
/// claimed of them. With stroke and fill of one colour every pixel has that
/// colour, so the positions are all that a caller needs. The corners are
/// within the limit, so that the crate's arithmetic cannot overflow.
#[verifier::external_body]
pub(crate) fn filled_triangle(a: Point, b: Point, c: Point) -> (out: Vec<Point>)
    requires
        in_shape_limit(a),
        in_shape_limit(b),
        in_shape_limit(c),
    ensures
        out@ == triangle_points(a, b, c),
{
    let style = PrimitiveStyleBuilder::new().stroke_color(BinaryColor::On).fill_color(
        BinaryColor::On,
    ).stroke_width(1).build();
    let shape = Triangle::new(
        embedded_graphics::geometry::Point::new(a.x, a.y),
        embedded_graphics::geometry::Point::new(b.x, b.y),
        embedded_graphics::geometry::Point::new(c.x, c.y),
    ).into_styled(style);
    (&shape).into_iter().map(|pixel| Point::new(pixel.0.x, pixel.0.y)).collect()
}

/// Collects the positions that `embedded_graphics::fonts::Text`, styled with
/// `TextStyle::new` and the font `Font6x8`, yields from `into_iter`.
///
/// Not proved, but taken from that crate: the positions are a function of
/// the characters and of the text's position alone, which `text_points`
/// names; nothing else is claimed of them. The style has no background, so
/// every pixel has the text's colour. The text is short enough and near
/// enough to the origin for the crate's arithmetic not to overflow.
#[verifier::external_body]
pub(crate) fn text_6x8(text: &str, at: Point) -> (out: Vec<Point>)
    requires
        text@.len() <= TEXT_LIMIT,
        in_shape_limit(at),
    ensures
        out@ == text_points(text@, at),
{
    let styled = Text::new(text, embedded_graphics::geometry::Point::new(at.x, at.y)).into_styled(
        TextStyle::new(Font6x8, BinaryColor::On),
    );
    (&styled).into_iter().map(|pixel| Point::new(pixel.0.x, pixel.0.y)).collect()
}

} // verus!
