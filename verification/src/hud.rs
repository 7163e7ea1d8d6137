//! The heads-up display: a white panel in the screen's top left corner with
//! three lines of help.

use crate::color::{pack, Bgr555};
use crate::display::{painted, GbaDisplay};
use crate::geometry::Point;
use crate::render::{filled_rectangle, rectangle_points, text_6x8, text_points};
use core::convert::Infallible;
use vstd::prelude::*;

verus! {

/// The cells of the screen with the heads-up display drawn over them: the
/// panel from (0, 0) to (72, 24) in white, then the three lines, each eight
/// rows below the one before, in red, green and blue.
pub open spec fn hud_cells(cells: Seq<u16>) -> Seq<u16> {
    let panel = painted(
        cells,
        rectangle_points(Point { x: 0, y: 0 }, Point { x: 72, y: 24 }),
        pack((31, 31, 31)) as u16,
    );
    let first = painted(
        panel,
        text_points("A: Draw"@, Point { x: 1, y: 1 }),
        pack((31, 0, 0)) as u16,
    );
    let second = painted(
        first,
        text_points("B: Color"@, Point { x: 1, y: 9 }),
        pack((0, 31, 0)) as u16,
    );
    painted(second, text_points("Start: Clear"@, Point { x: 1, y: 17 }), pack((0, 0, 31)) as u16)
}

/// Draws the heads-up display.
pub fn draw_hud(display: &mut GbaDisplay) -> (res: Result<(), Infallible>)
    ensures
        res.is_ok(),
        final(display)@ == hud_cells(old(display)@),
{
    proof {
        reveal_strlit("A: Draw");
        reveal_strlit("B: Color");
        reveal_strlit("Start: Clear");
    }
    let panel = filled_rectangle(Point::new(0, 0), Point::new(72, 24));
    let _ = display.fill_points(&panel, Bgr555::white());
    let first = text_6x8("A: Draw", Point::new(1, 1));
    let _ = display.fill_points(&first, Bgr555::red());
    let second = text_6x8("B: Color", Point::new(1, 9));
    let _ = display.fill_points(&second, Bgr555::green());
    let third = text_6x8("Start: Clear", Point::new(1, 17));
    let _ = display.fill_points(&third, Bgr555::blue());
    Ok(())
}

} // verus!
