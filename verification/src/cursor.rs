//! The cursor of the drawing program: where it stands, which colour it
//! carries, and what one frame of input does to it.

use crate::color::Bgr555;
use crate::display::{screen_size, HEIGHT, WIDTH};
use crate::geometry::{Pixel, Point};
use crate::palette::{color_at, colors, PALETTE_LEN};
use vstd::prelude::*;

verus! {

/// The first tile of the cursor sprites, as the sprite attributes count tiles.
pub const CURSOR_TILE_BASE: u16 = 514;

/// The keys that are down in one frame.
#[derive(Clone, Copy, Debug, PartialEq, Eq, Structural)]
pub struct KeyInput {
    pub a: bool,
    pub b: bool,
    pub start: bool,
    pub right: bool,
    pub left: bool,
    pub up: bool,
    pub down: bool,
}

/// Where a sprite is shown and which tile it shows.
#[derive(Clone, Copy, Debug, PartialEq, Eq, Structural)]
pub struct ObjectAttributes {
    pub row_coordinate: u16,
    pub col_coordinate: u16,
    pub tile_id: u16,
    pub is_8bpp: bool,
}

/// What the frame loop does after one frame's input.
#[derive(Clone, Copy, Debug, PartialEq, Eq)]
pub enum FrameAction {
    /// Draw the background and the heads-up display again.
    Redraw,
    /// Show the cursor sprite as `sprite` says, and draw `paint` if there is one.
    Move { sprite: ObjectAttributes, paint: Option<Pixel<Bgr555>> },
    /// The cursor would have left the screen: it stays, and nothing is drawn.
    Stay,
}

/// A cursor as numbers: its position and the place of its colour in the palette table.
pub struct CursorView {
    pub point: Point,
    pub color_index: int,
}

/// The cursor: a point of the screen and one of the eight colours.
#[derive(Clone, Copy, Debug, PartialEq, Eq, Structural)]
pub struct Cursor {
    point: Point,
    color_index: usize,
}

impl View for Cursor {
    type V = CursorView;

    closed spec fn view(&self) -> CursorView {
        CursorView { point: self.point, color_index: self.color_index as int }
    }
}

/// The step along a row that the keys ask for: right wins over left.
pub open spec fn dx(input: KeyInput) -> int {
    if input.right {
        1
    } else if input.left {
        -1
    } else {
        0
    }
}

/// The step along a column that the keys ask for: down wins over up.
pub open spec fn dy(input: KeyInput) -> int {
    if input.down {
        1
    } else if input.up {
        -1
    } else {
        0
    }
}

/// The colour that the cursor carries after the frame: B takes the next
/// colour of the table, and the first after the last.
pub open spec fn next_color(color_index: int, input: KeyInput) -> int {
    if input.b {
        if color_index + 1 >= 8 {
            0
        } else {
            color_index + 1
        }
    } else {
        color_index
    }
}

/// The point that the keys ask the cursor to go to.
pub open spec fn target(point: Point, input: KeyInput) -> Point {
    Point { x: (point.x + dx(input)) as i32, y: (point.y + dy(input)) as i32 }
}

/// The cursor after one frame. Start changes nothing. Otherwise the colour
/// follows B, and the cursor goes where the keys ask unless that is off the
/// screen.
pub open spec fn next_cursor(cursor: CursorView, input: KeyInput) -> CursorView {
    if input.start {
        cursor
    } else {
        CursorView {
            point: if target(cursor.point, input).within(screen_size()) {
                target(cursor.point, input)
            } else {
                cursor.point
            },
            color_index: next_color(cursor.color_index, input),
        }
    }
}

/// The attributes of the cursor sprite for a colour and a position.
pub open spec fn sprite_at(index: int, x: int, y: int) -> ObjectAttributes {
    ObjectAttributes {
        row_coordinate: y as u16,
        col_coordinate: x as u16,
        tile_id: (514 + 2 * index) as u16,
        is_8bpp: true,
    }
}

/// Whether `action` is what the frame loop owes after this frame's input.
pub open spec fn is_action_of(action: FrameAction, cursor: CursorView, input: KeyInput) -> bool {
    let next = next_cursor(cursor, input);
    match action {
        FrameAction::Redraw => input.start,
        FrameAction::Stay => !input.start && !target(cursor.point, input).within(screen_size()),
        FrameAction::Move { sprite, paint } => {
            &&& !input.start
            &&& target(cursor.point, input).within(screen_size())
            &&& sprite == sprite_at(next.color_index, next.point.x as int, next.point.y as int)
            &&& match paint {
                Some(pixel) => input.a && pixel.0 == next.point && pixel.1@ == colors()[next.color_index],
                None => !input.a,
            }
        },
    }
}

impl KeyInput {
    /// No key down.
    pub fn new() -> (input: KeyInput)
        ensures
            input == (KeyInput {
                a: false,
                b: false,
                start: false,
                right: false,
                left: false,
                up: false,
                down: false,
            }),
    {
        KeyInput {
            a: false,
            b: false,
            start: false,
            right: false,
            left: false,
            up: false,
            down: false,
        }
    }

    /// The step along a row: 1 for right, -1 for left, 0 for neither.
    pub fn x_tribool(&self) -> (step: i32)
        ensures
            step == dx(*self),
    {
        if self.right {
            1
        } else if self.left {
            -1
        } else {
            0
        }
    }

    /// The step along a column: 1 for down, -1 for up, 0 for neither.
    pub fn y_tribool(&self) -> (step: i32)
        ensures
            step == dy(*self),
    {
        if self.down {
            1
        } else if self.up {
            -1
        } else {
            0
        }
    }
}

/// The attributes that show the cursor sprite of colour `index` at `(x, y)`:
/// an 8-bit tile, two tile numbers for each colour.
pub fn move_cursor(index: u16, x: u16, y: u16) -> (sprite: ObjectAttributes)
    requires
        514 + 2 * index <= u16::MAX,
    ensures
        sprite == sprite_at(index as int, x as int, y as int),
{
    ObjectAttributes {
        row_coordinate: y,
        col_coordinate: x,
        tile_id: CURSOR_TILE_BASE + index * 2,
        is_8bpp: true,
    }
}

impl Cursor {
    /// The cursor stands on the screen and carries a colour of the table.
    #[verifier::type_invariant]
    pub closed spec fn wf(self) -> bool {
        self.point.within(screen_size()) && self.color_index < 8
    }

    /// The cursor at the start: in the middle of the screen, with the first colour.
    pub fn new() -> (cursor: Cursor)
        ensures
            cursor.wf(),
            cursor@.point == (Point { x: 120, y: 80 }),
            cursor@.color_index == 0,
    {
        Cursor { point: Point::new((WIDTH / 2) as i32, (HEIGHT / 2) as i32), color_index: 0 }
    }

    /// Where the cursor stands.
    pub fn point(&self) -> (p: Point)
        ensures
            p == self@.point,
            p.within(screen_size()),
    {
        proof {
            use_type_invariant(self);
        }
        self.point
    }

    /// The place of the cursor's colour in the palette table.
    pub fn color_index(&self) -> (index: usize)
        ensures
            index == self@.color_index,
            index < 8,
    {
        proof {
            use_type_invariant(self);
        }
        self.color_index
    }

    /// Takes one frame's input: the cursor after it, and what the frame
    /// loop has to do.
    pub fn step(self, input: KeyInput) -> (r: (Cursor, FrameAction))
        ensures
            r.0.wf(),
            r.0@ == next_cursor(self@, input),
            is_action_of(r.1, self@, input),
    {
        proof {
            use_type_invariant(self);
        }
        if input.start {
            return (self, FrameAction::Redraw);
        }
        let mut color_index: usize = self.color_index;
        if input.b {
            color_index += 1;
            if color_index >= PALETTE_LEN {
                color_index = 0;
            }
        }
        let moved = Point::new(self.point.x + input.x_tribool(), self.point.y + input.y_tribool());
        if let Some((x, y)) = moved.try_into_unsigned() {
            if x < WIDTH && y < HEIGHT {
                let sprite = move_cursor(color_index as u16, x as u16, y as u16);
                let paint = if input.a {
                    Some(Pixel(moved, color_at(color_index).unwrap()))
                } else {
                    None
                };
                return (Cursor { point: moved, color_index }, FrameAction::Move { sprite, paint });
            }
        }
        (Cursor { point: self.point, color_index }, FrameAction::Stay)
    }
}

/// A valid cursor stands on the screen and carries a colour of the table.
pub proof fn lemma_cursor_valid(cursor: Cursor)
    requires
        cursor.wf(),
    ensures
        cursor@.point.within(screen_size()),
        0 <= cursor@.color_index < 8,
{
}

/// Without a direction key the cursor does not move.
pub proof fn lemma_no_drift(cursor: CursorView, input: KeyInput)
    requires
        !input.right,
        !input.left,
        !input.up,
        !input.down,
    ensures
        next_cursor(cursor, input).point == cursor.point,
{
}

/// The cursor never leaves the screen, and its colour stays one of the table.
pub proof fn lemma_cursor_stays_valid(cursor: CursorView, input: KeyInput)
    requires
        cursor.point.within(screen_size()),
        0 <= cursor.color_index < 8,
    ensures
        next_cursor(cursor, input).point.within(screen_size()),
        0 <= next_cursor(cursor, input).color_index < 8,
{
}

} // verus!
