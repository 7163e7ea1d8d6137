use gba_display::color::Bgr555;
use gba_display::cursor::{move_cursor, Cursor, FrameAction, KeyInput, ObjectAttributes};
use gba_display::geometry::{Pixel, Point};
use gba_display::sync::{irq_handler, FrameEvent, FrameState, IrqAction};

fn walk(cursor: Cursor, input: KeyInput, frames: usize) -> Cursor {
    let mut cursor = cursor;
    for _ in 0..frames {
        cursor = cursor.step(input).0;
    }
    cursor
}

#[test]
fn cursor_starts_in_the_middle() {
    let cursor = Cursor::new();
    assert_eq!(cursor.point(), Point::new(120, 80));
    assert_eq!(cursor.color_index(), 0);
}

#[test]
fn no_direction_no_drift() {
    let cursor = Cursor::new();
    let (next, action) = cursor.step(KeyInput::new());
    assert_eq!(next.point(), Point::new(120, 80));
    assert_eq!(next, cursor);
    assert_eq!(
        action,
        FrameAction::Move {
            sprite: ObjectAttributes { row_coordinate: 80, col_coordinate: 120, tile_id: 514, is_8bpp: true },
            paint: None,
        }
    );
    let mut input = KeyInput::new();
    input.a = true;
    input.b = true;
    let moved = walk(cursor, input, 100);
    assert_eq!(moved.point(), Point::new(120, 80));
}

#[test]
fn direction_keys_move_one_pixel() {
    let cursor = Cursor::new();
    let mut right = KeyInput::new();
    right.right = true;
    assert_eq!(cursor.step(right).0.point(), Point::new(121, 80));
    let mut left = KeyInput::new();
    left.left = true;
    assert_eq!(cursor.step(left).0.point(), Point::new(119, 80));
    let mut up = KeyInput::new();
    up.up = true;
    assert_eq!(cursor.step(up).0.point(), Point::new(120, 79));
    let mut down = KeyInput::new();
    down.down = true;
    assert_eq!(cursor.step(down).0.point(), Point::new(120, 81));
    let mut both = KeyInput::new();
    both.right = true;
    both.left = true;
    both.up = true;
    both.down = true;
    assert_eq!(both.x_tribool(), 1);
    assert_eq!(both.y_tribool(), 1);
    assert_eq!(cursor.step(both).0.point(), Point::new(121, 81));
    assert_eq!(left.x_tribool(), -1);
    assert_eq!(up.y_tribool(), -1);
    assert_eq!(KeyInput::new().x_tribool(), 0);
    assert_eq!(KeyInput::new().y_tribool(), 0);
}

#[test]
fn cursor_stops_at_the_edges() {
    let mut right = KeyInput::new();
    right.right = true;
    right.down = true;
    let cursor = walk(Cursor::new(), right, 79);
    assert_eq!(cursor.point(), Point::new(199, 159));
    let (next, action) = cursor.step(right);
    assert_eq!(next.point(), Point::new(199, 159));
    assert_eq!(action, FrameAction::Stay);
    let mut left = KeyInput::new();
    left.left = true;
    let cursor = walk(Cursor::new(), left, 500);
    assert_eq!(cursor.point(), Point::new(0, 80));
    let mut east = KeyInput::new();
    east.right = true;
    let cursor = walk(Cursor::new(), east, 500);
    assert_eq!(cursor.point(), Point::new(239, 80));
    let mut north = KeyInput::new();
    north.up = true;
    assert_eq!(walk(Cursor::new(), north, 500).point(), Point::new(120, 0));
}

#[test]
fn b_cycles_the_colours() {
    let mut b = KeyInput::new();
    b.b = true;
    let mut cursor = Cursor::new();
    for expected in [1usize, 2, 3, 4, 5, 6, 7, 0, 1] {
        cursor = cursor.step(b).0;
        assert_eq!(cursor.color_index(), expected);
    }
    // the colour changes even where the cursor cannot move
    let mut corner = KeyInput::new();
    corner.left = true;
    corner.up = true;
    // a step that would leave the screen is undone as a whole
    let at_top = walk(Cursor::new(), corner, 200);
    assert_eq!(at_top.point(), Point::new(40, 0));
    corner.b = true;
    let (next, action) = at_top.step(corner);
    assert_eq!(action, FrameAction::Stay);
    assert_eq!(next.point(), Point::new(40, 0));
    assert_eq!(next.color_index(), 1);
}

#[test]
fn a_paints_under_the_cursor_in_its_colour() {
    let mut input = KeyInput::new();
    input.a = true;
    input.b = true;
    input.right = true;
    let (next, action) = Cursor::new().step(input);
    assert_eq!(next.point(), Point::new(121, 80));
    assert_eq!(next.color_index(), 1);
    assert_eq!(
        action,
        FrameAction::Move {
            sprite: ObjectAttributes { row_coordinate: 80, col_coordinate: 121, tile_id: 516, is_8bpp: true },
            paint: Some(Pixel(Point::new(121, 80), Bgr555::red())),
        }
    );
}

#[test]
fn start_redraws_and_changes_nothing() {
    let mut input = KeyInput::new();
    input.start = true;
    input.a = true;
    input.b = true;
    input.right = true;
    input.down = true;
    let cursor = Cursor::new();
    let (next, action) = cursor.step(input);
    assert_eq!(action, FrameAction::Redraw);
    assert_eq!(next, cursor);
}

#[test]
fn sprite_attributes_are_exact() {
    assert_eq!(
        move_cursor(0, 0, 0),
        ObjectAttributes { row_coordinate: 0, col_coordinate: 0, tile_id: 514, is_8bpp: true }
    );
    assert_eq!(
        move_cursor(7, 239, 159),
        ObjectAttributes { row_coordinate: 159, col_coordinate: 239, tile_id: 528, is_8bpp: true }
    );
    assert_eq!(move_cursor(3, 10, 20).tile_id, 520);
    assert_eq!(move_cursor(32510, 1, 2).tile_id, 65534);
}

#[test]
fn frame_state_machine() {
    let idle = FrameState::new();
    assert_eq!(idle, FrameState::Idle);
    assert!(!idle.may_draw());
    let active = idle.transition(FrameEvent::VBlank);
    assert_eq!(active, FrameState::Active);
    assert!(active.may_draw());
    assert_eq!(active.transition(FrameEvent::VBlank), FrameState::Active);
    assert_eq!(active.transition(FrameEvent::FrameDrawn), FrameState::Idle);
    assert_eq!(idle.transition(FrameEvent::FrameDrawn), FrameState::Idle);
}

#[test]
fn interrupt_handler_acknowledges_only_the_vertical_blank() {
    assert_eq!(irq_handler(true), IrqAction::AcknowledgeVBlank);
    assert_eq!(irq_handler(false), IrqAction::Ignore);
}
