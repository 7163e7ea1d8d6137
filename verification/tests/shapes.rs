use embedded_graphics::fonts::{Font6x8, Text};
use embedded_graphics::pixelcolor::BinaryColor;
use embedded_graphics::primitives::{Primitive, Rectangle, Triangle};
use embedded_graphics::style::{PrimitiveStyle, PrimitiveStyleBuilder, TextStyle};
use gba_display::color::{Bgr555, PaletteColor};
use gba_display::display::GbaDisplay;
use gba_display::geometry::Point;
use gba_display::hud::draw_hud;
use gba_display::sprite::draw_cursor;

fn grey() -> Bgr555 {
    Bgr555::new(9, 9, 9)
}

fn expected_hud() -> Vec<Bgr555> {
    let mut cells = vec![grey(); 240 * 160];
    let mut put = |x: i32, y: i32, color: Bgr555| {
        if 0 <= x && x < 240 && 0 <= y && y < 160 {
            cells[(x + 240 * y) as usize] = color;
        }
    };
    let panel = Rectangle::new(
        embedded_graphics::geometry::Point::new(0, 0),
        embedded_graphics::geometry::Point::new(72, 24),
    )
    .into_styled(PrimitiveStyle::with_fill(BinaryColor::On));
    for pixel in &panel {
        put(pixel.0.x, pixel.0.y, Bgr555::white());
    }
    let lines = [("A: Draw", 1, Bgr555::red()), ("B: Color", 9, Bgr555::green()), ("Start: Clear", 17, Bgr555::blue())];
    for (text, y, color) in lines {
        let styled = Text::new(text, embedded_graphics::geometry::Point::new(1, y))
            .into_styled(TextStyle::new(Font6x8, BinaryColor::On));
        for pixel in &styled {
            put(pixel.0.x, pixel.0.y, color);
        }
    }
    cells
}

#[test]
fn hud_matches_what_embedded_graphics_draws() {
    let mut display = GbaDisplay::new();
    display.clear(grey()).unwrap();
    assert!(draw_hud(&mut display).is_ok());
    let expected = expected_hud();
    for y in 0..160 {
        for x in 0..240 {
            assert_eq!(display.pixel(Point::new(x, y)), Some(expected[(x + 240 * y) as usize]));
        }
    }
}

#[test]
fn hud_panel_and_text() {
    let mut display = GbaDisplay::new();
    display.clear(grey()).unwrap();
    draw_hud(&mut display).unwrap();
    // the corners of the panel, both included
    assert_eq!(display.pixel(Point::new(0, 0)), Some(Bgr555::white()));
    assert_eq!(display.pixel(Point::new(72, 0)), Some(Bgr555::white()));
    assert_eq!(display.pixel(Point::new(0, 24)), Some(Bgr555::white()));
    assert_eq!(display.pixel(Point::new(72, 24)), Some(Bgr555::white()));
    // just outside it
    assert_eq!(display.pixel(Point::new(73, 0)), Some(grey()));
    assert_eq!(display.pixel(Point::new(0, 25)), Some(grey()));
    assert_eq!(display.pixel(Point::new(73, 25)), Some(grey()));
    // each line has pixels of its colour in its own rows only
    let mut counts = [[0usize; 3]; 3];
    for y in 0..25 {
        for x in 0..73 {
            let color = display.pixel(Point::new(x, y)).unwrap();
            let band = if y < 9 { 0 } else if y < 17 { 1 } else { 2 };
            if color == Bgr555::red() {
                counts[band][0] += 1;
            } else if color == Bgr555::green() {
                counts[band][1] += 1;
            } else if color == Bgr555::blue() {
                counts[band][2] += 1;
            } else {
                assert_eq!(color, Bgr555::white());
            }
        }
    }
    assert!(counts[0][0] > 0 && counts[0][1] == 0 && counts[0][2] == 0);
    assert!(counts[1][0] == 0 && counts[1][1] > 0 && counts[1][2] == 0);
    assert!(counts[2][0] == 0 && counts[2][1] == 0 && counts[2][2] > 0);
}

fn expected_cursor(entry: u8) -> [u8; 64] {
    let mut bytes = [0u8; 64];
    let style = PrimitiveStyleBuilder::new()
        .stroke_color(BinaryColor::On)
        .fill_color(BinaryColor::On)
        .stroke_width(1)
        .build();
    let shape = Triangle::new(
        embedded_graphics::geometry::Point::new(0, 0),
        embedded_graphics::geometry::Point::new(7, 4),
        embedded_graphics::geometry::Point::new(4, 7),
    )
    .into_styled(style);
    for pixel in &shape {
        let (x, y) = (pixel.0.x, pixel.0.y);
        if 0 <= x && x < 8 && 0 <= y && y < 8 {
            bytes[(x + 8 * y) as usize] = entry;
        }
    }
    bytes
}

#[test]
fn cursor_tiles_match_what_embedded_graphics_draws() {
    let tiles = draw_cursor();
    assert_eq!(tiles.len(), 8);
    for (i, tile) in tiles.iter().enumerate() {
        let entry = i as u8 + 1;
        let expected = expected_cursor(entry);
        for y in 0..8 {
            for x in 0..8 {
                assert_eq!(
                    tile.pixel(Point::new(x, y)),
                    Some(PaletteColor::new(expected[(x + 8 * y) as usize]))
                );
            }
        }
    }
}

#[test]
fn cursor_tile_shape() {
    let tiles = draw_cursor();
    for (i, tile) in tiles.iter().enumerate() {
        let entry = PaletteColor::new(i as u8 + 1);
        // the three corners are drawn
        assert_eq!(tile.pixel(Point::new(0, 0)), Some(entry));
        assert_eq!(tile.pixel(Point::new(7, 4)), Some(entry));
        assert_eq!(tile.pixel(Point::new(4, 7)), Some(entry));
        // the far corners of the tile stay transparent
        assert_eq!(tile.pixel(Point::new(7, 0)), Some(PaletteColor::transparent()));
        assert_eq!(tile.pixel(Point::new(0, 7)), Some(PaletteColor::transparent()));
        assert_eq!(tile.pixel(Point::new(7, 7)), Some(PaletteColor::transparent()));
        // no pixel holds anything but the entry or nothing
        let mut drawn = 0;
        for y in 0..8 {
            for x in 0..8 {
                let pixel = tile.pixel(Point::new(x, y)).unwrap();
                assert!(pixel == entry || pixel.is_transparent());
                if pixel == entry {
                    drawn += 1;
                }
            }
        }
        assert!(drawn >= 10 && drawn < 40);
    }
}
