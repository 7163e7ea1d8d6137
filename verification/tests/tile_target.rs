use gba_display::color::PaletteColor;
use gba_display::geometry::{Pixel, Point, Size};
use gba_display::tile::Tile8bpp;

fn bytes_of(tile: &Tile8bpp) -> Vec<u8> {
    let mut out = Vec::new();
    for word in tile.0.iter() {
        out.extend_from_slice(&word.to_le_bytes());
    }
    out
}

#[test]
fn new_tile_is_transparent() {
    let tile = Tile8bpp::new();
    assert_eq!(tile.0, [0u32; 16]);
    for y in 0..8 {
        for x in 0..8 {
            assert_eq!(tile.pixel(Point::new(x, y)), Some(PaletteColor::transparent()));
        }
    }
}

#[test]
fn write_at_last_pixel_sets_last_byte_of_last_word() {
    let mut tile = Tile8bpp::new();
    assert!(tile.draw_pixel(Pixel(Point::new(7, 7), PaletteColor::new(3))).is_ok());
    let bytes = bytes_of(&tile);
    assert_eq!(bytes.len(), 64);
    assert_eq!(bytes[63], 3);
    for i in 0..63 {
        assert_eq!(bytes[i], 0);
    }
    assert_eq!(tile.0[15], 0x0300_0000);
    for w in 0..15 {
        assert_eq!(tile.0[w], 0);
    }
}

#[test]
fn write_then_read_every_pixel_and_value() {
    for y in 0..8i32 {
        for x in 0..8i32 {
            for v in [0u8, 1, 3, 0x7f, 0x80, 0xfe, 0xff] {
                let mut tile = Tile8bpp([0xa1b2_c3d4u32; 16]);
                let before = bytes_of(&tile);
                tile.draw_pixel(Pixel(Point::new(x, y), PaletteColor::new(v))).unwrap();
                let after = bytes_of(&tile);
                let k = (x + 8 * y) as usize;
                assert_eq!(tile.pixel(Point::new(x, y)), Some(PaletteColor::new(v)));
                for i in 0..64 {
                    if i == k {
                        assert_eq!(after[i], v);
                    } else {
                        assert_eq!(after[i], before[i]);
                    }
                }
            }
        }
    }
}

#[test]
fn write_keeps_the_other_three_lanes() {
    let mut tile = Tile8bpp([0u32; 16]);
    tile.0[1] = 0x4433_2211;
    // pixel (6, 0) is lane 2 of word 1
    tile.draw_pixel(Pixel(Point::new(6, 0), PaletteColor::new(0xee))).unwrap();
    assert_eq!(tile.0[1], 0x44ee_2211);
    tile.draw_pixel(Pixel(Point::new(4, 0), PaletteColor::new(0))).unwrap();
    assert_eq!(tile.0[1], 0x44ee_2200);
    tile.draw_pixel(Pixel(Point::new(7, 0), PaletteColor::new(0x01))).unwrap();
    assert_eq!(tile.0[1], 0x01ee_2200);
}

#[test]
fn overwrite_clears_the_lane_first() {
    let mut tile = Tile8bpp::new();
    tile.draw_pixel(Pixel(Point::new(1, 2), PaletteColor::new(0xff))).unwrap();
    tile.draw_pixel(Pixel(Point::new(1, 2), PaletteColor::new(0x01))).unwrap();
    assert_eq!(tile.pixel(Point::new(1, 2)), Some(PaletteColor::new(1)));
    // pixel 17 is lane 1 of word 4
    assert_eq!(tile.0[4], 0x0000_0100);
}

#[test]
fn write_outside_the_tile_changes_nothing() {
    let outside = [
        (8, 0),
        (0, 8),
        (8, 8),
        (-1, 0),
        (0, -1),
        (-1, -1),
        (64, 0),
        (i32::MAX, 0),
        (0, i32::MAX),
        (i32::MIN, i32::MIN),
        (3, 100),
    ];
    for (x, y) in outside {
        let mut tile = Tile8bpp([0x0102_0304u32; 16]);
        assert!(tile.draw_pixel(Pixel(Point::new(x, y), PaletteColor::new(9))).is_ok());
        assert_eq!(tile.0, [0x0102_0304u32; 16]);
        assert_eq!(tile.pixel(Point::new(x, y)), None);
    }
}

#[test]
fn tile_size_is_eight_by_eight() {
    assert_eq!(Tile8bpp::new().size(), Size::new(8, 8));
    assert_eq!(Tile8bpp::new().size().width, 8);
    assert_eq!(Tile8bpp::new().size().height, 8);
}

#[test]
fn tile_draw_iter_writes_in_order() {
    let mut tile = Tile8bpp::new();
    let items = vec![
        Pixel(Point::new(0, 0), PaletteColor::new(1)),
        Pixel(Point::new(9, 9), PaletteColor::new(2)),
        Pixel(Point::new(0, 0), PaletteColor::new(5)),
        Pixel(Point::new(3, 0), PaletteColor::new(7)),
    ];
    assert!(tile.draw_iter(&items).is_ok());
    assert_eq!(tile.0[0], 0x0700_0005);
    for w in 1..16 {
        assert_eq!(tile.0[w], 0);
    }
}

#[test]
fn tile_fill_points_clips() {
    let mut tile = Tile8bpp::new();
    let points = vec![Point::new(7, 0), Point::new(8, 0), Point::new(0, 1), Point::new(-1, 1)];
    tile.fill_points(&points, PaletteColor::new(4)).unwrap();
    let bytes = bytes_of(&tile);
    for i in 0..64 {
        assert_eq!(bytes[i], if i == 7 || i == 8 { 4 } else { 0 });
    }
}
