use gba_display::geometry::{Pixel, Point, Size};

#[test]
fn point_to_unsigned() {
    assert_eq!(Point::new(3, 4).try_into_unsigned(), Some((3, 4)));
    assert_eq!(Point::zero().try_into_unsigned(), Some((0, 0)));
    assert_eq!(Point::new(i32::MAX, 0).try_into_unsigned(), Some((0x7fff_ffff, 0)));
    assert_eq!(Point::new(-1, 4).try_into_unsigned(), None);
    assert_eq!(Point::new(3, -1).try_into_unsigned(), None);
    assert_eq!(Point::new(i32::MIN, i32::MIN).try_into_unsigned(), None);
}

#[test]
fn plain_values() {
    let p = Point::new(-7, 9);
    assert_eq!((p.x, p.y), (-7, 9));
    assert_eq!(Point::zero(), Point { x: 0, y: 0 });
    let s = Size::new(240, 160);
    assert_eq!((s.width, s.height), (240, 160));
    let pixel = Pixel(p, 5u8);
    assert_eq!(pixel.0, p);
    assert_eq!(pixel.1, 5);
}
