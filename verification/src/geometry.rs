//! Points, sizes and pixels in surface space.

use vstd::prelude::*;

verus! {

/// A position in surface space. Either coordinate may lie outside any surface.
#[derive(Clone, Copy, Debug, PartialEq, Eq, Structural)]
pub struct Point {
    pub x: i32,
    pub y: i32,
}

/// The extent of a surface, in pixels.
#[derive(Clone, Copy, Debug, PartialEq, Eq, Structural)]
pub struct Size {
    pub width: u32,
    pub height: u32,
}

/// One coloured point: the position, then the colour.
#[derive(Debug, PartialEq, Eq)]
pub struct Pixel<C>(pub Point, pub C);

impl<C: Copy> Clone for Pixel<C> {
    fn clone(&self) -> (copy: Self)
        ensures
            copy == *self,
    {
        *self
    }
}

impl<C: Copy> Copy for Pixel<C> {

}

impl Point {
    pub fn new(x: i32, y: i32) -> (p: Point)
        ensures
            p == (Point { x, y }),
    {
        Point { x, y }
    }

    /// The origin.
    pub fn zero() -> (p: Point)
        ensures
            p == (Point { x: 0, y: 0 }),
    {
        Point { x: 0, y: 0 }
    }

    /// Whether the point lies in the rectangle from the origin with the given size.
    pub open spec fn within(self, size: Size) -> bool {
        0 <= self.x < size.width && 0 <= self.y < size.height
    }

    /// The coordinates as unsigned numbers, for a point with no negative coordinate.
    pub open spec fn unsigned(self) -> Option<(u32, u32)> {
        if self.x >= 0 && self.y >= 0 {
            Some((self.x as u32, self.y as u32))
        } else {
            None
        }
    }

    /// Converts to unsigned coordinates; `None` where a coordinate is negative.
    pub fn try_into_unsigned(self) -> (r: Option<(u32, u32)>)
        ensures
            r == self.unsigned(),
    {
        if self.x >= 0 && self.y >= 0 {
            Some((self.x as u32, self.y as u32))
        } else {
            None
        }
    }
}

impl Size {
    pub fn new(width: u32, height: u32) -> (s: Size)
        ensures
            s == (Size { width, height }),
    {
        Size { width, height }
    }
}

} // verus!
