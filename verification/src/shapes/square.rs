//! A solid square of one color, given directly as four RGBA bytes.

use vstd::prelude::*;

verus! {

/// A square anchored at its top-left corner `(x, y)`, filled with a single
/// color given as raw RGBA bytes.
#[derive(Clone, Copy, PartialEq, Eq, Debug)]
pub struct Square {
    pub x: i16,
    pub y: i16,
    pub size: i16,
    pub color: [u8; 4],
}

impl Square {
    /// `(x, y)` lies within the square's extent.
    pub open spec fn contains_point(self, x: int, y: int) -> bool {
        &&& self.x <= x < self.x + self.size
        &&& self.y <= y < self.y + self.size
    }

    /// The square's contribution at `(x, y)`: its color inside the extent,
    /// nothing outside.
    pub open spec fn spec_hit(self, x: int, y: int) -> Option<[u8; 4]> {
        if self.contains_point(x, y) {
            Some(self.color)
        } else {
            None
        }
    }

    /// Creates a square with its top-left corner at `(x, y)`.
    pub fn new(x: i16, y: i16, size: i16, color: [u8; 4]) -> (square: Square)
        ensures
            square == (Square { x, y, size, color }),
    {
        Square { x, y, size, color }
    }

    /// Hit-tests the square at absolute pixel coordinates `(x, y)`.
    pub fn get_color(&self, x: i16, y: i16) -> (hit: Option<[u8; 4]>)
        ensures
            hit == self.spec_hit(x as int, y as int),
    {
        let inside_the_box = x as i32 >= self.x as i32 && (x as i32) < self.x as i32
            + self.size as i32 && y as i32 >= self.y as i32 && (y as i32) < self.y as i32
            + self.size as i32;
        if inside_the_box {
            Some(self.color)
        } else {
            None
        }
    }
}

} // verus!
