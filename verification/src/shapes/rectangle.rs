//! An axis-aligned rectangle with an optional fill and an optional border.
//!
//! The rectangle covers the half-open pixel region
//! `[x, x + width) x [y, y + height)`. Where a border is configured, the
//! band within `border_width` pixels of any of the four edges takes the
//! border color, and the border takes priority over the fill. A rectangle
//! with a border and no fill is transparent in its interior, letting lower
//! shapes show through.

use vstd::prelude::*;

use crate::color::Color;

verus! {

/// A rectangle anchored at its top-left corner `(x, y)`.
#[derive(Clone, Copy, Debug)]
pub struct Rectangle {
    pub x: i16,
    pub y: i16,
    pub width: i16,
    pub height: i16,
    pub fill: Option<Color>,
    pub border: Option<Color>,
    pub border_width: i16,
}

impl Rectangle {
    /// The configured colors are well-formed.
    pub open spec fn wf(self) -> bool {
        &&& (self.fill is Some ==> self.fill->Some_0.wf())
        &&& (self.border is Some ==> self.border->Some_0.wf())
    }

    /// `(x, y)` lies within the rectangle's extent.
    pub open spec fn contains_point(self, x: int, y: int) -> bool {
        &&& self.x <= x < self.x + self.width
        &&& self.y <= y < self.y + self.height
    }

    /// `(x, y)` lies within `border_width` pixels of one of the four edges.
    pub open spec fn in_border_band(self, x: int, y: int) -> bool {
        ||| x < self.x + self.border_width
        ||| y < self.y + self.border_width
        ||| x >= self.x + self.width - self.border_width
        ||| y >= self.y + self.height - self.border_width
    }

    /// The rectangle's contribution at `(x, y)`: nothing outside its extent;
    /// the border color on the border band, where a border is configured;
    /// else the fill color, where a fill is configured; else nothing.
    pub open spec fn spec_hit(self, x: int, y: int) -> Option<Color> {
        if !self.contains_point(x, y) {
            None
        } else if self.border is Some && self.in_border_band(x, y) {
            self.border
        } else if self.fill is Some {
            self.fill
        } else {
            None
        }
    }

    /// Creates a rectangle with its top-left corner at `(x, y)` and the
    /// given size, with no fill and no border.
    pub fn new(x: i16, y: i16, width: i16, height: i16) -> (rect: Rectangle)
        ensures
            rect == (Rectangle { x, y, width, height, fill: None, border: None, border_width: 0 }),
            rect.wf(),
    {
        Rectangle { x, y, width, height, fill: None, border: None, border_width: 0 }
    }

    /// Returns the rectangle with its fill set to `color`.
    pub fn with_fill(self, color: Color) -> (rect: Rectangle)
        requires
            color.wf(),
        ensures
            rect == (Rectangle { fill: Some(color), ..self }),
            self.wf() ==> rect.wf(),
    {
        Rectangle { fill: Some(color), ..self }
    }

    /// Returns the rectangle with its border set to `color`, `width` pixels
    /// wide.
    pub fn with_border(self, color: Color, width: i16) -> (rect: Rectangle)
        requires
            color.wf(),
        ensures
            rect == (Rectangle { border: Some(color), border_width: width, ..self }),
            self.wf() ==> rect.wf(),
    {
        Rectangle { border: Some(color), border_width: width, ..self }
    }

    /// Hit-tests the rectangle at absolute pixel coordinates `(x, y)`.
    pub fn get_color(&self, x: i16, y: i16) -> (hit: Option<Color>)
        ensures
            hit == self.spec_hit(x as int, y as int),
    {
        let xi = x as i32;
        let yi = y as i32;
        if xi < self.x as i32 || yi < self.y as i32 || xi >= self.x as i32 + self.width as i32
            || yi >= self.y as i32 + self.height as i32 {
            return None;
        }

        if self.border.is_some() {
            if xi < self.x as i32 + self.border_width as i32
                || yi < self.y as i32 + self.border_width as i32
                || xi >= self.x as i32 + self.width as i32 - self.border_width as i32
                || yi >= self.y as i32 + self.height as i32 - self.border_width as i32 {
                return self.border;
            }
        }

        if self.fill.is_some() {
            return self.fill;
        }

        None
    }
}

/// Strictly inside the rectangle's extent and outside the border band, the
/// hit test returns exactly the configured fill color.
pub proof fn lemma_rectangle_fill_region(rect: Rectangle, x: int, y: int)
    requires
        rect.fill is Some,
        rect.contains_point(x, y),
        !rect.in_border_band(x, y),
    ensures
        rect.spec_hit(x, y) == rect.fill,
{
}

/// On the border band of a rectangle with a configured border, the hit test
/// returns the border color, taking priority over any fill.
pub proof fn lemma_rectangle_border_priority(rect: Rectangle, x: int, y: int)
    requires
        rect.border is Some,
        rect.contains_point(x, y),
        rect.in_border_band(x, y),
    ensures
        rect.spec_hit(x, y) == rect.border,
{
}

} // verus!
