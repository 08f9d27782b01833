//! A circle with an optional fill and an optional border, centered at some
//! position on the screen.
//!
//! The interior test works on squared distances: the radius is stored
//! pre-squared, and a point belongs to the disk when its squared distance
//! from the center is at most the squared radius. Where a border is
//! configured, the annular band whose squared distance exceeds
//! `(radius - border_width)^2` takes the border color, with priority over
//! the fill. A border at least as wide as the radius leaves no inner disk
//! at all: the whole disk becomes border — an intentional degenerate case,
//! not an error.

use vstd::prelude::*;

use crate::color::Color;

verus! {

/// A circle centered at `(x, y)`.
#[derive(Clone, Copy, Debug)]
pub struct Circle {
    pub x: i16,
    pub y: i16,
    pub radius: i16,
    pub radius_squared: i32,
    pub fill: Option<Color>,
    pub border: Option<Color>,
    pub border_width: i16,
}

impl Circle {
    /// The stored squared radius agrees with the radius, and the configured
    /// colors are well-formed.
    pub open spec fn wf(self) -> bool {
        &&& self.radius_squared == self.radius * self.radius
        &&& (self.fill is Some ==> self.fill->Some_0.wf())
        &&& (self.border is Some ==> self.border->Some_0.wf())
    }

    /// The squared distance from `(x, y)` to the circle's center.
    pub open spec fn dist_squared(self, x: int, y: int) -> int {
        (x - self.x) * (x - self.x) + (y - self.y) * (y - self.y)
    }

    /// The circle's contribution at `(x, y)`: nothing outside the disk; the
    /// border color on the annular band near the edge, where a border is
    /// configured (the whole disk, when the border is at least as wide as
    /// the radius); else the fill color, where a fill is configured; else
    /// nothing.
    pub open spec fn spec_hit(self, x: int, y: int) -> Option<Color> {
        if self.dist_squared(x, y) > self.radius_squared {
            None
        } else if self.border is Some && (self.border_width >= self.radius || self.dist_squared(
            x,
            y,
        ) > (self.radius - self.border_width) * (self.radius - self.border_width)) {
            self.border
        } else if self.fill is Some {
            self.fill
        } else {
            None
        }
    }

    /// Creates a circle centered at `(x, y)` with the given radius, no fill
    /// and no border.
    pub fn new(x: i16, y: i16, radius: i16) -> (circle: Circle)
        ensures
            circle == (Circle {
                x,
                y,
                radius,
                radius_squared: (radius * radius) as i32,
                fill: None,
                border: None,
                border_width: 0,
            }),
            circle.wf(),
    {
        proof {
            assert(-0x8000 * -0x8000 >= radius as int * radius as int >= 0) by (nonlinear_arith)
                requires -0x8000 <= radius as int <= 0x7fff;
        }
        Circle {
            x,
            y,
            radius,
            radius_squared: radius as i32 * radius as i32,
            fill: None,
            border: None,
            border_width: 0,
        }
    }

    /// Returns the circle with its fill set to `color`.
    pub fn with_fill(self, color: Color) -> (circle: Circle)
        requires
            color.wf(),
        ensures
            circle == (Circle { fill: Some(color), ..self }),
            self.wf() ==> circle.wf(),
    {
        Circle { fill: Some(color), ..self }
    }

    /// Returns the circle with its border set to `color`, `width` pixels
    /// wide.
    pub fn with_border(self, color: Color, width: i16) -> (circle: Circle)
        requires
            color.wf(),
        ensures
            circle == (Circle { border: Some(color), border_width: width, ..self }),
            self.wf() ==> circle.wf(),
    {
        Circle { border: Some(color), border_width: width, ..self }
    }

    /// Hit-tests the circle at absolute pixel coordinates `(x, y)`.
    pub fn get_color(&self, x: i16, y: i16) -> (hit: Option<Color>)
        requires
            self.wf(),
        ensures
            hit == self.spec_hit(x as int, y as int),
    {
        let dx = x as i64 - self.x as i64;
        let dy = y as i64 - self.y as i64;
        proof {
            assert(dx * dx <= 0x10000 * 0x10000 && dx * dx >= 0) by (nonlinear_arith)
                requires -0x10000 <= dx <= 0x10000;
            assert(dy * dy <= 0x10000 * 0x10000 && dy * dy >= 0) by (nonlinear_arith)
                requires -0x10000 <= dy <= 0x10000;
        }
        let dist_sq = dx * dx + dy * dy;

        if dist_sq > self.radius_squared as i64 {
            return None;
        }

        if self.border.is_some() {
            if self.border_width >= self.radius {
                return self.border;
            }
            let inner = self.radius as i64 - self.border_width as i64;
            proof {
                assert(inner * inner <= 0x10000 * 0x10000 && inner * inner >= 0) by (nonlinear_arith)
                    requires -0x10000 <= inner <= 0x10000;
            }
            if dist_sq > inner * inner {
                return self.border;
            }
        }

        if self.fill.is_some() {
            return self.fill;
        }

        None
    }
}

/// One step outside the circle along the horizontal axis, the hit test
/// returns nothing.
pub proof fn lemma_circle_outside_radius(circle: Circle)
    requires
        circle.wf(),
        circle.radius >= 0,
    ensures
        circle.spec_hit(circle.x + circle.radius + 1, circle.y as int) is None,
{
    let r = circle.radius as int;
    assert((r + 1) * (r + 1) > r * r) by (nonlinear_arith)
        requires r >= 0;
}

/// At its own center, a filled circle whose border (if any) is narrower
/// than its radius returns the fill color: the center's squared distance is
/// zero, which never exceeds the squared inner radius, so the border cannot
/// claim it.
pub proof fn lemma_circle_center_fill(circle: Circle)
    requires
        circle.wf(),
        circle.fill is Some,
        circle.border is Some ==> circle.border_width < circle.radius,
    ensures
        circle.spec_hit(circle.x as int, circle.y as int) == circle.fill,
{
    let inner = circle.radius - circle.border_width;
    assert(inner * inner >= 0) by (nonlinear_arith);
    assert(circle.radius as int * circle.radius as int >= 0) by (nonlinear_arith);
}

/// A border at least as wide as the radius leaves no inner disk: every
/// point of the disk — the center included — takes the border color.
pub proof fn lemma_circle_wide_border_all_border(circle: Circle, x: int, y: int)
    requires
        circle.wf(),
        circle.border is Some,
        circle.border_width >= circle.radius,
        circle.dist_squared(x, y) <= circle.radius_squared,
    ensures
        circle.spec_hit(x, y) == circle.border,
{
}

} // verus!
