//! The shape primitives and the closed set of drawable shapes.
//!
//! Each primitive answers a single per-pixel query: given absolute pixel
//! coordinates, the color it contributes at that point, or `None` where it
//! is transparent. The primitives are independent of each other; [`Shape`]
//! gathers them into one closed sum type so that a canvas can hold a
//! heterogeneous submission list.

use vstd::prelude::*;

mod circle;
mod image;
mod rectangle;
mod square;

pub use circle::Circle;
pub use circle::lemma_circle_center_fill;
pub use circle::lemma_circle_outside_radius;
pub use circle::lemma_circle_wide_border_all_border;
pub use image::Image;
pub use rectangle::Rectangle;
pub use rectangle::lemma_rectangle_border_priority;
pub use rectangle::lemma_rectangle_fill_region;
pub use square::Square;

use crate::color::Color;

verus! {

/// A drawable shape: one of the closed set of primitives.
#[derive(Clone, Debug)]
pub enum Shape {
    Rectangle(Rectangle),
    Circle(Circle),
    Image(Image),
}

impl Shape {
    /// The shape's own invariant holds.
    pub open spec fn wf(self) -> bool {
        match self {
            Shape::Rectangle(rect) => rect.wf(),
            Shape::Circle(circle) => circle.wf(),
            Shape::Image(image) => image.wf(),
        }
    }

    /// The color the shape contributes at `(x, y)`, or `None` where it is
    /// transparent.
    pub open spec fn spec_hit(self, x: int, y: int) -> Option<Color> {
        match self {
            Shape::Rectangle(rect) => rect.spec_hit(x, y),
            Shape::Circle(circle) => circle.spec_hit(x, y),
            Shape::Image(image) => image.spec_hit(x, y),
        }
    }

    /// Hit-tests the shape at absolute pixel coordinates `(x, y)`.
    pub fn get_color(&self, x: i16, y: i16) -> (hit: Option<Color>)
        requires
            self.wf(),
        ensures
            hit == self.spec_hit(x as int, y as int),
    {
        match self {
            Shape::Rectangle(rect) => rect.get_color(x, y),
            Shape::Circle(circle) => circle.get_color(x, y),
            Shape::Image(image) => image.get_color(x, y),
        }
    }

    /// A well-formed shape only ever contributes well-formed colors.
    pub proof fn lemma_hit_wf(self, x: int, y: int)
        requires
            self.wf(),
            self.spec_hit(x, y) is Some,
        ensures
            self.spec_hit(x, y)->Some_0.wf(),
    {
        match self {
            Shape::Rectangle(rect) => {},
            Shape::Circle(circle) => {},
            Shape::Image(image) => image.lemma_hit_wf(x, y),
        }
    }
}

} // verus!
