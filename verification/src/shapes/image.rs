//! A dense rectangle of individually settable pixels.
//!
//! The grid covers the image's full `width x height` extent, one grid cell
//! per output pixel, each initialized to opaque black. Pixels are addressed
//! in absolute coordinates, offset by the image's anchor; writes outside the
//! extent are a bounds violation and are rejected by contract rather than
//! clamped or wrapped.

use vstd::prelude::*;

use crate::color::CHANNEL_ONE;
use crate::color::Color;

verus! {

/// A nonnegative size: a zero or negative extent holds no pixels.
pub open spec fn size_of(v: int) -> int {
    if v > 0 {
        v
    } else {
        0
    }
}

/// The opaque, non-blending black every image pixel starts out as.
pub open spec fn opaque_black() -> Color {
    Color { r: 0, g: 0, b: 0, a: CHANNEL_ONE, blending: false }
}

/// An image anchored at its top-left corner `(x, y)`, holding a column-major
/// grid of `width x height` colors.
#[derive(Clone, Debug)]
pub struct Image {
    pub x: i16,
    pub y: i16,
    pub width: i16,
    pub height: i16,
    pub pixels: Vec<Vec<Color>>,
}

impl Image {
    /// The grid's dimensions agree exactly with the declared extent, and
    /// every stored color is well-formed.
    pub open spec fn wf(self) -> bool {
        &&& self.pixels@.len() == size_of(self.width as int)
        &&& (forall|i: int|
            0 <= i < self.pixels@.len() ==> (#[trigger] self.pixels@[i])@.len() == size_of(
                self.height as int,
            ))
        &&& (forall|i: int, j: int|
            0 <= i < self.pixels@.len() && 0 <= j < self.pixels@[i]@.len()
                ==> (#[trigger] self.pixels@[i]@[j]).wf())
    }

    /// `(x, y)` lies within the image's extent.
    pub open spec fn contains_point(self, x: int, y: int) -> bool {
        &&& self.x <= x < self.x + self.width
        &&& self.y <= y < self.y + self.height
    }

    /// The image's contribution at `(x, y)`: the stored grid value at the
    /// corresponding offset, or nothing outside the extent.
    pub open spec fn spec_hit(self, x: int, y: int) -> Option<Color> {
        if self.contains_point(x, y) {
            Some(self.pixels@[x - self.x]@[y - self.y])
        } else {
            None
        }
    }

    /// Creates an image with its top-left corner at `(x, y)` and the given
    /// size, every pixel opaque black.
    pub fn new(x: i16, y: i16, width: i16, height: i16) -> (img: Image)
        ensures
            img.x == x,
            img.y == y,
            img.width == width,
            img.height == height,
            img.wf(),
            forall|i: int, j: int|
                0 <= i < size_of(width as int) && 0 <= j < size_of(height as int)
                    ==> img.pixels@[i]@[j] == opaque_black(),
    {
        let black = Color::from_rgba(0, 0, 0, CHANNEL_ONE, false);
        let mut pixels: Vec<Vec<Color>> = Vec::new();
        let mut i: i16 = 0;
        while i < width
            invariant
                black == opaque_black(),
                0 <= i,
                width > 0 ==> i <= width,
                width <= 0 ==> i == 0,
                pixels@.len() == i as int,
                forall|k: int|
                    0 <= k < i as int ==> (#[trigger] pixels@[k])@.len() == size_of(height as int),
                forall|k: int, j: int|
                    0 <= k < i as int && 0 <= j < size_of(height as int)
                        ==> pixels@[k]@[j] == opaque_black(),
            decreases width - i,
        {
            let mut column: Vec<Color> = Vec::new();
            let mut j: i16 = 0;
            while j < height
                invariant
                    black == opaque_black(),
                    0 <= j,
                    height > 0 ==> j <= height,
                    height <= 0 ==> j == 0,
                    column@.len() == j as int,
                    forall|k: int| 0 <= k < j as int ==> column@[k] == opaque_black(),
                decreases height - j,
            {
                column.push(black);
                j = j + 1;
            }
            pixels.push(column);
            i = i + 1;
        }
        Image { x, y, width, height, pixels }
    }

    /// Sets the pixel at absolute coordinates `(x, y)` to `color`. The
    /// coordinates must lie within the image's extent.
    pub fn set_pixel(&mut self, x: i16, y: i16, color: Color)
        requires
            old(self).wf(),
            old(self).contains_point(x as int, y as int),
            color.wf(),
        ensures
            final(self).x == old(self).x,
            final(self).y == old(self).y,
            final(self).width == old(self).width,
            final(self).height == old(self).height,
            final(self).wf(),
            final(self).pixels@.len() == old(self).pixels@.len(),
            forall|i: int, j: int|
                0 <= i < old(self).pixels@.len() && 0 <= j < old(self).pixels@[i]@.len()
                    ==> final(self).pixels@[i]@[j] == (if i == x - old(self).x && j == y - old(
                    self,
                ).y {
                    color
                } else {
                    old(self).pixels@[i]@[j]
                }),
            final(self).spec_hit(x as int, y as int) == Some(color),
    {
        let column = (x as i32 - self.x as i32) as usize;
        let row = (y as i32 - self.y as i32) as usize;
        self.pixels[column][row] = color;
    }

    /// Hit-tests the image at absolute pixel coordinates `(x, y)`.
    pub fn get_color(&self, x: i16, y: i16) -> (hit: Option<Color>)
        requires
            self.wf(),
        ensures
            hit == self.spec_hit(x as int, y as int),
    {
        let xi = x as i32;
        let yi = y as i32;
        if xi < self.x as i32 || xi >= self.x as i32 + self.width as i32 || yi < self.y as i32
            || yi >= self.y as i32 + self.height as i32 {
            return None;
        }
        let column = (xi - self.x as i32) as usize;
        let row = (yi - self.y as i32) as usize;
        Some(self.pixels[column][row])
    }

    /// A well-formed image only ever contributes well-formed colors.
    pub proof fn lemma_hit_wf(self, x: int, y: int)
        requires
            self.wf(),
            self.spec_hit(x, y) is Some,
        ensures
            self.spec_hit(x, y)->Some_0.wf(),
    {
        assert(self.pixels@[x - self.x]@[y - self.y].wf());
    }
}

} // verus!
