//! The canvas: owner of the output dimensions, the background color, and
//! the ordered list of shapes submitted for the current frame.
//!
//! Rasterization resolves every pixel of the output buffer in row-major
//! order: the running color starts at the background, every submitted shape
//! is hit-tested in submission order, and each hit is composited over the
//! running color, so later submissions paint over earlier ones. The whole
//! buffer is rewritten on every pass, and the submission list is drained,
//! ready for the next frame.

use vstd::arithmetic::div_mod::lemma_mod_division_less_than_divisor;
use vstd::arithmetic::div_mod::lemma_multiply_divide_lt;
use vstd::prelude::*;

use crate::color::Color;
use crate::color::spec_composite;
use crate::color::lemma_composite_wf;
use crate::shapes::Image;
use crate::shapes::Rectangle;
use crate::shapes::Shape;

verus! {

/// The configuration a canvas is constructed from: the output size in
/// pixels, the background color, and the title an embedding window system
/// may give the surface.
pub struct CanvasConfiguration {
    pub width: u32,
    pub height: u32,
    pub background_color: Color,
    pub window_name: String,
}

/// A canvas with a fixed size, a background color, and the current frame's
/// ordered submission list.
pub struct Canvas {
    pub width: u32,
    pub height: u32,
    pub background_color: Color,
    pub objects: Vec<Shape>,
}

/// The color a single pixel resolves to: the background, with every shape's
/// contribution at `(x, y)` composited over it in submission order.
pub open spec fn resolve_pixel(background: Color, shapes: Seq<Shape>, x: int, y: int) -> Color
    decreases shapes.len(),
{
    if shapes.len() == 0 {
        background
    } else {
        let below = resolve_pixel(background, shapes.drop_last(), x, y);
        match shapes.last().spec_hit(x, y) {
            Some(hit) => spec_composite(below, hit),
            None => below,
        }
    }
}

/// Resolving a pixel of a well-formed canvas yields a well-formed color.
pub proof fn lemma_resolve_pixel_wf(background: Color, shapes: Seq<Shape>, x: int, y: int)
    requires
        background.wf(),
        forall|i: int| 0 <= i < shapes.len() ==> (#[trigger] shapes[i]).wf(),
    ensures
        resolve_pixel(background, shapes, x, y).wf(),
    decreases shapes.len(),
{
    if shapes.len() > 0 {
        lemma_resolve_pixel_wf(background, shapes.drop_last(), x, y);
        let below = resolve_pixel(background, shapes.drop_last(), x, y);
        match shapes.last().spec_hit(x, y) {
            Some(hit) => {
                shapes.last().lemma_hit_wf(x, y);
                lemma_composite_wf(below, hit);
            },
            None => {},
        }
    }
}

/// With no submitted shapes, every pixel resolves to the background color.
pub proof fn lemma_resolve_no_shapes(background: Color, x: int, y: int)
    ensures
        resolve_pixel(background, Seq::<Shape>::empty(), x, y) == background,
{
}

/// When the last submitted shape hits a pixel with a non-blending color,
/// that color wins outright: whatever the earlier shapes contributed is
/// overwritten.
pub proof fn lemma_last_nonblending_hit_wins(
    background: Color,
    shapes: Seq<Shape>,
    x: int,
    y: int,
    hit: Color,
)
    requires
        shapes.len() > 0,
        shapes.last().spec_hit(x, y) == Some(hit),
        !hit.blending,
    ensures
        resolve_pixel(background, shapes, x, y) == hit,
{
}

impl Canvas {
    /// The size is positive and small enough for 16-bit pixel coordinates,
    /// the background color is well-formed, and so is every submitted shape.
    pub open spec fn wf(self) -> bool {
        &&& 1 <= self.width <= 0x7fff
        &&& 1 <= self.height <= 0x7fff
        &&& self.background_color.wf()
        &&& (forall|i: int| 0 <= i < self.objects@.len() ==> (#[trigger] self.objects@[i]).wf())
    }

    /// Creates an empty canvas of the configured size and background.
    pub fn new(config: &CanvasConfiguration) -> (canvas: Canvas)
        requires
            1 <= config.width <= 0x7fff,
            1 <= config.height <= 0x7fff,
            config.background_color.wf(),
        ensures
            canvas.width == config.width,
            canvas.height == config.height,
            canvas.background_color == config.background_color,
            canvas.objects@.len() == 0,
            canvas.wf(),
    {
        Canvas {
            width: config.width,
            height: config.height,
            background_color: config.background_color,
            objects: Vec::new(),
        }
    }

    /// The `(width, height)` of the canvas in pixels.
    pub fn get_size(&self) -> (size: (u32, u32))
        ensures
            size.0 == self.width,
            size.1 == self.height,
    {
        (self.width, self.height)
    }

    /// Submits a shape for the current frame: appends it to the ordered
    /// submission list, to be composited over all earlier submissions.
    pub fn draw_shape(&mut self, shape: Shape)
        requires
            old(self).wf(),
            shape.wf(),
        ensures
            final(self).width == old(self).width,
            final(self).height == old(self).height,
            final(self).background_color == old(self).background_color,
            final(self).objects@ == old(self).objects@.push(shape),
            final(self).wf(),
    {
        self.objects.push(shape);
    }

    /// Submits a square filled with `color` at `(x, y)`.
    pub fn draw_square(&mut self, x: i16, y: i16, size: i16, color: Color)
        requires
            old(self).wf(),
            color.wf(),
        ensures
            final(self).width == old(self).width,
            final(self).height == old(self).height,
            final(self).background_color == old(self).background_color,
            final(self).objects@ == old(self).objects@.push(
                Shape::Rectangle(
                    Rectangle {
                        x,
                        y,
                        width: size,
                        height: size,
                        fill: Some(color),
                        border: None,
                        border_width: 0,
                    },
                ),
            ),
            final(self).wf(),
    {
        self.draw_rect(x, y, size, size, color);
    }

    /// Submits a rectangle filled with `color` at `(x, y)`.
    pub fn draw_rect(&mut self, x: i16, y: i16, width: i16, height: i16, color: Color)
        requires
            old(self).wf(),
            color.wf(),
        ensures
            final(self).width == old(self).width,
            final(self).height == old(self).height,
            final(self).background_color == old(self).background_color,
            final(self).objects@ == old(self).objects@.push(
                Shape::Rectangle(
                    Rectangle {
                        x,
                        y,
                        width,
                        height,
                        fill: Some(color),
                        border: None,
                        border_width: 0,
                    },
                ),
            ),
            final(self).wf(),
    {
        let rect = Rectangle::new(x, y, width, height).with_fill(color);
        self.draw_shape(Shape::Rectangle(rect));
    }

    /// Submits an image.
    pub fn draw_image(&mut self, image: Image)
        requires
            old(self).wf(),
            image.wf(),
        ensures
            final(self).width == old(self).width,
            final(self).height == old(self).height,
            final(self).background_color == old(self).background_color,
            final(self).objects@ == old(self).objects@.push(Shape::Image(image)),
            final(self).wf(),
    {
        self.draw_shape(Shape::Image(image));
    }

    /// The color the canvas's current submissions resolve pixel `(x, y)` to.
    fn resolve_color(&self, x: i16, y: i16) -> (resolved: Color)
        requires
            self.wf(),
        ensures
            resolved == resolve_pixel(self.background_color, self.objects@, x as int, y as int),
            resolved.wf(),
    {
        let mut running = self.background_color;
        let count = self.objects.len();
        let mut i: usize = 0;
        while i < count
            invariant
                self.wf(),
                i <= count,
                count == self.objects@.len(),
                running == resolve_pixel(
                    self.background_color,
                    self.objects@.take(i as int),
                    x as int,
                    y as int,
                ),
                running.wf(),
            decreases count - i,
        {
            let shape = &self.objects[i];
            proof {
                assert(self.objects@.take(i as int + 1).drop_last() =~= self.objects@.take(
                    i as int,
                ));
                assert(self.objects@.take(i as int + 1).last() == self.objects@[i as int]);
            }
            match shape.get_color(x, y) {
                Some(hit) => {
                    proof {
                        shape.lemma_hit_wf(x as int, y as int);
                    }
                    running.composite_over(hit);
                },
                None => {},
            }
            i = i + 1;
        }
        proof {
            assert(self.objects@.take(count as int) =~= self.objects@);
        }
        running
    }

    /// Rasterizes the current frame into `frame`, a row-major RGBA byte
    /// buffer of exactly `width * height * 4` bytes, 4 bytes per pixel, then
    /// drains the submission list: a shape submitted for this frame never
    /// appears in the next unless it is resubmitted.
    ///
    /// Pixel `p` of the buffer (row-major, so at coordinates
    /// `(p % width, p / width)`) holds the bytes of the color that the
    /// background and the submitted shapes resolve to at that point.
    pub fn draw_to_buffer(&mut self, frame: &mut Vec<u8>)
        requires
            old(self).wf(),
            old(frame)@.len() == old(self).width * old(self).height * 4,
        ensures
            final(self).width == old(self).width,
            final(self).height == old(self).height,
            final(self).background_color == old(self).background_color,
            final(self).objects@.len() == 0,
            final(self).wf(),
            final(frame)@.len() == old(frame)@.len(),
            forall|p: int|
                0 <= p < old(self).width * old(self).height ==> #[trigger] final(frame)@.subrange(
                    4 * p,
                    4 * p + 4,
                ) == resolve_pixel(
                    old(self).background_color,
                    old(self).objects@,
                    p % old(self).width as int,
                    p / old(self).width as int,
                ).spec_bytes(),
    {
        let width = self.width;
        let height = self.height;
        proof {
            assert(width as int * height as int <= 0x7fff * 0x7fff) by (nonlinear_arith)
                requires 1 <= width as int <= 0x7fff, 1 <= height as int <= 0x7fff;
        }
        let total: u64 = width as u64 * height as u64;
        frame.clear();
        let mut p: u64 = 0;
        while p < total
            invariant
                self.wf(),
                *self == *old(self),
                p <= total,
                total == self.width * self.height,
                width == self.width,
                height == self.height,
                frame@.len() == 4 * p,
                forall|q: int|
                    0 <= q < p ==> #[trigger] frame@.subrange(4 * q, 4 * q + 4) == resolve_pixel(
                        self.background_color,
                        self.objects@,
                        q % self.width as int,
                        q / self.width as int,
                    ).spec_bytes(),
            decreases total - p,
        {
            proof {
                lemma_mod_division_less_than_divisor(p as int, width as int);
                lemma_multiply_divide_lt(p as int, width as int, height as int);
            }
            let x: i16 = (p % width as u64) as i16;
            let y: i16 = (p / width as u64) as i16;
            let resolved = self.resolve_color(x, y);
            let bytes = resolved.as_bytes();
            let ghost frame_before = frame@;
            frame.push(bytes[0]);
            frame.push(bytes[1]);
            frame.push(bytes[2]);
            frame.push(bytes[3]);
            proof {
                assert forall|q: int| 0 <= q < p + 1 implies #[trigger] frame@.subrange(
                    4 * q,
                    4 * q + 4,
                ) == resolve_pixel(
                    self.background_color,
                    self.objects@,
                    q % self.width as int,
                    q / self.width as int,
                ).spec_bytes() by {
                    if q < p {
                        assert(frame@.subrange(4 * q, 4 * q + 4) =~= frame_before.subrange(
                            4 * q,
                            4 * q + 4,
                        ));
                    } else {
                        assert(frame@.subrange(4 * q, 4 * q + 4) =~= bytes@);
                    }
                }
            }
            p = p + 1;
        }
        self.objects = Vec::new();
    }
}

} // verus!
