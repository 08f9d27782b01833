//! A minimal immediate-mode 2D rasterizer.
//!
//! Each frame, a caller submits a list of shapes to a canvas; the canvas
//! resolves, for every pixel of a fixed-size output buffer, which shapes
//! contribute at that pixel, composites overlapping contributions with alpha
//! blending, and writes the result into a raw RGBA byte buffer. Submissions
//! are drained by each rasterization pass, so a shape drawn in one frame
//! never appears in the next unless it is resubmitted.
//!
//! Colors are held in exact fixed-point form (see [`Color`]): every channel
//! is a fraction of [`CHANNEL_ONE`], so the compositing arithmetic and the
//! byte conversion are stated and proved exactly. Conversions from
//! floating-point channel values belong to the unverified surface layer
//! around this library.

mod canvas;
mod color;
pub mod shapes;

pub use canvas::Canvas;
pub use canvas::CanvasConfiguration;
pub use canvas::lemma_last_nonblending_hit_wins;
pub use canvas::lemma_resolve_no_shapes;
pub use canvas::lemma_resolve_pixel_wf;
pub use canvas::resolve_pixel;
pub use color::CHANNEL_ONE;
pub use color::Color;
pub use color::clamp_one;
pub use color::lemma_composite_equal_alpha;
pub use color::lemma_composite_no_blending;
pub use color::lemma_composite_wf;
pub use color::lemma_int8_round_trip;
pub use color::mix_channels;
pub use color::spec_composite;
