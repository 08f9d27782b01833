//! The color model: an immutable RGBA value together with a `blending` flag
//! that decides whether the color takes part in alpha compositing or
//! overwrites whatever lies below it.
//!
//! Channels are exact fixed-point fractions: a channel value `c` stands for
//! the real number `c / CHANNEL_ONE`, and the invariant [`Color::wf`] keeps
//! every channel in `0 ..= CHANNEL_ONE` (that is, in `[0, 1]`). The scale
//! `CHANNEL_ONE == 255 * 256` is chosen so that both the 8-bit constructor
//! (which divides by 255) and the byte conversion (which multiplies by 255
//! and truncates) are exact, and so that a half (`0.5`) is representable.

use vstd::arithmetic::div_mod::lemma_div_denominator;
use vstd::arithmetic::div_mod::lemma_div_is_ordered;
use vstd::arithmetic::div_mod::lemma_div_multiples_vanish;
use vstd::arithmetic::div_mod::lemma_div_pos_is_pos;
use vstd::arithmetic::mul::lemma_mul_inequality;
use vstd::arithmetic::mul::lemma_mul_is_commutative;
use vstd::prelude::*;

verus! {

/// The fixed-point representation of the channel value `1.0`.
pub const CHANNEL_ONE: u16 = 65280;

/// An RGBA color. A channel value `c` stands for the fraction
/// `c / CHANNEL_ONE` of full intensity; `blending` marks whether the color
/// mixes with the color below it when composited, or replaces it outright.
#[derive(Clone, Copy, PartialEq, Eq, Debug)]
pub struct Color {
    pub r: u16,
    pub g: u16,
    pub b: u16,
    pub a: u16,
    pub blending: bool,
}

/// Clamps a channel value to at most `CHANNEL_ONE`.
pub open spec fn clamp_one(c: int) -> int {
    if c > CHANNEL_ONE as int {
        CHANNEL_ONE as int
    } else {
        c
    }
}

/// The weighted mix of two channel values `c1` and `c2`, the weights being
/// the respective alphas over their sum: `(c1*a1 + c2*a2) / (a1 + a2)`,
/// truncated toward zero.
pub open spec fn mix_channels(c1: int, a1: int, c2: int, a2: int) -> int {
    (c1 * a1 + c2 * a2) / (a1 + a2)
}

impl Color {
    /// Every channel lies within `[0, 1]`, i.e. at most `CHANNEL_ONE`.
    pub open spec fn wf(self) -> bool {
        &&& self.r <= CHANNEL_ONE
        &&& self.g <= CHANNEL_ONE
        &&& self.b <= CHANNEL_ONE
        &&& self.a <= CHANNEL_ONE
    }

    /// A channel scaled to `0 ..= 255` and truncated toward zero.
    pub open spec fn spec_byte(c: u16) -> u8 {
        (((c as int) * 255) / (CHANNEL_ONE as int)) as u8
    }

    /// The 4-byte RGBA rendering of the color.
    pub open spec fn spec_bytes(self) -> Seq<u8> {
        seq![
            Self::spec_byte(self.r),
            Self::spec_byte(self.g),
            Self::spec_byte(self.b),
            Self::spec_byte(self.a),
        ]
    }

    /// The color built by the 8-bit constructor: each channel `v` becomes
    /// the exact fraction `v / 255`, i.e. `v * 256` at the fixed-point scale.
    pub open spec fn spec_from_rgba_int(r: u8, g: u8, b: u8, a: u8, blending: bool) -> Color {
        Color {
            r: (r as int * 256) as u16,
            g: (g as int * 256) as u16,
            b: (b as int * 256) as u16,
            a: (a as int * 256) as u16,
            blending,
        }
    }

    /// The canonical constructor. Channel values are fixed-point fractions
    /// of `CHANNEL_ONE`; values outside `[0, 1]` are rejected by contract.
    pub fn from_rgba(r: u16, g: u16, b: u16, a: u16, blending: bool) -> (c: Color)
        requires
            r <= CHANNEL_ONE,
            g <= CHANNEL_ONE,
            b <= CHANNEL_ONE,
            a <= CHANNEL_ONE,
        ensures
            c == (Color { r, g, b, a, blending }),
            c.wf(),
    {
        Color { r, g, b, a, blending }
    }

    /// Builds a color from four 8-bit channels, dividing each by 255.
    pub fn from_rgba_int(r: u8, g: u8, b: u8, a: u8, blending: bool) -> (c: Color)
        ensures
            c == Self::spec_from_rgba_int(r, g, b, a, blending),
            c.wf(),
    {
        Self::from_rgba((r as u16) * 256, (g as u16) * 256, (b as u16) * 256, (a as u16) * 256, blending)
    }

    /// The color as four bytes, each channel scaled by 255 and truncated
    /// toward zero.
    pub fn as_bytes(&self) -> (bytes: [u8; 4])
        requires
            self.wf(),
        ensures
            bytes@ == self.spec_bytes(),
    {
        let bytes: [u8; 4] = [
            byte_of_channel(self.r),
            byte_of_channel(self.g),
            byte_of_channel(self.b),
            byte_of_channel(self.a),
        ];
        proof {
            assert(bytes@ =~= self.spec_bytes());
        }
        bytes
    }

    /// The compositing operator: merges the color below (`self`) with an
    /// overlay (`rhs`) drawn on top of it.
    ///
    /// If both colors blend, each of the red and green channels becomes the
    /// alpha-weighted mix of the two inputs' channels, the new alpha is the
    /// clamped sum of the alphas, and — kept faithfully from the reference
    /// behavior, where it reads as a defect — the blue channel mixes the
    /// base's *green* channel with the overlay's blue. If the alphas are
    /// both zero the weights are taken as 0 and 1, so the overlay's channels
    /// come through with alpha zero. If either color does not blend, the
    /// overlay replaces the base outright.
    pub fn composite_over(&mut self, rhs: Color)
        requires
            old(self).wf(),
            rhs.wf(),
        ensures
            *final(self) == spec_composite(*old(self), rhs),
            final(self).wf(),
    {
        if self.blending && rhs.blending {
            let denom: u64 = self.a as u64 + rhs.a as u64;
            if denom == 0 {
                *self = Color { r: rhs.r, g: rhs.g, b: rhs.b, a: 0, blending: true };
            } else {
                proof {
                    lemma_mul_inequality(self.r as int, CHANNEL_ONE as int, self.a as int);
                    lemma_mul_inequality(self.g as int, CHANNEL_ONE as int, self.a as int);
                    lemma_mul_inequality(rhs.r as int, CHANNEL_ONE as int, rhs.a as int);
                    lemma_mul_inequality(rhs.g as int, CHANNEL_ONE as int, rhs.a as int);
                    lemma_mul_inequality(rhs.b as int, CHANNEL_ONE as int, rhs.a as int);
                }
                let r: u16 = clamp_channel((self.r as u64 * self.a as u64 + rhs.r as u64 * rhs.a as u64) / denom);
                let g: u16 = clamp_channel((self.g as u64 * self.a as u64 + rhs.g as u64 * rhs.a as u64) / denom);
                let b: u16 = clamp_channel((self.g as u64 * self.a as u64 + rhs.b as u64 * rhs.a as u64) / denom);
                let a: u16 = clamp_channel(denom);
                *self = Color { r, g, b, a, blending: true };
            }
        } else {
            *self = rhs;
        }
    }
}

/// A channel scaled to `0 ..= 255`, truncated toward zero.
fn byte_of_channel(c: u16) -> (byte: u8)
    requires
        c <= CHANNEL_ONE,
    ensures
        byte == Color::spec_byte(c),
{
    ((c as u32 * 255) / (CHANNEL_ONE as u32)) as u8
}

/// Clamps a 64-bit channel value to at most `CHANNEL_ONE`.
fn clamp_channel(value: u64) -> (c: u16)
    ensures
        c as int == clamp_one(value as int),
{
    if value > CHANNEL_ONE as u64 {
        CHANNEL_ONE
    } else {
        value as u16
    }
}

/// The compositing law. If either input does not blend, the overlay wins
/// outright; otherwise the channels are alpha-weighted mixes, with the blue
/// output mixing the base's green channel (kept from the reference
/// behavior), and the alpha is the clamped sum.
pub open spec fn spec_composite(base: Color, overlay: Color) -> Color {
    if !(base.blending && overlay.blending) {
        overlay
    } else if base.a + overlay.a == 0 {
        Color { r: overlay.r, g: overlay.g, b: overlay.b, a: 0, blending: true }
    } else {
        Color {
            r: clamp_one(mix_channels(base.r as int, base.a as int, overlay.r as int, overlay.a as int)) as u16,
            g: clamp_one(mix_channels(base.g as int, base.a as int, overlay.g as int, overlay.a as int)) as u16,
            b: clamp_one(mix_channels(base.g as int, base.a as int, overlay.b as int, overlay.a as int)) as u16,
            a: clamp_one(base.a as int + overlay.a as int) as u16,
            blending: true,
        }
    }
}

/// Compositing preserves well-formedness.
pub proof fn lemma_composite_wf(base: Color, overlay: Color)
    requires
        base.wf(),
        overlay.wf(),
    ensures
        spec_composite(base, overlay).wf(),
{
    if base.blending && overlay.blending && base.a + overlay.a != 0 {
        lemma_mix_in_range(base.r as int, base.a as int, overlay.r as int, overlay.a as int);
        lemma_mix_in_range(base.g as int, base.a as int, overlay.g as int, overlay.a as int);
        lemma_mix_in_range(base.g as int, base.a as int, overlay.b as int, overlay.a as int);
    }
}

/// The mix of two channel values in `[0, CHANNEL_ONE]` is again in that
/// range (it is a weighted average), so clamping cannot push it out.
proof fn lemma_mix_in_range(c1: int, a1: int, c2: int, a2: int)
    requires
        0 <= c1 <= CHANNEL_ONE as int,
        0 <= c2 <= CHANNEL_ONE as int,
        0 <= a1,
        0 <= a2,
        a1 + a2 > 0,
    ensures
        0 <= mix_channels(c1, a1, c2, a2) <= CHANNEL_ONE as int,
{
    let one = CHANNEL_ONE as int;
    assert(0 <= c1 * a1 + c2 * a2 && c1 * a1 + c2 * a2 <= (a1 + a2) * 65280) by (nonlinear_arith)
        requires
            0 <= c1 <= 65280,
            0 <= c2 <= 65280,
            0 <= a1,
            0 <= a2;
    lemma_div_pos_is_pos(c1 * a1 + c2 * a2, a1 + a2);
    lemma_div_is_ordered(c1 * a1 + c2 * a2, (a1 + a2) * one, a1 + a2);
    lemma_div_multiples_vanish(one, a1 + a2);
}

/// Compositing with a non-blending participant performs a hard overwrite:
/// the overlay comes through exactly, with no mixing.
pub proof fn lemma_composite_no_blending(base: Color, overlay: Color)
    requires
        !base.blending || !overlay.blending,
    ensures
        spec_composite(base, overlay) == overlay,
{
}

/// Compositing two blending colors of equal positive alpha mixes each of the
/// red and green channels 50/50: the result is the exact (truncated) average
/// of the two inputs' channels, which never needs clamping.
pub proof fn lemma_composite_equal_alpha(base: Color, overlay: Color)
    requires
        base.wf(),
        overlay.wf(),
        base.blending,
        overlay.blending,
        base.a == overlay.a,
        base.a > 0,
    ensures
        spec_composite(base, overlay).r == (base.r + overlay.r) / 2,
        spec_composite(base, overlay).g == (base.g + overlay.g) / 2,
{
    lemma_equal_alpha_mix(base.r as int, overlay.r as int, base.a as int);
    lemma_equal_alpha_mix(base.g as int, overlay.g as int, base.a as int);
}

/// With equal weights `a`, the alpha-weighted mix of `c1` and `c2` collapses
/// to their plain average.
proof fn lemma_equal_alpha_mix(c1: int, c2: int, a: int)
    requires
        0 <= c1 <= CHANNEL_ONE as int,
        0 <= c2 <= CHANNEL_ONE as int,
        a > 0,
    ensures
        mix_channels(c1, a, c2, a) == (c1 + c2) / 2,
        mix_channels(c1, a, c2, a) <= CHANNEL_ONE as int,
{
    assert(c1 * a + c2 * a == (c1 + c2) * a && 0 <= (c1 + c2) * a) by (nonlinear_arith)
        requires
            0 <= c1,
            0 <= c2,
            0 < a;
    lemma_div_denominator((c1 + c2) * a, a, 2);
    lemma_mul_is_commutative(c1 + c2, a);
    lemma_div_multiples_vanish(c1 + c2, a);
    assert(mix_channels(c1, a, c2, a) == (c1 + c2) / 2);
}

/// Converting four 8-bit channels to a color and back to bytes returns the
/// original tuple: the truncating byte conversion undoes the division by
/// 255 exactly.
pub proof fn lemma_int8_round_trip(r: u8, g: u8, b: u8, a: u8, blending: bool)
    ensures
        Color::spec_from_rgba_int(r, g, b, a, blending).spec_bytes() == seq![r, g, b, a],
{
    lemma_channel_byte_round_trip(r);
    lemma_channel_byte_round_trip(g);
    lemma_channel_byte_round_trip(b);
    lemma_channel_byte_round_trip(a);
    assert(Color::spec_from_rgba_int(r, g, b, a, blending).spec_bytes() =~= seq![r, g, b, a]);
}

/// One channel of the 8-bit round trip: `(v * 256) * 255 / 65280 == v`.
proof fn lemma_channel_byte_round_trip(v: u8)
    ensures
        Color::spec_byte((v as int * 256) as u16) == v,
{
    let c = (v as int) * 256;
    assert(c * 255 == (CHANNEL_ONE as int) * (v as int));
    lemma_div_multiples_vanish(v as int, CHANNEL_ONE as int);
}

} // verus!
