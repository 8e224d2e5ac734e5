//! Projection parameters, kept exact.
//!
//! Aspect-dependent extents are stored as rationals over the integer
//! viewport size, so the aspect-correction rule can be stated and
//! proved exactly. The near and far planes are `f32` values that the
//! logic never computes with; they travel as IEEE-754 bit patterns.

use vstd::prelude::*;

verus! {

/// An exact nonnegative rational `num / den`.
#[derive(Clone, Copy, PartialEq, Eq, Debug)]
pub struct Ratio {
    pub num: u64,
    pub den: u64,
}

impl Ratio {
    /// The value `num / den` equals `n / d`, by cross multiplication.
    pub open spec fn equals_frac(self, n: int, d: int) -> bool {
        self.num * d == n * self.den
    }
}

/// Orthographic projection parameters.
///
/// The extents are symmetric about the origin: the renderer's volume is
/// `-half_width .. half_width` horizontally and
/// `-half_height .. half_height` vertically.
#[derive(Clone, Copy, PartialEq, Eq, Debug)]
pub struct OrthoParams {
    pub half_width: Ratio,
    pub half_height: Ratio,
    /// Bit pattern of the `f32` near plane.
    pub near_bits: u32,
    /// Bit pattern of the `f32` far plane.
    pub far_bits: u32,
}

/// Perspective projection parameters.
#[derive(Clone, Copy, PartialEq, Eq, Debug)]
pub struct PerspectiveParams {
    /// Vertical field of view, in whole degrees.
    pub fovy_degrees: u32,
    /// Width over height of the viewport.
    pub aspect: Ratio,
    /// Bit pattern of the `f32` near plane.
    pub near_bits: u32,
    /// Bit pattern of the `f32` far plane.
    pub far_bits: u32,
}

/// The aspect-corrected half extents for a `w` by `h` viewport: the
/// shorter axis keeps a half extent of 2 and the longer axis is scaled
/// by the aspect ratio.
pub open spec fn spec_half_extents(w: u32, h: u32) -> (Ratio, Ratio) {
    if w > h {
        (Ratio { num: (2 * w) as u64, den: h as u64 }, Ratio { num: 2, den: 1 })
    } else {
        (Ratio { num: 2, den: 1 }, Ratio { num: (2 * h) as u64, den: w as u64 })
    }
}

/// Compute the aspect-corrected orthographic half extents,
/// `(half_width, half_height)`.
pub fn half_extents(w: u32, h: u32) -> (r: (Ratio, Ratio))
    ensures
        r == spec_half_extents(w, h),
{
    if w > h {
        (Ratio { num: 2 * (w as u64), den: h as u64 }, Ratio { num: 2, den: 1 })
    } else {
        (Ratio { num: 2, den: 1 }, Ratio { num: 2 * (h as u64), den: w as u64 })
    }
}

/// Aspect-correction law for a wide viewport: given `w > h`, the full
/// horizontal span `right - left` equals `2 * (w / h) * 2` and the full
/// vertical span `top - bottom` equals 4, as exact rationals.
pub proof fn lemma_half_extents_wide(w: u32, h: u32)
    requires
        w > h,
    ensures
        2 * spec_half_extents(w, h).0.num * (h as int) == 2 * (w as int) * 2 * spec_half_extents(
            w,
            h,
        ).0.den,
        2 * spec_half_extents(w, h).1.num == 4 * spec_half_extents(w, h).1.den,
{
}

/// Aspect-correction law for a tall or square viewport: given
/// `h >= w`, the axes swap roles: the full vertical span `top - bottom`
/// equals `2 * (h / w) * 2` and the full horizontal span `right - left`
/// equals 4, as exact rationals.
pub proof fn lemma_half_extents_tall(w: u32, h: u32)
    requires
        h >= w,
    ensures
        2 * spec_half_extents(w, h).1.num * (w as int) == 2 * (h as int) * 2 * spec_half_extents(
            w,
            h,
        ).1.den,
        2 * spec_half_extents(w, h).0.num == 4 * spec_half_extents(w, h).0.den,
{
}

} // verus!
