//! Tolerance-band segmentation: turning a frame into a binary mask.
//!
//! A pixel matches when every channel, in the active color space, falls
//! inside the inclusive band `[reference - tolerance, reference + tolerance]`
//! built with saturating arithmetic. Matching pixels are written at maximum
//! intensity (255), all others at zero. Two interchangeable strategies share
//! this contract: direct RGB banding, and HSV banding with the hue's upper
//! bound clamped to 180 (not wrapped), so reference hues near the boundary
//! get an asymmetric, narrower band — a documented policy, not an accident.

use vstd::prelude::*;
use crate::color::{Color, sat_add, sat_sub};
use crate::frame::Frame;
use crate::hsv::{Hsv, hsv_hue, hsv_saturation, hsv_value, rgb_to_hsv};

verus! {

/// Intensity of a matching mask pixel.
pub open spec fn mask_on() -> u8 {
    255u8
}

/// Intensity of a non-matching mask pixel.
pub open spec fn mask_off() -> u8 {
    0u8
}

/// Whether one channel lies inside the saturated tolerance band.
pub open spec fn channel_in_band(p: u8, reference: u8, tolerance: u8) -> bool {
    sat_sub(reference, tolerance) <= p <= sat_add(reference, tolerance)
}

/// Whether a pixel matches the reference color under the RGB strategy.
pub open spec fn rgb_matches(p: Color, reference: Color, tolerance: u8) -> bool {
    &&& channel_in_band(p.red, reference.red, tolerance)
    &&& channel_in_band(p.green, reference.green, tolerance)
    &&& channel_in_band(p.blue, reference.blue, tolerance)
}

/// The hue band's upper bound: saturating add, then clamped to 180.
pub open spec fn hue_upper(reference_h: u8, tolerance_h: u8) -> u8 {
    if sat_add(reference_h, tolerance_h) > 180 {
        180u8
    } else {
        sat_add(reference_h, tolerance_h)
    }
}

/// Whether a pixel matches the reference triple under the HSV strategy.
pub open spec fn hsv_matches(p: Color, reference: Hsv, tolerance: Hsv) -> bool {
    &&& sat_sub(reference.h, tolerance.h) <= hsv_hue(p) <= hue_upper(reference.h, tolerance.h)
    &&& sat_sub(reference.s, tolerance.s) <= hsv_saturation(p) <= sat_add(
        reference.s,
        tolerance.s,
    )
    &&& sat_sub(reference.v, tolerance.v) <= hsv_value(p) <= sat_add(reference.v, tolerance.v)
}

/// The binary mask of a pixel sequence under the RGB strategy.
pub open spec fn rgb_mask(pixels: Seq<Color>, reference: Color, tolerance: u8) -> Seq<u8> {
    pixels.map_values(
        |p: Color|
            if rgb_matches(p, reference, tolerance) {
                mask_on()
            } else {
                mask_off()
            },
    )
}

/// The binary mask of a pixel sequence under the HSV strategy.
pub open spec fn hsv_mask(pixels: Seq<Color>, reference: Hsv, tolerance: Hsv) -> Seq<u8> {
    pixels.map_values(
        |p: Color|
            if hsv_matches(p, reference, tolerance) {
                mask_on()
            } else {
                mask_off()
            },
    )
}

/// The tolerance window around a reference color: lower and upper bound built
/// with saturating subtract and add, so the band collapses at the channel
/// extremes instead of failing, and always brackets the reference:
/// `lower <= reference <= upper` channel-wise, with both ends in `[0, 255]`.
pub fn lower_upper(color: Color, tolerance: u8) -> (bounds: (Color, Color))
    ensures
        bounds.0.red == sat_sub(color.red, tolerance),
        bounds.0.green == sat_sub(color.green, tolerance),
        bounds.0.blue == sat_sub(color.blue, tolerance),
        bounds.1.red == sat_add(color.red, tolerance),
        bounds.1.green == sat_add(color.green, tolerance),
        bounds.1.blue == sat_add(color.blue, tolerance),
        bounds.0.red <= color.red <= bounds.1.red,
        bounds.0.green <= color.green <= bounds.1.green,
        bounds.0.blue <= color.blue <= bounds.1.blue,
{
    (color - tolerance, color + tolerance)
}

/// RGB-strategy segmentation: one mask byte per pixel, 255 where every
/// channel of the pixel lies inside the tolerance band, 0 elsewhere.
pub fn isolate_obj(frame: &Frame, color: Color, tolerance: u8) -> (mask: Vec<u8>)
    requires
        frame.wf(),
    ensures
        mask@ == rgb_mask(frame.pixels@, color, tolerance),
        mask@.len() == frame.pixels@.len(),
{
    let (lower, upper) = lower_upper(color, tolerance);
    let n: usize = frame.pixels.len();
    let mut mask: Vec<u8> = Vec::new();
    let mut i: usize = 0;
    while i < n
        invariant
            i <= n,
            n == frame.pixels@.len(),
            mask@.len() == i,
            lower.red == sat_sub(color.red, tolerance),
            lower.green == sat_sub(color.green, tolerance),
            lower.blue == sat_sub(color.blue, tolerance),
            upper.red == sat_add(color.red, tolerance),
            upper.green == sat_add(color.green, tolerance),
            upper.blue == sat_add(color.blue, tolerance),
            forall|j: int|
                0 <= j < i ==> mask@[j] == (if rgb_matches(frame.pixels@[j], color, tolerance) {
                    mask_on()
                } else {
                    mask_off()
                }),
        decreases n - i,
    {
        let p = frame.pixels[i];
        let hit = lower.red <= p.red && p.red <= upper.red && lower.green <= p.green
            && p.green <= upper.green && lower.blue <= p.blue && p.blue <= upper.blue;
        if hit {
            mask.push(255);
        } else {
            mask.push(0);
        }
        i = i + 1;
    }
    proof {
        assert(mask@ =~= rgb_mask(frame.pixels@, color, tolerance));
    }
    mask
}

/// HSV-strategy segmentation: each pixel is converted once, then banded
/// against the reference triple, with the hue's upper bound clamped to 180.
pub fn isolate_obj_hsv(frame: &Frame, reference: Hsv, tolerance: Hsv) -> (mask: Vec<u8>)
    requires
        frame.wf(),
    ensures
        mask@ == hsv_mask(frame.pixels@, reference, tolerance),
        mask@.len() == frame.pixels@.len(),
{
    let h_lo = reference.h.saturating_sub(tolerance.h);
    let h_hi_sat = reference.h.saturating_add(tolerance.h);
    let h_hi: u8 = if h_hi_sat > 180 {
        180
    } else {
        h_hi_sat
    };
    let s_lo = reference.s.saturating_sub(tolerance.s);
    let s_hi = reference.s.saturating_add(tolerance.s);
    let v_lo = reference.v.saturating_sub(tolerance.v);
    let v_hi = reference.v.saturating_add(tolerance.v);

    let n: usize = frame.pixels.len();
    let mut mask: Vec<u8> = Vec::new();
    let mut i: usize = 0;
    while i < n
        invariant
            i <= n,
            n == frame.pixels@.len(),
            mask@.len() == i,
            h_lo == sat_sub(reference.h, tolerance.h),
            h_hi == hue_upper(reference.h, tolerance.h),
            s_lo == sat_sub(reference.s, tolerance.s),
            s_hi == sat_add(reference.s, tolerance.s),
            v_lo == sat_sub(reference.v, tolerance.v),
            v_hi == sat_add(reference.v, tolerance.v),
            forall|j: int|
                0 <= j < i ==> mask@[j] == (if hsv_matches(
                    frame.pixels@[j],
                    reference,
                    tolerance,
                ) {
                    mask_on()
                } else {
                    mask_off()
                }),
        decreases n - i,
    {
        let p = rgb_to_hsv(frame.pixels[i]);
        let hit = h_lo <= p.h && p.h <= h_hi && s_lo <= p.s && p.s <= s_hi && v_lo <= p.v
            && p.v <= v_hi;
        if hit {
            mask.push(255);
        } else {
            mask.push(0);
        }
        i = i + 1;
    }
    proof {
        assert(mask@ =~= hsv_mask(frame.pixels@, reference, tolerance));
    }
    mask
}

/// Law: segmentation is idempotent. The RGB mask is a pure function of the
/// pixels, the reference and the tolerance, so two runs over the same inputs
/// produce bit-identical masks.
pub proof fn lemma_rgb_segmentation_idempotent(
    m1: Seq<u8>,
    m2: Seq<u8>,
    pixels: Seq<Color>,
    reference: Color,
    tolerance: u8,
)
    requires
        m1 == rgb_mask(pixels, reference, tolerance),
        m2 == rgb_mask(pixels, reference, tolerance),
    ensures
        m1 == m2,
{
}

/// Law: segmentation is idempotent under the HSV strategy as well.
pub proof fn lemma_hsv_segmentation_idempotent(
    m1: Seq<u8>,
    m2: Seq<u8>,
    pixels: Seq<Color>,
    reference: Hsv,
    tolerance: Hsv,
)
    requires
        m1 == hsv_mask(pixels, reference, tolerance),
        m2 == hsv_mask(pixels, reference, tolerance),
    ensures
        m1 == m2,
{
}

} // verus!
