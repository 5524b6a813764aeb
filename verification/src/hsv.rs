//! RGB to HSV conversion on 8-bit channels.
//!
//! Hue lives in `[0, 180]` (half-scale of a 0-360 degree hue, so it fits an
//! 8-bit channel); saturation and value live in `[0, 255]`. The conversion is
//! pure integer arithmetic: value is the channel maximum, saturation is
//! `255 * (max - min) / max` (zero for black), and hue follows the standard
//! six-sector formula with each sector's fraction divided toward zero, halved
//! at the end, and left at zero for gray inputs (`max == min`), which also
//! guards the division by a zero delta.

use vstd::prelude::*;
use crate::color::Color;

verus! {

/// A hue/saturation/value triple; well-formed when hue is at most 180.
#[derive(Debug, Clone, Copy, PartialEq, Eq, Hash, Structural)]
pub struct Hsv {
    pub h: u8,
    pub s: u8,
    pub v: u8,
}

impl Hsv {
    /// Hue must fit the half-scale `[0, 180]` domain.
    pub open spec fn wf(self) -> bool {
        self.h <= 180
    }

    pub fn new(h: u8, s: u8, v: u8) -> (out: Hsv)
        requires
            h <= 180,
        ensures
            out == (Hsv { h, s, v }),
            out.wf(),
    {
        Hsv { h, s, v }
    }
}

pub open spec fn max3(a: int, b: int, c: int) -> int {
    if a >= b && a >= c {
        a
    } else if b >= c {
        b
    } else {
        c
    }
}

pub open spec fn min3(a: int, b: int, c: int) -> int {
    if a <= b && a <= c {
        a
    } else if b <= c {
        b
    } else {
        c
    }
}

/// The value channel: the largest of the three RGB channels.
pub open spec fn hsv_value(c: Color) -> int {
    max3(c.red as int, c.green as int, c.blue as int)
}

/// The spread between the largest and the smallest channel.
pub open spec fn hsv_delta(c: Color) -> int {
    hsv_value(c) - min3(c.red as int, c.green as int, c.blue as int)
}

/// The saturation channel, scaled to `[0, 255]`; zero when value is zero.
pub open spec fn hsv_saturation(c: Color) -> int {
    if hsv_value(c) == 0 {
        0
    } else {
        255 * hsv_delta(c) / hsv_value(c)
    }
}

/// The hue in whole degrees `[0, 360]`, from the six-sector formula keyed on
/// which channel is maximal (ties resolved red first, then green). A gray
/// input (`delta == 0`) has hue zero. Each sector fraction is a division of
/// nonnegative integers, so negative offsets are written as subtractions.
pub open spec fn hue_degrees(c: Color) -> int {
    let r = c.red as int;
    let g = c.green as int;
    let b = c.blue as int;
    let d = hsv_delta(c);
    if d == 0 {
        0
    } else if hsv_value(c) == r {
        if g >= b {
            60 * (g - b) / d
        } else {
            360 - 60 * (b - g) / d
        }
    } else if hsv_value(c) == g {
        if b >= r {
            120 + 60 * (b - r) / d
        } else {
            120 - 60 * (r - b) / d
        }
    } else {
        if r >= g {
            240 + 60 * (r - g) / d
        } else {
            240 - 60 * (g - r) / d
        }
    }
}

/// The hue channel: degrees halved to fit `[0, 180]`.
pub open spec fn hsv_hue(c: Color) -> int {
    hue_degrees(c) / 2
}

/// Converts an RGB color to its HSV triple. Total over all inputs: gray and
/// black inputs take the guarded branches instead of dividing by zero.
pub fn rgb_to_hsv(c: Color) -> (out: Hsv)
    ensures
        out.h == hsv_hue(c),
        out.s == hsv_saturation(c),
        out.v == hsv_value(c),
        out.wf(),
        hsv_delta(c) == 0 ==> out.h == 0 && out.s == 0,
        hsv_value(c) == 0 ==> out.s == 0 && out.v == 0,
{
    let r = c.red;
    let g = c.green;
    let b = c.blue;
    let v: u8 = if r >= g && r >= b {
        r
    } else if g >= b {
        g
    } else {
        b
    };
    let mn: u8 = if r <= g && r <= b {
        r
    } else if g <= b {
        g
    } else {
        b
    };
    let d: u8 = v - mn;

    let s: u8 = if v == 0 {
        0
    } else {
        let sq: u32 = 255u32 * (d as u32) / (v as u32);
        proof {
            lemma_scaled_fraction_bounded(255, d as int, v as int);
        }
        sq as u8
    };

    let h: u8 = if d == 0 {
        0
    } else {
        let hd: u32 = if v == r {
            if g >= b {
                proof {
                    lemma_scaled_fraction_bounded(60, (g - b) as int, d as int);
                }
                60u32 * ((g - b) as u32) / (d as u32)
            } else {
                proof {
                    lemma_scaled_fraction_bounded(60, (b - g) as int, d as int);
                }
                360u32 - 60u32 * ((b - g) as u32) / (d as u32)
            }
        } else if v == g {
            if b >= r {
                proof {
                    lemma_scaled_fraction_bounded(60, (b - r) as int, d as int);
                }
                120u32 + 60u32 * ((b - r) as u32) / (d as u32)
            } else {
                proof {
                    lemma_scaled_fraction_bounded(60, (r - b) as int, d as int);
                }
                120u32 - 60u32 * ((r - b) as u32) / (d as u32)
            }
        } else {
            if r >= g {
                proof {
                    lemma_scaled_fraction_bounded(60, (r - g) as int, d as int);
                }
                240u32 + 60u32 * ((r - g) as u32) / (d as u32)
            } else {
                proof {
                    lemma_scaled_fraction_bounded(60, (g - r) as int, d as int);
                }
                240u32 - 60u32 * ((g - r) as u32) / (d as u32)
            }
        };
        (hd / 2) as u8
    };

    Hsv { h, s, v }
}

/// For `0 < den` and `0 <= num <= den`, the scaled fraction
/// `scale * num / den` stays within `[0, scale]`.
proof fn lemma_scaled_fraction_bounded(scale: int, num: int, den: int)
    requires
        0 <= scale,
        0 <= num <= den,
        0 < den,
    ensures
        0 <= scale * num / den <= scale,
{
    assert(0 <= scale * num / den <= scale) by (nonlinear_arith)
        requires
            0 <= scale,
            0 <= num <= den,
            0 < den,
    ;
}

} // verus!
