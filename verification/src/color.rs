//! Three-channel 8-bit color values with saturating arithmetic.
//!
//! Add, subtract and multiply clamp each channel to `[0, 255]` instead of
//! wrapping; divide and remainder are integer-truncating and demand nonzero
//! divisor channels; negation is the channel-wise inversion `255 - x`.

use vstd::prelude::*;

verus! {

use vstd::std_specs::ops::{AddSpec, SubSpec, MulSpec, DivSpec, RemSpec};

/// A color with red, green and blue channels, each in `[0, 255]`.
#[derive(Debug, Clone, Copy, PartialEq, Eq, Hash, Structural)]
pub struct Color {
    pub red: u8,
    pub green: u8,
    pub blue: u8,
}

/// Saturating channel addition: `x + y`, clamped to 255.
pub open spec fn sat_add(x: u8, y: u8) -> u8 {
    if x + y > 255 {
        255u8
    } else {
        (x + y) as u8
    }
}

/// Saturating channel subtraction: `x - y`, clamped to 0.
pub open spec fn sat_sub(x: u8, y: u8) -> u8 {
    if x < y {
        0u8
    } else {
        (x - y) as u8
    }
}

/// Saturating channel multiplication: `x * y`, clamped to 255.
pub open spec fn sat_mul(x: u8, y: u8) -> u8 {
    if x * y > 255 {
        255u8
    } else {
        (x * y) as u8
    }
}

impl Color {
    pub fn new(r: u8, g: u8, b: u8) -> (c: Color)
        ensures
            c.red == r,
            c.green == g,
            c.blue == b,
    {
        Color { red: r, green: g, blue: b }
    }

    pub fn black() -> (c: Color)
        ensures
            c == (Color { red: 0u8, green: 0u8, blue: 0u8 }),
    {
        Color { red: 0, green: 0, blue: 0 }
    }

    pub fn white() -> (c: Color)
        ensures
            c == (Color { red: 255u8, green: 255u8, blue: 255u8 }),
    {
        Color { red: 255, green: 255, blue: 255 }
    }

    pub fn red() -> (c: Color)
        ensures
            c == (Color { red: 255u8, green: 0u8, blue: 0u8 }),
    {
        Color { red: 255, green: 0, blue: 0 }
    }

    pub fn green() -> (c: Color)
        ensures
            c == (Color { red: 0u8, green: 255u8, blue: 0u8 }),
    {
        Color { red: 0, green: 255, blue: 0 }
    }

    pub fn blue() -> (c: Color)
        ensures
            c == (Color { red: 0u8, green: 0u8, blue: 255u8 }),
    {
        Color { red: 0, green: 0, blue: 255 }
    }

    pub fn r(&self) -> (v: u8)
        ensures
            v == self.red,
    {
        self.red
    }

    pub fn g(&self) -> (v: u8)
        ensures
            v == self.green,
    {
        self.green
    }

    pub fn b(&self) -> (v: u8)
        ensures
            v == self.blue,
    {
        self.blue
    }

    /// Overwrites the red channel.
    pub fn r_mut(&mut self, v: u8)
        ensures
            *final(self) == (Color { red: v, ..*old(self) }),
    {
        self.red = v;
    }

    /// Overwrites the green channel.
    pub fn g_mut(&mut self, v: u8)
        ensures
            *final(self) == (Color { green: v, ..*old(self) }),
    {
        self.green = v;
    }

    /// Overwrites the blue channel.
    pub fn b_mut(&mut self, v: u8)
        ensures
            *final(self) == (Color { blue: v, ..*old(self) }),
    {
        self.blue = v;
    }

    /// In-place channel-wise saturating addition.
    pub fn add_assign(&mut self, rhs: Color)
        ensures
            *final(self) == old(self).add_spec(rhs),
    {
        *self = *self + rhs;
    }

    /// In-place channel-wise saturating subtraction.
    pub fn sub_assign(&mut self, rhs: Color)
        ensures
            *final(self) == old(self).sub_spec(rhs),
    {
        *self = *self - rhs;
    }

    /// In-place channel-wise saturating multiplication.
    pub fn mul_assign(&mut self, rhs: Color)
        ensures
            *final(self) == old(self).mul_spec(rhs),
    {
        *self = *self * rhs;
    }

    /// In-place channel-wise division; every divisor channel must be nonzero.
    pub fn div_assign(&mut self, rhs: Color)
        requires
            rhs.red != 0,
            rhs.green != 0,
            rhs.blue != 0,
        ensures
            *final(self) == old(self).div_spec(rhs),
    {
        *self = *self / rhs;
    }

    /// In-place channel-wise remainder; every divisor channel must be nonzero.
    pub fn rem_assign(&mut self, rhs: Color)
        requires
            rhs.red != 0,
            rhs.green != 0,
            rhs.blue != 0,
        ensures
            *final(self) == old(self).rem_spec(rhs),
    {
        *self = *self % rhs;
    }

    /// In-place saturating addition of one scalar to every channel.
    pub fn add_assign_scalar(&mut self, rhs: u8)
        ensures
            *final(self) == AddSpec::<u8>::add_spec(*old(self), rhs),
    {
        *self = *self + rhs;
    }

    /// In-place saturating subtraction of one scalar from every channel.
    pub fn sub_assign_scalar(&mut self, rhs: u8)
        ensures
            *final(self) == SubSpec::<u8>::sub_spec(*old(self), rhs),
    {
        *self = *self - rhs;
    }

    /// In-place saturating multiplication of every channel by one scalar.
    pub fn mul_assign_scalar(&mut self, rhs: u8)
        ensures
            *final(self) == MulSpec::<u8>::mul_spec(*old(self), rhs),
    {
        *self = *self * rhs;
    }

    /// In-place division of every channel by one nonzero scalar.
    pub fn div_assign_scalar(&mut self, rhs: u8)
        requires
            rhs != 0,
        ensures
            *final(self) == DivSpec::<u8>::div_spec(*old(self), rhs),
    {
        *self = *self / rhs;
    }

    /// In-place remainder of every channel by one nonzero scalar.
    pub fn rem_assign_scalar(&mut self, rhs: u8)
        requires
            rhs != 0,
        ensures
            *final(self) == RemSpec::<u8>::rem_spec(*old(self), rhs),
    {
        *self = *self % rhs;
    }
}

impl core::ops::Add for Color {
    type Output = Color;

    /// Channel-wise saturating addition.
    fn add(self, rhs: Color) -> Color {
        Color {
            red: self.red.saturating_add(rhs.red),
            green: self.green.saturating_add(rhs.green),
            blue: self.blue.saturating_add(rhs.blue),
        }
    }
}

impl vstd::std_specs::ops::AddSpecImpl for Color {
    open spec fn obeys_add_spec() -> bool {
        true
    }

    open spec fn add_req(self, rhs: Color) -> bool {
        true
    }

    open spec fn add_spec(self, rhs: Color) -> Color {
        Color {
            red: sat_add(self.red, rhs.red),
            green: sat_add(self.green, rhs.green),
            blue: sat_add(self.blue, rhs.blue),
        }
    }
}

impl core::ops::Sub for Color {
    type Output = Color;

    /// Channel-wise saturating subtraction.
    fn sub(self, rhs: Color) -> Color {
        Color {
            red: self.red.saturating_sub(rhs.red),
            green: self.green.saturating_sub(rhs.green),
            blue: self.blue.saturating_sub(rhs.blue),
        }
    }
}

impl vstd::std_specs::ops::SubSpecImpl for Color {
    open spec fn obeys_sub_spec() -> bool {
        true
    }

    open spec fn sub_req(self, rhs: Color) -> bool {
        true
    }

    open spec fn sub_spec(self, rhs: Color) -> Color {
        Color {
            red: sat_sub(self.red, rhs.red),
            green: sat_sub(self.green, rhs.green),
            blue: sat_sub(self.blue, rhs.blue),
        }
    }
}

impl core::ops::Mul for Color {
    type Output = Color;

    /// Channel-wise saturating multiplication.
    fn mul(self, rhs: Color) -> Color {
        Color {
            red: mul_channel(self.red, rhs.red),
            green: mul_channel(self.green, rhs.green),
            blue: mul_channel(self.blue, rhs.blue),
        }
    }
}

impl vstd::std_specs::ops::MulSpecImpl for Color {
    open spec fn obeys_mul_spec() -> bool {
        true
    }

    open spec fn mul_req(self, rhs: Color) -> bool {
        true
    }

    open spec fn mul_spec(self, rhs: Color) -> Color {
        Color {
            red: sat_mul(self.red, rhs.red),
            green: sat_mul(self.green, rhs.green),
            blue: sat_mul(self.blue, rhs.blue),
        }
    }
}

impl core::ops::Div for Color {
    type Output = Color;

    /// Channel-wise truncating division; every divisor channel must be nonzero.
    fn div(self, rhs: Color) -> Color {
        Color {
            red: self.red / rhs.red,
            green: self.green / rhs.green,
            blue: self.blue / rhs.blue,
        }
    }
}

impl vstd::std_specs::ops::DivSpecImpl for Color {
    open spec fn obeys_div_spec() -> bool {
        true
    }

    open spec fn div_req(self, rhs: Color) -> bool {
        rhs.red != 0 && rhs.green != 0 && rhs.blue != 0
    }

    open spec fn div_spec(self, rhs: Color) -> Color {
        Color {
            red: (self.red / rhs.red) as u8,
            green: (self.green / rhs.green) as u8,
            blue: (self.blue / rhs.blue) as u8,
        }
    }
}

impl core::ops::Rem for Color {
    type Output = Color;

    /// Channel-wise remainder; every divisor channel must be nonzero.
    fn rem(self, rhs: Color) -> Color {
        Color {
            red: self.red % rhs.red,
            green: self.green % rhs.green,
            blue: self.blue % rhs.blue,
        }
    }
}

impl vstd::std_specs::ops::RemSpecImpl for Color {
    open spec fn obeys_rem_spec() -> bool {
        true
    }

    open spec fn rem_req(self, rhs: Color) -> bool {
        rhs.red != 0 && rhs.green != 0 && rhs.blue != 0
    }

    open spec fn rem_spec(self, rhs: Color) -> Color {
        Color {
            red: (self.red % rhs.red) as u8,
            green: (self.green % rhs.green) as u8,
            blue: (self.blue % rhs.blue) as u8,
        }
    }
}

impl core::ops::Neg for Color {
    type Output = Color;

    /// Channel-wise inversion: each channel becomes `255 - x`.
    fn neg(self) -> Color {
        Color {
            red: 255 - self.red,
            green: 255 - self.green,
            blue: 255 - self.blue,
        }
    }
}

impl vstd::std_specs::ops::NegSpecImpl for Color {
    open spec fn obeys_neg_spec() -> bool {
        true
    }

    open spec fn neg_req(self) -> bool {
        true
    }

    open spec fn neg_spec(self) -> Color {
        Color {
            red: (255 - self.red) as u8,
            green: (255 - self.green) as u8,
            blue: (255 - self.blue) as u8,
        }
    }
}

impl core::ops::Add<u8> for Color {
    type Output = Color;

    /// Saturating addition of one scalar to every channel.
    fn add(self, rhs: u8) -> Color {
        Color {
            red: self.red.saturating_add(rhs),
            green: self.green.saturating_add(rhs),
            blue: self.blue.saturating_add(rhs),
        }
    }
}

impl vstd::std_specs::ops::AddSpecImpl<u8> for Color {
    open spec fn obeys_add_spec() -> bool {
        true
    }

    open spec fn add_req(self, rhs: u8) -> bool {
        true
    }

    open spec fn add_spec(self, rhs: u8) -> Color {
        Color {
            red: sat_add(self.red, rhs),
            green: sat_add(self.green, rhs),
            blue: sat_add(self.blue, rhs),
        }
    }
}

impl core::ops::Sub<u8> for Color {
    type Output = Color;

    /// Saturating subtraction of one scalar from every channel.
    fn sub(self, rhs: u8) -> Color {
        Color {
            red: self.red.saturating_sub(rhs),
            green: self.green.saturating_sub(rhs),
            blue: self.blue.saturating_sub(rhs),
        }
    }
}

impl vstd::std_specs::ops::SubSpecImpl<u8> for Color {
    open spec fn obeys_sub_spec() -> bool {
        true
    }

    open spec fn sub_req(self, rhs: u8) -> bool {
        true
    }

    open spec fn sub_spec(self, rhs: u8) -> Color {
        Color {
            red: sat_sub(self.red, rhs),
            green: sat_sub(self.green, rhs),
            blue: sat_sub(self.blue, rhs),
        }
    }
}

impl core::ops::Mul<u8> for Color {
    type Output = Color;

    /// Saturating multiplication of every channel by one scalar.
    fn mul(self, rhs: u8) -> Color {
        Color {
            red: mul_channel(self.red, rhs),
            green: mul_channel(self.green, rhs),
            blue: mul_channel(self.blue, rhs),
        }
    }
}

impl vstd::std_specs::ops::MulSpecImpl<u8> for Color {
    open spec fn obeys_mul_spec() -> bool {
        true
    }

    open spec fn mul_req(self, rhs: u8) -> bool {
        true
    }

    open spec fn mul_spec(self, rhs: u8) -> Color {
        Color {
            red: sat_mul(self.red, rhs),
            green: sat_mul(self.green, rhs),
            blue: sat_mul(self.blue, rhs),
        }
    }
}

impl core::ops::Div<u8> for Color {
    type Output = Color;

    /// Truncating division of every channel by one nonzero scalar.
    fn div(self, rhs: u8) -> Color {
        Color {
            red: self.red / rhs,
            green: self.green / rhs,
            blue: self.blue / rhs,
        }
    }
}

impl vstd::std_specs::ops::DivSpecImpl<u8> for Color {
    open spec fn obeys_div_spec() -> bool {
        true
    }

    open spec fn div_req(self, rhs: u8) -> bool {
        rhs != 0
    }

    open spec fn div_spec(self, rhs: u8) -> Color {
        Color {
            red: (self.red / rhs) as u8,
            green: (self.green / rhs) as u8,
            blue: (self.blue / rhs) as u8,
        }
    }
}

impl core::ops::Rem<u8> for Color {
    type Output = Color;

    /// Remainder of every channel by one nonzero scalar.
    fn rem(self, rhs: u8) -> Color {
        Color {
            red: self.red % rhs,
            green: self.green % rhs,
            blue: self.blue % rhs,
        }
    }
}

impl vstd::std_specs::ops::RemSpecImpl<u8> for Color {
    open spec fn obeys_rem_spec() -> bool {
        true
    }

    open spec fn rem_req(self, rhs: u8) -> bool {
        rhs != 0
    }

    open spec fn rem_spec(self, rhs: u8) -> Color {
        Color {
            red: (self.red % rhs) as u8,
            green: (self.green % rhs) as u8,
            blue: (self.blue % rhs) as u8,
        }
    }
}

/// Saturating multiplication of two channels, through the checked product.
fn mul_channel(x: u8, y: u8) -> (r: u8)
    ensures
        r == sat_mul(x, y),
{
    match x.checked_mul(y) {
        Some(p) => p,
        None => 255,
    }
}

} // verus!
