//! Lengths in millimetres and pixels, with the arithmetic between them.
use vstd::prelude::*;

verus! {

/// A length in millimetres.
#[derive(Default, Debug, PartialEq, Eq, Structural, PartialOrd, Ord, Clone, Copy)]
pub struct Millimeters(pub u32);

/// A length in pixels.
#[derive(Default, Debug, PartialEq, Eq, Structural, PartialOrd, Ord, Clone, Copy)]
pub struct Pixels(pub usize);

impl core::ops::Add for Millimeters {
    type Output = Self;

    fn add(self, other: Self) -> (r: Self) {
        Millimeters(self.0 + other.0)
    }
}

impl vstd::std_specs::ops::AddSpecImpl for Millimeters {
    open spec fn obeys_add_spec() -> bool {
        true
    }

    open spec fn add_req(self, rhs: Self) -> bool {
        self.0 + rhs.0 <= u32::MAX
    }

    open spec fn add_spec(self, rhs: Self) -> Self {
        Millimeters((self.0 + rhs.0) as u32)
    }
}

impl core::ops::Sub for Millimeters {
    type Output = Self;

    fn sub(self, other: Self) -> (r: Self) {
        Millimeters(self.0 - other.0)
    }
}

impl vstd::std_specs::ops::SubSpecImpl for Millimeters {
    open spec fn obeys_sub_spec() -> bool {
        true
    }

    open spec fn sub_req(self, rhs: Self) -> bool {
        self.0 >= rhs.0
    }

    open spec fn sub_spec(self, rhs: Self) -> Self {
        Millimeters((self.0 - rhs.0) as u32)
    }
}

impl core::ops::Mul<u32> for Millimeters {
    type Output = Self;

    fn mul(self, rhs: u32) -> (r: Self) {
        Millimeters(self.0 * rhs)
    }
}

impl vstd::std_specs::ops::MulSpecImpl<u32> for Millimeters {
    open spec fn obeys_mul_spec() -> bool {
        true
    }

    open spec fn mul_req(self, rhs: u32) -> bool {
        self.0 * rhs <= u32::MAX
    }

    open spec fn mul_spec(self, rhs: u32) -> Self {
        Millimeters((self.0 * rhs) as u32)
    }
}

impl core::ops::Mul<Millimeters> for Millimeters {
    type Output = Self;

    fn mul(self, other: Millimeters) -> (r: Self) {
        Millimeters(self.0 * other.0)
    }
}

impl vstd::std_specs::ops::MulSpecImpl<Millimeters> for Millimeters {
    open spec fn obeys_mul_spec() -> bool {
        true
    }

    open spec fn mul_req(self, rhs: Millimeters) -> bool {
        self.0 * rhs.0 <= u32::MAX
    }

    open spec fn mul_spec(self, rhs: Millimeters) -> Self {
        Millimeters((self.0 * rhs.0) as u32)
    }
}

impl core::ops::Div<u32> for Millimeters {
    type Output = Self;

    fn div(self, rhs: u32) -> (r: Self) {
        Millimeters(self.0 / rhs)
    }
}

impl vstd::std_specs::ops::DivSpecImpl<u32> for Millimeters {
    open spec fn obeys_div_spec() -> bool {
        true
    }

    open spec fn div_req(self, rhs: u32) -> bool {
        rhs != 0
    }

    open spec fn div_spec(self, rhs: u32) -> Self {
        Millimeters(self.0 / rhs)
    }
}

impl core::ops::Div<Millimeters> for Millimeters {
    type Output = Self;

    fn div(self, other: Millimeters) -> (r: Self) {
        Millimeters(self.0 / other.0)
    }
}

impl vstd::std_specs::ops::DivSpecImpl<Millimeters> for Millimeters {
    open spec fn obeys_div_spec() -> bool {
        true
    }

    open spec fn div_req(self, rhs: Millimeters) -> bool {
        rhs.0 != 0
    }

    open spec fn div_spec(self, rhs: Millimeters) -> Self {
        Millimeters(self.0 / rhs.0)
    }
}

impl Millimeters {
    /// `self += other`.
    pub fn add_assign(&mut self, other: Self)
        requires
            old(self).0 + other.0 <= u32::MAX,
        ensures
            final(self).0 == old(self).0 + other.0,
    {
        self.0 = self.0 + other.0;
    }
}

impl core::ops::Add for Pixels {
    type Output = Self;

    fn add(self, other: Self) -> (r: Self) {
        Pixels(self.0 + other.0)
    }
}

impl vstd::std_specs::ops::AddSpecImpl for Pixels {
    open spec fn obeys_add_spec() -> bool {
        true
    }

    open spec fn add_req(self, rhs: Self) -> bool {
        self.0 + rhs.0 <= usize::MAX
    }

    open spec fn add_spec(self, rhs: Self) -> Self {
        Pixels((self.0 + rhs.0) as usize)
    }
}

impl core::ops::Sub for Pixels {
    type Output = Self;

    fn sub(self, other: Self) -> (r: Self) {
        Pixels(self.0 - other.0)
    }
}

impl vstd::std_specs::ops::SubSpecImpl for Pixels {
    open spec fn obeys_sub_spec() -> bool {
        true
    }

    open spec fn sub_req(self, rhs: Self) -> bool {
        self.0 >= rhs.0
    }

    open spec fn sub_spec(self, rhs: Self) -> Self {
        Pixels((self.0 - rhs.0) as usize)
    }
}

impl core::ops::Mul<usize> for Pixels {
    type Output = Self;

    fn mul(self, rhs: usize) -> (r: Self) {
        Pixels(self.0 * rhs)
    }
}

impl vstd::std_specs::ops::MulSpecImpl<usize> for Pixels {
    open spec fn obeys_mul_spec() -> bool {
        true
    }

    open spec fn mul_req(self, rhs: usize) -> bool {
        self.0 * rhs <= usize::MAX
    }

    open spec fn mul_spec(self, rhs: usize) -> Self {
        Pixels((self.0 * rhs) as usize)
    }
}

impl core::ops::Mul<Pixels> for Pixels {
    type Output = Self;

    fn mul(self, other: Pixels) -> (r: Self) {
        Pixels(self.0 * other.0)
    }
}

impl vstd::std_specs::ops::MulSpecImpl<Pixels> for Pixels {
    open spec fn obeys_mul_spec() -> bool {
        true
    }

    open spec fn mul_req(self, rhs: Pixels) -> bool {
        self.0 * rhs.0 <= usize::MAX
    }

    open spec fn mul_spec(self, rhs: Pixels) -> Self {
        Pixels((self.0 * rhs.0) as usize)
    }
}

impl core::ops::Div<usize> for Pixels {
    type Output = Self;

    fn div(self, rhs: usize) -> (r: Self) {
        Pixels(self.0 / rhs)
    }
}

impl vstd::std_specs::ops::DivSpecImpl<usize> for Pixels {
    open spec fn obeys_div_spec() -> bool {
        true
    }

    open spec fn div_req(self, rhs: usize) -> bool {
        rhs != 0
    }

    open spec fn div_spec(self, rhs: usize) -> Self {
        Pixels(self.0 / rhs)
    }
}

impl core::ops::Div<Pixels> for Pixels {
    type Output = Self;

    fn div(self, other: Pixels) -> (r: Self) {
        Pixels(self.0 / other.0)
    }
}

impl vstd::std_specs::ops::DivSpecImpl<Pixels> for Pixels {
    open spec fn obeys_div_spec() -> bool {
        true
    }

    open spec fn div_req(self, rhs: Pixels) -> bool {
        rhs.0 != 0
    }

    open spec fn div_spec(self, rhs: Pixels) -> Self {
        Pixels(self.0 / rhs.0)
    }
}

impl Pixels {
    /// `self += other`.
    pub fn add_assign(&mut self, other: Self)
        requires
            old(self).0 + other.0 <= usize::MAX,
        ensures
            final(self).0 == old(self).0 + other.0,
    {
        self.0 = self.0 + other.0;
    }
}

} // verus!
