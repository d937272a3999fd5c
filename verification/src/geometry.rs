//! Screen geometry of the configuration sample.
use vstd::prelude::*;
use crate::units::{Millimeters, Pixels};

verus! {

/// Algorithms the sample configuration can select.
#[derive(Debug, Clone, Copy, PartialEq, Eq, Structural)]
pub enum Alg {
    Alg1,
    Alg2,
}

/// Sample geometry: two lengths, a selected algorithm and a derived value.
pub struct Geometry {
    pub x: Millimeters,
    pub y: Millimeters,
    pub alg: Alg,
    pub unset: Pixels,
}

impl Geometry {
    /// Derive `unset` as the sum of `x` and `y`.
    pub fn calculate(&mut self)
        requires
            old(self).x.0 + old(self).y.0 <= u32::MAX,
        ensures
            final(self).unset.0 == old(self).x.0 + old(self).y.0,
            final(self).x == old(self).x,
            final(self).y == old(self).y,
            final(self).alg == old(self).alg,
    {
        self.unset = Pixels((self.x.0 + self.y.0) as usize);
    }
}

} // verus!
