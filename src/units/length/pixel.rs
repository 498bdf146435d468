use vstd::prelude::*;
use crate::ratio::Ratio;
use crate::units::length::DistanceUnit;
use crate::units::{stored, Scaled, Unit};

verus! {

/// A screen pixel: a hundredth of an astronomical unit, always a whole number
/// and never negative.
#[derive(Clone, Copy, Debug, PartialEq, Eq, Structural)]
pub struct Pixel {
    value: usize,
}

impl Pixel {
    /// Pixels to one astronomical unit.
    pub const PER_ASTRO_UNIT: usize = 100;

    /// The whole number of pixels held.
    pub fn count(&self) -> (r: usize)
        ensures
            r as u128 == self.amount().num,
    {
        self.value
    }
}

impl Unit for Pixel {
    closed spec fn amount(&self) -> Ratio {
        Ratio { neg: false, num: self.value as u128, den: 1 }
    }

    open spec fn quantized() -> bool {
        true
    }

    fn new(value: Ratio) -> (r: Pixel) {
        if value.neg {
            return Pixel { value: 0 };
        }
        let n = value.round();
        if n <= usize::MAX as u128 {
            Pixel { value: n as usize }
        } else {
            Pixel { value: usize::MAX }
        }
    }

    fn value(&self) -> (r: Ratio) {
        Ratio::whole(self.value as u128)
    }
}

impl Scaled for Pixel {
    open spec fn base_factor() -> Ratio {
        Ratio { neg: false, num: 1_496_000_000, den: 1 }
    }

    proof fn lemma_base_factor_bounded() {
    }

    fn base_constant() -> (r: Ratio) {
        Ratio::whole(1_496_000_000)
    }
}

impl DistanceUnit for Pixel {}

} // verus!
