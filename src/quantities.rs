use vstd::prelude::*;
use crate::units::Unit;

verus! {

/// A quantity measured in one unit of measure.
pub trait Quantity {
    /// The unit every component is measured in.
    type UNIT: Unit;
}

/// A quantity that has a derivative, such as a position (whose derivative is
/// a velocity).
pub trait Deriveable {
    /// What is changed.
    type Manipulated;
    /// What changes in response.
    type Responding;
    /// The derivative, whose antiderivative is this quantity again.
    type Output: AntiDeriveable<Output = Self>;
}

/// A quantity that has an antiderivative, such as a velocity (whose
/// antiderivative is a position).
pub trait AntiDeriveable {
    /// What is changed.
    type Manipulated;
    /// What changes in response.
    type Responding;
    /// The antiderivative. That its derivative is this quantity again is
    /// bound on the side of `Deriveable`: the two traits cannot each name the
    /// other in a bound.
    type Output;
}

} // verus!
