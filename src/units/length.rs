use vstd::prelude::*;
use crate::ratio::Ratio;
use crate::units::{convert_between, factor_between, in_base_per, ratio_between, stored, to_between, Scaled, Unit};
use meter::Meter;

pub mod astrounit;
pub mod meter;
pub mod pixel;

verus! {

/// A unit of length: its base factor counts meters. Conversions
/// take two units of this one kind only.
pub trait DistanceUnit: Scaled {
    /// How many meters one unit is.
    fn meter_constant() -> (r: Ratio)
        ensures
            r == Self::base_factor(),
    {
        Self::base_constant()
    }
}

/// How many `B` units equal one `A`, exactly.
pub fn factor<A: DistanceUnit, B: DistanceUnit>() -> (r: Ratio)
    ensures
        r == ratio_between::<A, B>(),
{
    factor_between::<A, B>()
}

/// How many `B` units equal one `A`, as a `B`.
pub fn to<A: DistanceUnit, B: DistanceUnit>() -> (r: B)
    ensures
        r.amount() == stored(B::quantized(), ratio_between::<A, B>()),
{
    to_between::<A, B>()
}

/// The amount `u`, expressed in `B`.
pub fn convert<A: DistanceUnit, B: DistanceUnit>(u: A) -> (r: B)
    requires
        u.amount().times_fits(ratio_between::<A, B>()),
    ensures
        r.amount() == stored(B::quantized(), u.amount().times_spec(ratio_between::<A, B>())),
{
    convert_between::<A, B>(u)
}

/// The value times meters per unit, over the meters in a kilometer, as meters.
pub fn kilometer<U: DistanceUnit>(u: U) -> (r: Meter)
    requires
        u.amount().times_fits(U::base_factor().over_spec(Ratio { neg: false, num: 1000, den: 1 })),
    ensures
        r.amount() == u.amount().times_spec(U::base_factor().over_spec(Ratio { neg: false, num: 1000, den: 1 })),
{
    in_base_per::<U, Meter>(&u, Ratio::whole(1000))
}

/// The value times meters per unit, as meters.
pub fn meter<U: DistanceUnit>(u: U) -> (r: Meter)
    requires
        u.amount().times_fits(U::base_factor().over_spec(Ratio { neg: false, num: 1, den: 1 })),
    ensures
        r.amount() == u.amount().times_spec(U::base_factor().over_spec(Ratio { neg: false, num: 1, den: 1 })),
{
    in_base_per::<U, Meter>(&u, Ratio::whole(1))
}

/// The value times meters per unit, over the meters in a centimeter, as meters.
pub fn centimeter<U: DistanceUnit>(u: U) -> (r: Meter)
    requires
        u.amount().times_fits(U::base_factor().over_spec(Ratio { neg: false, num: 1, den: 100 })),
    ensures
        r.amount() == u.amount().times_spec(U::base_factor().over_spec(Ratio { neg: false, num: 1, den: 100 })),
{
    in_base_per::<U, Meter>(&u, Ratio::new(1, 100))
}

/// The value times meters per unit, over the meters in a millimeter, as meters.
pub fn millimeter<U: DistanceUnit>(u: U) -> (r: Meter)
    requires
        u.amount().times_fits(U::base_factor().over_spec(Ratio { neg: false, num: 1, den: 1000 })),
    ensures
        r.amount() == u.amount().times_spec(U::base_factor().over_spec(Ratio { neg: false, num: 1, den: 1000 })),
{
    in_base_per::<U, Meter>(&u, Ratio::new(1, 1000))
}

} // verus!
