use vstd::prelude::*;
use crate::ratio::Ratio;
use crate::units::{convert_between, factor_between, in_base_per, ratio_between, stored, to_between, Scaled, Unit};
use second::Second;

pub mod frame;
pub mod second;

verus! {

/// Seconds in a minute.
pub const SECONDS_PER_MINUTE: u128 = 60;
/// Seconds in an hour.
pub const SECONDS_PER_HOUR: u128 = 3600;
/// Seconds in a day.
pub const SECONDS_PER_DAY: u128 = 86400;
/// Seconds in a week.
pub const SECONDS_PER_WEEK: u128 = 604800;
/// Seconds in a month of four weeks.
pub const SECONDS_PER_MONTH: u128 = 2419200;
/// Seconds in a year of twelve such months.
pub const SECONDS_PER_YEAR: u128 = 29030400;

/// A unit of time: its base factor counts seconds. Conversions
/// take two units of this one kind only.
pub trait TemporalUnit: Scaled {
    /// How many seconds one unit is.
    fn second_constant() -> (r: Ratio)
        ensures
            r == Self::base_factor(),
    {
        Self::base_constant()
    }
}

/// How many `B` units equal one `A`, exactly.
pub fn factor<A: TemporalUnit, B: TemporalUnit>() -> (r: Ratio)
    ensures
        r == ratio_between::<A, B>(),
{
    factor_between::<A, B>()
}

/// How many `B` units equal one `A`, as a `B`.
pub fn to<A: TemporalUnit, B: TemporalUnit>() -> (r: B)
    ensures
        r.amount() == stored(B::quantized(), ratio_between::<A, B>()),
{
    to_between::<A, B>()
}

/// The amount `u`, expressed in `B`.
pub fn convert<A: TemporalUnit, B: TemporalUnit>(u: A) -> (r: B)
    requires
        u.amount().times_fits(ratio_between::<A, B>()),
    ensures
        r.amount() == stored(B::quantized(), u.amount().times_spec(ratio_between::<A, B>())),
{
    convert_between::<A, B>(u)
}

/// The value times seconds per unit, as seconds.
pub fn second<U: TemporalUnit>(u: U) -> (r: Second)
    requires
        u.amount().times_fits(U::base_factor().over_spec(Ratio { neg: false, num: 1, den: 1 })),
    ensures
        r.amount() == u.amount().times_spec(U::base_factor().over_spec(Ratio { neg: false, num: 1, den: 1 })),
{
    in_base_per::<U, Second>(&u, Ratio::whole(1))
}

/// The value times seconds per unit, over the seconds in a minute, as seconds.
pub fn minute<U: TemporalUnit>(u: U) -> (r: Second)
    requires
        u.amount().times_fits(U::base_factor().over_spec(Ratio { neg: false, num: SECONDS_PER_MINUTE, den: 1 })),
    ensures
        r.amount() == u.amount().times_spec(U::base_factor().over_spec(Ratio { neg: false, num: SECONDS_PER_MINUTE, den: 1 })),
{
    in_base_per::<U, Second>(&u, Ratio::whole(SECONDS_PER_MINUTE))
}

/// The value times seconds per unit, over the seconds in an hour, as seconds.
pub fn hour<U: TemporalUnit>(u: U) -> (r: Second)
    requires
        u.amount().times_fits(U::base_factor().over_spec(Ratio { neg: false, num: SECONDS_PER_HOUR, den: 1 })),
    ensures
        r.amount() == u.amount().times_spec(U::base_factor().over_spec(Ratio { neg: false, num: SECONDS_PER_HOUR, den: 1 })),
{
    in_base_per::<U, Second>(&u, Ratio::whole(SECONDS_PER_HOUR))
}

/// The value times seconds per unit, over the seconds in a day, as seconds.
pub fn day<U: TemporalUnit>(u: U) -> (r: Second)
    requires
        u.amount().times_fits(U::base_factor().over_spec(Ratio { neg: false, num: SECONDS_PER_DAY, den: 1 })),
    ensures
        r.amount() == u.amount().times_spec(U::base_factor().over_spec(Ratio { neg: false, num: SECONDS_PER_DAY, den: 1 })),
{
    in_base_per::<U, Second>(&u, Ratio::whole(SECONDS_PER_DAY))
}

/// The value times seconds per unit, over the seconds in a week, as seconds.
pub fn week<U: TemporalUnit>(u: U) -> (r: Second)
    requires
        u.amount().times_fits(U::base_factor().over_spec(Ratio { neg: false, num: SECONDS_PER_WEEK, den: 1 })),
    ensures
        r.amount() == u.amount().times_spec(U::base_factor().over_spec(Ratio { neg: false, num: SECONDS_PER_WEEK, den: 1 })),
{
    in_base_per::<U, Second>(&u, Ratio::whole(SECONDS_PER_WEEK))
}

/// The value times seconds per unit, over the seconds in a month of four weeks, as seconds.
pub fn month<U: TemporalUnit>(u: U) -> (r: Second)
    requires
        u.amount().times_fits(U::base_factor().over_spec(Ratio { neg: false, num: SECONDS_PER_MONTH, den: 1 })),
    ensures
        r.amount() == u.amount().times_spec(U::base_factor().over_spec(Ratio { neg: false, num: SECONDS_PER_MONTH, den: 1 })),
{
    in_base_per::<U, Second>(&u, Ratio::whole(SECONDS_PER_MONTH))
}

/// The value times seconds per unit, over the seconds in a year of twelve such months, as seconds.
pub fn year<U: TemporalUnit>(u: U) -> (r: Second)
    requires
        u.amount().times_fits(U::base_factor().over_spec(Ratio { neg: false, num: SECONDS_PER_YEAR, den: 1 })),
    ensures
        r.amount() == u.amount().times_spec(U::base_factor().over_spec(Ratio { neg: false, num: SECONDS_PER_YEAR, den: 1 })),
{
    in_base_per::<U, Second>(&u, Ratio::whole(SECONDS_PER_YEAR))
}

} // verus!
