use vstd::prelude::*;
use crate::ratio::{lemma_ratio_parts_bounded, lemma_self_quotient, nearest_whole, Ratio};

pub mod length;
pub mod time;

verus! {

/// The largest value a quantized unit can hold.
pub open spec fn saturate(n: int) -> int {
    if n <= usize::MAX {
        n
    } else {
        usize::MAX as int
    }
}

/// What a unit keeps when built from `value`: a quantized unit keeps the
/// nearest whole number, held between zero and `usize::MAX`; any other unit
/// keeps `value`.
pub open spec fn stored(quantized: bool, value: Ratio) -> Ratio {
    if quantized {
        let n = if value.neg {
            0
        } else {
            saturate(nearest_whole(value.num as int, value.den as int))
        };
        Ratio { neg: false, num: n as u128, den: 1 }
    } else {
        value
    }
}

/// A scalar tagged with a unit of measure.
pub trait Unit: Sized {
    /// The number of units this value stands for.
    spec fn amount(&self) -> Ratio;

    /// Whether the unit rounds its value to a whole number when built.
    spec fn quantized() -> bool;

    /// Builds the value `value`, rounded if the unit is quantized.
    fn new(value: Ratio) -> (r: Self)
        requires
            value.wf(),
        ensures
            r.amount() == stored(Self::quantized(), value),
    ;

    /// The number of units this value stands for.
    fn value(&self) -> (r: Ratio)
        ensures
            r == self.amount(),
            r.wf(),
    ;

    /// One unit.
    fn unit() -> (r: Self)
        ensures
            r.amount() == stored(Self::quantized(), Ratio { neg: false, num: 1, den: 1 }),
    {
        Self::new(Ratio::whole(1))
    }

    /// `self * k`, kept in the same unit.
    fn times(self, k: Ratio) -> (r: Self)
        requires
            k.wf(),
            self.amount().times_fits(k),
        ensures
            r.amount() == stored(Self::quantized(), self.amount().times_spec(k)),
    {
        let v = self.value();
        proof {
            assert(v.den * k.den > 0) by (nonlinear_arith)
                requires
                    v.den > 0,
                    k.den > 0,
            ;
        }
        Self::new(v.times(k))
    }

    /// `k * self`, kept in the unit of `self`.
    fn scalar_times(k: Ratio, u: Self) -> (r: Self)
        requires
            k.wf(),
            k.times_fits(u.amount()),
        ensures
            r.amount() == stored(Self::quantized(), k.times_spec(u.amount())),
    {
        let v = u.value();
        proof {
            assert(k.den * v.den > 0) by (nonlinear_arith)
                requires
                    v.den > 0,
                    k.den > 0,
            ;
        }
        Self::new(k.times(v))
    }

    /// `self / k`, kept in the same unit.
    fn divided_by(self, k: Ratio) -> (r: Self)
        requires
            k.num > 0,
            self.amount().over_fits(k),
        ensures
            r.amount() == stored(Self::quantized(), self.amount().over_spec(k)),
    {
        let v = self.value();
        proof {
            assert(v.den * k.num > 0) by (nonlinear_arith)
                requires
                    v.den > 0,
                    k.num > 0,
            ;
        }
        Self::new(v.over(k))
    }

    /// `k / self`, kept in the unit of `self`.
    fn scalar_over(k: Ratio, u: Self) -> (r: Self)
        requires
            k.wf(),
            u.amount().num > 0,
            k.over_fits(u.amount()),
        ensures
            r.amount() == stored(Self::quantized(), k.over_spec(u.amount())),
    {
        let v = u.value();
        proof {
            assert(k.den * v.num > 0) by (nonlinear_arith)
                requires
                    v.num > 0,
                    k.den > 0,
            ;
        }
        Self::new(k.over(v))
    }
}

/// A unit with a fixed number of its kind's base unit (the meter, the second)
/// to one unit.
pub trait Scaled: Unit {
    /// How many base units one unit is.
    spec fn base_factor() -> Ratio;

    /// The factor is positive and both of its parts fit in `u64`.
    proof fn lemma_base_factor_bounded()
        ensures
            !Self::base_factor().neg,
            0 < Self::base_factor().num <= u64::MAX,
            0 < Self::base_factor().den <= u64::MAX,
    ;

    /// How many base units one unit is.
    fn base_constant() -> (r: Ratio)
        ensures
            r == Self::base_factor(),
    ;
}

/// How many `B` make one `A`.
pub open spec fn ratio_between<A: Scaled, B: Scaled>() -> Ratio {
    A::base_factor().over_spec(B::base_factor())
}

/// How many `B` units equal one `A`, exactly.
pub(crate) fn factor_between<A: Scaled, B: Scaled>() -> (r: Ratio)
    ensures
        r == ratio_between::<A, B>(),
        0 < r.num <= u64::MAX * u64::MAX,
        0 < r.den <= u64::MAX * u64::MAX,
{
    proof {
        A::lemma_base_factor_bounded();
        B::lemma_base_factor_bounded();
    }
    let a = A::base_constant();
    let b = B::base_constant();
    proof {
        lemma_ratio_parts_bounded(a, b);
    }
    a.over(b)
}

/// How many `B` units equal one `A`, as a `B`.
pub(crate) fn to_between<A: Scaled, B: Scaled>() -> (r: B)
    ensures
        r.amount() == stored(B::quantized(), ratio_between::<A, B>()),
{
    B::new(factor_between::<A, B>())
}

/// The amount `u`, expressed in `B`.
pub(crate) fn convert_between<A: Scaled, B: Scaled>(u: A) -> (r: B)
    requires
        u.amount().times_fits(ratio_between::<A, B>()),
    ensures
        r.amount() == stored(B::quantized(), u.amount().times_spec(ratio_between::<A, B>())),
{
    let v = u.value();
    let k = factor_between::<A, B>();
    proof {
        assert(v.den * k.den > 0) by (nonlinear_arith)
            requires
                v.den > 0,
                k.den > 0,
        ;
    }
    B::new(v.times(k))
}

/// `u` times its base units per unit, divided by `per`, as a `T`.
pub(crate) fn in_base_per<U: Scaled, T: Scaled>(u: &U, per: Ratio) -> (r: T)
    requires
        0 < per.num <= 100_000_000,
        0 < per.den <= 100_000_000,
        u.amount().times_fits(U::base_factor().over_spec(per)),
    ensures
        r.amount() == stored(T::quantized(), u.amount().times_spec(U::base_factor().over_spec(per))),
{
    proof {
        U::lemma_base_factor_bounded();
    }
    let m = U::base_constant();
    proof {
        lemma_ratio_parts_bounded(m, per);
    }
    let k = m.over(per);
    let v = u.value();
    proof {
        assert(v.den * k.den > 0) by (nonlinear_arith)
            requires
                v.den > 0,
                k.den > 0,
        ;
    }
    T::new(v.times(k))
}

/// Converting a unit to itself gives exactly one unit.
pub proof fn lemma_to_self_is_identity<U: Scaled>()
    ensures
        stored(U::quantized(), ratio_between::<U, U>()).same(Ratio { neg: false, num: 1, den: 1 }),
{
    U::lemma_base_factor_bounded();
    let m = U::base_factor();
    lemma_ratio_parts_bounded(m, m);
    let x = m.num * m.den;
    assert(m.den * m.num == x) by (nonlinear_arith)
        requires
            x == m.num * m.den,
    ;
    lemma_self_quotient(x);
    assert((2 * x + x) / (2 * x) == 1) by {
        vstd::arithmetic::div_mod::lemma_fundamental_div_mod_converse(3 * x, 2 * x, 1, x);
    }
}

/// Converting an amount from `A` to `B` and back gives the same amount again,
/// where neither unit rounds.
pub proof fn lemma_round_trip<A: Scaled, B: Scaled>(v: Ratio)
    requires
        !A::quantized(),
        !B::quantized(),
        v.wf(),
        v.times_fits(ratio_between::<A, B>()),
        v.times_spec(ratio_between::<A, B>()).times_fits(ratio_between::<B, A>()),
    ensures
        stored(
            A::quantized(),
            stored(B::quantized(), v.times_spec(ratio_between::<A, B>())).times_spec(ratio_between::<B, A>()),
        ).same(v),
{
    A::lemma_base_factor_bounded();
    B::lemma_base_factor_bounded();
    let a = A::base_factor();
    let b = B::base_factor();
    lemma_ratio_parts_bounded(a, b);
    lemma_ratio_parts_bounded(b, a);
    let (an, ad, bn, bd, vn, vd) = (a.num as int, a.den as int, b.num as int, b.den as int, v.num as int, v.den as int);
    let w = v.times_spec(ratio_between::<A, B>());
    let z = w.times_spec(ratio_between::<B, A>());
    assert(w.num == vn * (an * bd) && w.den == vd * (ad * bn));
    assert(z.num == (vn * (an * bd)) * (bn * ad) && z.den == (vd * (ad * bn)) * (bd * an));
    assert(((vn * (an * bd)) * (bn * ad)) * vd == vn * ((vd * (ad * bn)) * (bd * an))) by (nonlinear_arith);
    assert(z.neg == v.neg);
    let (zn, zd) = (z.num as int, z.den as int);
    assert(z.signed_num() * vd == v.signed_num() * zd) by (nonlinear_arith)
        requires
            zn * vd == vn * zd,
            z.signed_num() == if v.neg { -zn } else { zn },
            v.signed_num() == if v.neg { -vn } else { vn },
    ;
}

/// Converting a non-negative amount from `A` to a rounding unit `B` and back
/// drifts from it by at most half a `B`, counted in `A`: with `z` the result
/// and `h` the number of `A` in one `B`, `|z - v| <= h / 2`.
pub proof fn lemma_round_trip_through_rounding<A: Scaled, B: Scaled>(v: Ratio)
    requires
        !A::quantized(),
        B::quantized(),
        !v.neg,
        v.wf(),
        v.times_fits(ratio_between::<A, B>()),
        nearest_whole(
            v.times_spec(ratio_between::<A, B>()).num as int,
            v.times_spec(ratio_between::<A, B>()).den as int,
        ) <= usize::MAX,
        stored(B::quantized(), v.times_spec(ratio_between::<A, B>())).times_fits(ratio_between::<B, A>()),
    ensures
        ({
            let z = stored(
                A::quantized(),
                stored(B::quantized(), v.times_spec(ratio_between::<A, B>())).times_spec(ratio_between::<B, A>()),
            );
            let h = ratio_between::<B, A>();
            &&& 2 * (z.num * v.den - v.num * z.den) * h.den <= h.num * z.den * v.den
            &&& 2 * (v.num * z.den - z.num * v.den) * h.den <= h.num * z.den * v.den
        }),
{
    A::lemma_base_factor_bounded();
    B::lemma_base_factor_bounded();
    let a = A::base_factor();
    let b = B::base_factor();
    lemma_ratio_parts_bounded(a, b);
    lemma_ratio_parts_bounded(b, a);
    let (an, ad, bn, bd, vn, vd) = (a.num as int, a.den as int, b.num as int, b.den as int, v.num as int, v.den as int);
    let w = v.times_spec(ratio_between::<A, B>());
    let (wn, wd) = (w.num as int, w.den as int);
    assert(wn == vn * (an * bd) && wd == vd * (ad * bn));
    assert(wd > 0) by (nonlinear_arith)
        requires
            wd == vd * (ad * bn),
            vd > 0,
            ad > 0,
            bn > 0,
    ;
    let n = nearest_whole(wn, wd);
    // the nearest whole number is within half of `w`
    vstd::arithmetic::div_mod::lemma_fundamental_div_mod(2 * wn + wd, 2 * wd);
    vstd::arithmetic::div_mod::lemma_mod_pos_bound(2 * wn + wd, 2 * wd);
    assert(2 * (n * wd - wn) <= wd && 2 * (wn - n * wd) <= wd) by (nonlinear_arith)
        requires
            2 * wn + wd == (2 * wd) * n + (2 * wn + wd) % (2 * wd),
            0 <= (2 * wn + wd) % (2 * wd) < 2 * wd,
    ;
    let h = ratio_between::<B, A>();
    let z = stored(B::quantized(), w).times_spec(h);
    assert(stored(B::quantized(), w).num == n);
    assert(h.num == bn * ad && h.den == bd * an);
    let (zn, zd) = (z.num as int, z.den as int);
    assert(zn == n * (bn * ad) && zd == bd * an);
    assert(zn * vd - vn * zd == n * wd - wn) by (nonlinear_arith)
        requires
            zn == n * (bn * ad),
            zd == bd * an,
            wn == vn * (an * bd),
            wd == vd * (ad * bn),
    ;
    assert(h.num * zd * vd == wd * zd) by (nonlinear_arith)
        requires
            h.num == bn * ad,
            wd == vd * (ad * bn),
    ;
    assert(zd > 0) by (nonlinear_arith)
        requires
            zd == bd * an,
            bd > 0,
            an > 0,
    ;
    assert(2 * (n * wd - wn) * zd <= wd * zd && 2 * (wn - n * wd) * zd <= wd * zd) by (nonlinear_arith)
        requires
            2 * (n * wd - wn) <= wd,
            2 * (wn - n * wd) <= wd,
            zd > 0,
    ;
}

} // verus!
