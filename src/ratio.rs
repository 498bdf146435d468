use vstd::prelude::*;

verus! {

/// The whole number nearest to `num / den`, for natural `num` and positive
/// `den`, ties rounded up: the floor of `num / den + 1/2`. Applied to a
/// magnitude, this rounds ties away from zero.
pub open spec fn nearest_whole(num: int, den: int) -> int {
    (2 * num + den) / (2 * den)
}

/// A rational number: `num / den`, negated where `neg` is set. Two ratios are
/// `==` when they denote the same number, however they are written.
#[derive(Clone, Copy, Debug, Eq)]
pub struct Ratio {
    pub neg: bool,
    pub num: u128,
    pub den: u128,
}

impl Ratio {
    /// The denominator is positive.
    pub open spec fn wf(self) -> bool {
        self.den > 0
    }

    /// The numerator with its sign.
    pub open spec fn signed_num(self) -> int {
        if self.neg {
            -(self.num as int)
        } else {
            self.num as int
        }
    }

    /// `self` and `o` denote the same number.
    pub open spec fn same(self, o: Ratio) -> bool {
        self.signed_num() * o.den == o.signed_num() * self.den
    }

    /// The product of two ratios, factor by factor.
    pub open spec fn times_spec(self, o: Ratio) -> Ratio {
        Ratio { neg: self.neg != o.neg, num: (self.num * o.num) as u128, den: (self.den * o.den) as u128 }
    }

    /// The quotient of two ratios, as the product with the reciprocal of `o`.
    pub open spec fn over_spec(self, o: Ratio) -> Ratio {
        Ratio { neg: self.neg != o.neg, num: (self.num * o.den) as u128, den: (self.den * o.num) as u128 }
    }

    /// Both parts of the product fit in `u128`.
    pub open spec fn times_fits(self, o: Ratio) -> bool {
        self.num * o.num <= u128::MAX && self.den * o.den <= u128::MAX
    }

    /// Both parts of the quotient fit in `u128`.
    pub open spec fn over_fits(self, o: Ratio) -> bool {
        self.num * o.den <= u128::MAX && self.den * o.num <= u128::MAX
    }

    /// The whole number `n`.
    pub fn whole(n: u128) -> (r: Ratio)
        ensures
            r == (Ratio { neg: false, num: n, den: 1 }),
    {
        Ratio { neg: false, num: n, den: 1 }
    }

    /// The number `num / den`.
    pub fn new(num: u128, den: u128) -> (r: Ratio)
        requires
            den > 0,
        ensures
            r == (Ratio { neg: false, num, den }),
            r.wf(),
    {
        Ratio { neg: false, num, den }
    }

    /// The number `-(num / den)`.
    pub fn negative(num: u128, den: u128) -> (r: Ratio)
        requires
            den > 0,
        ensures
            r == (Ratio { neg: true, num, den }),
            r.wf(),
    {
        Ratio { neg: true, num, den }
    }

    /// `-self`.
    pub fn negate(self) -> (r: Ratio)
        ensures
            r == (Ratio { neg: !self.neg, ..self }),
    {
        Ratio { neg: !self.neg, num: self.num, den: self.den }
    }

    /// `self * o`.
    pub fn times(self, o: Ratio) -> (r: Ratio)
        requires
            self.times_fits(o),
        ensures
            r == self.times_spec(o),
    {
        Ratio { neg: self.neg != o.neg, num: self.num * o.num, den: self.den * o.den }
    }

    /// `self / o`.
    pub fn over(self, o: Ratio) -> (r: Ratio)
        requires
            self.over_fits(o),
        ensures
            r == self.over_spec(o),
    {
        Ratio { neg: self.neg != o.neg, num: self.num * o.den, den: self.den * o.num }
    }

    /// The whole number nearest to the magnitude `num / den`, ties rounded up.
    pub fn round(self) -> (r: u128)
        requires
            self.wf(),
        ensures
            r == nearest_whole(self.num as int, self.den as int),
    {
        let q = self.num / self.den;
        let rem = self.num % self.den;
        proof {
            lemma_nearest_whole_by_remainder(self.num as int, self.den as int);
        }
        if rem >= self.den - rem {
            proof {
                // a remainder this large is positive, so the divisor is at least two
                assert(q < u128::MAX) by (nonlinear_arith)
                    requires
                        q == self.num / self.den,
                        self.den >= 2,
                ;
            }
            q + 1
        } else {
            q
        }
    }
}

impl PartialEq for Ratio {
    fn eq(&self, o: &Ratio) -> (r: bool) {
        let same_magnitude = Ratio::same_magnitude(self, o);
        proof {
            let (x, y) = (self.num * o.den, o.num * self.den);
            lemma_product_zero(self.num as int, o.den as int);
            lemma_product_zero(o.num as int, self.den as int);
            assert(x >= 0 && y >= 0) by (nonlinear_arith)
                requires
                    x == self.num * o.den,
                    y == o.num * self.den,
                    self.num >= 0,
                    o.num >= 0,
                    self.den >= 0,
                    o.den >= 0,
            ;
            lemma_signed_product(*self, o.den as int);
            lemma_signed_product(*o, self.den as int);
        }
        same_magnitude && (self.neg == o.neg || self.num == 0 || o.den == 0)
    }
}

impl Ratio {
    /// Whether the magnitudes of `a` and `o` are the same number.
    fn same_magnitude(a: &Ratio, o: &Ratio) -> (r: bool)
        ensures
            r == (a.num * o.den == o.num * a.den),
    {
        if a.den == 0 || o.den == 0 {
            proof {
                lemma_product_zero(a.num as int, o.den as int);
                lemma_product_zero(o.num as int, a.den as int);
            }
            (a.den == 0 || o.num == 0) && (o.den == 0 || a.num == 0)
        } else {
            same_value(a.num, a.den, o.num, o.den)
        }
    }
}

impl vstd::std_specs::cmp::PartialEqSpecImpl for Ratio {
    open spec fn obeys_eq_spec() -> bool {
        true
    }

    open spec fn eq_spec(&self, o: &Ratio) -> bool {
        self.same(*o)
    }
}

/// Whether `a / b == c / d`, found by comparing whole parts and then the
/// reciprocals of what is left, so that no product is formed.
fn same_value(a: u128, b: u128, c: u128, d: u128) -> (r: bool)
    requires
        b > 0,
        d > 0,
    ensures
        r == (a * d == c * b),
    decreases b + d,
{
    let q1 = a / b;
    let r1 = a % b;
    let q2 = c / d;
    let r2 = c % d;
    proof {
        lemma_compare_by_parts(a as int, b as int, c as int, d as int);
    }
    if q1 != q2 {
        false
    } else if r1 == 0 || r2 == 0 {
        proof {
            lemma_product_zero(r1 as int, d as int);
            lemma_product_zero(r2 as int, b as int);
        }
        r1 == 0 && r2 == 0
    } else {
        let r = same_value(b, r1, d, r2);
        proof {
            assert(b * r2 == d * r1 <==> r1 * d == r2 * b) by (nonlinear_arith);
        }
        r
    }
}

/// The signed numerator times `k` is the magnitude's product, with its sign.
proof fn lemma_signed_product(a: Ratio, k: int)
    ensures
        a.signed_num() * k == if a.neg {
            -(a.num * k)
        } else {
            a.num * k
        },
{
    if a.neg {
        assert((-(a.num as int)) * k == -(a.num * k)) by (nonlinear_arith);
    }
}

/// A product of naturals is zero exactly when a factor is.
proof fn lemma_product_zero(x: int, y: int)
    requires
        x >= 0,
        y >= 0,
    ensures
        (x * y == 0) == (x == 0 || y == 0),
{
    if x > 0 && y > 0 {
        assert(x * y > 0) by (nonlinear_arith)
            requires
                x > 0,
                y > 0,
        ;
    }
}

/// `a / b` and `c / d` are equal only if their whole parts are, and then
/// exactly when the remainders over their divisors are.
proof fn lemma_compare_by_parts(a: int, b: int, c: int, d: int)
    requires
        a >= 0,
        b > 0,
        c >= 0,
        d > 0,
    ensures
        a * d == c * b ==> a / b == c / d,
        a / b == c / d ==> (a * d == c * b <==> (a % b) * d == (c % d) * b),
{
    let (q1, r1, q2, r2) = (a / b, a % b, c / d, c % d);
    vstd::arithmetic::div_mod::lemma_fundamental_div_mod(a, b);
    vstd::arithmetic::div_mod::lemma_fundamental_div_mod(c, d);
    vstd::arithmetic::div_mod::lemma_mod_pos_bound(a, b);
    vstd::arithmetic::div_mod::lemma_mod_pos_bound(c, d);
    assert(a * d == b * d * q1 + r1 * d) by (nonlinear_arith)
        requires
            a == b * q1 + r1,
    ;
    assert(c * b == b * d * q2 + r2 * b) by (nonlinear_arith)
        requires
            c == d * q2 + r2,
    ;
    assert(q1 >= 0 && q2 >= 0) by {
        vstd::arithmetic::div_mod::lemma_div_pos_is_pos(a, b);
        vstd::arithmetic::div_mod::lemma_div_pos_is_pos(c, d);
    }
    if q1 > q2 {
        assert(b * d * q1 >= b * d * q2 + b * d) by (nonlinear_arith)
            requires
                q1 >= q2 + 1,
                b > 0,
                d > 0,
        ;
        assert(r2 * b < d * b && r1 * d >= 0) by (nonlinear_arith)
            requires
                0 <= r2 < d,
                b > 0,
                r1 >= 0,
                d > 0,
        ;
        assert(b * d == d * b) by (nonlinear_arith);
    } else if q2 > q1 {
        assert(b * d * q2 >= b * d * q1 + b * d) by (nonlinear_arith)
            requires
                q2 >= q1 + 1,
                b > 0,
                d > 0,
        ;
        assert(r1 * d < b * d && r2 * b >= 0) by (nonlinear_arith)
            requires
                0 <= r1 < b,
                d > 0,
                r2 >= 0,
                b > 0,
        ;
    }
}

/// The nearest whole number is the whole part, plus one where the remainder
/// is at least half the divisor.
proof fn lemma_nearest_whole_by_remainder(num: int, den: int)
    requires
        num >= 0,
        den > 0,
    ensures
        nearest_whole(num, den) == if num % den >= den - num % den {
            num / den + 1
        } else {
            num / den
        },
{
    let (q, rem) = (num / den, num % den);
    vstd::arithmetic::div_mod::lemma_fundamental_div_mod(num, den);
    vstd::arithmetic::div_mod::lemma_mod_pos_bound(num, den);
    assert(2 * num + den == (2 * den) * q + (2 * rem + den)) by (nonlinear_arith)
        requires
            num == den * q + rem,
    ;
    if rem >= den - rem {
        assert(2 * num + den == (2 * den) * (q + 1) + (2 * rem - den)) by (nonlinear_arith)
            requires
                2 * num + den == (2 * den) * q + (2 * rem + den),
        ;
        vstd::arithmetic::div_mod::lemma_fundamental_div_mod_converse(2 * num + den, 2 * den, q + 1, 2 * rem - den);
    } else {
        vstd::arithmetic::div_mod::lemma_fundamental_div_mod_converse(2 * num + den, 2 * den, q, 2 * rem + den);
    }
}

/// Parts of a quotient of two factors bounded by `u64` fit in `u128`, and its
/// parts are positive.
pub proof fn lemma_ratio_parts_bounded(a: Ratio, b: Ratio)
    requires
        0 < a.num <= u64::MAX,
        0 < a.den <= u64::MAX,
        0 < b.num <= u64::MAX,
        0 < b.den <= u64::MAX,
    ensures
        a.over_fits(b),
        0 < a.num * b.den <= u64::MAX * u64::MAX,
        0 < a.den * b.num <= u64::MAX * u64::MAX,
{
    assert(0 < a.num * b.den <= u64::MAX * u64::MAX) by (nonlinear_arith)
        requires
            0 < a.num <= u64::MAX,
            0 < b.den <= u64::MAX,
    ;
    assert(0 < a.den * b.num <= u64::MAX * u64::MAX) by (nonlinear_arith)
        requires
            0 < a.den <= u64::MAX,
            0 < b.num <= u64::MAX,
    ;
}

/// `x / x` is one, with nothing left over, for positive `x`.
pub proof fn lemma_self_quotient(x: int)
    requires
        x > 0,
    ensures
        x / x == 1,
        x % x == 0,
{
    vstd::arithmetic::div_mod::lemma_div_basics(x);
    vstd::arithmetic::div_mod::lemma_mod_self_0(x);
}

} // verus!
