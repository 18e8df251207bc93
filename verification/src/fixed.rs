//! Signed decimal fixed-point numbers.
//!
//! Every quantity the animation engine works with (positions, ratios,
//! durations, colour channels) is a [`Fixed`]: a 64-bit count of millionths.
//! Arithmetic never panics and never wraps. A result that does not fit is
//! pinned to the nearest representable value, and products and quotients are
//! rounded toward zero, so that a number and its negation round alike.
use vstd::prelude::*;

verus! {

/// Raw units in one whole.
pub const SCALE: i64 = 1_000_000;

/// The nearest value to `v` that fits in 64 signed bits.
pub open spec fn saturate(v: int) -> int {
    if v < i64::MIN as int {
        i64::MIN as int
    } else if v > i64::MAX as int {
        i64::MAX as int
    } else {
        v
    }
}

/// The quotient of `n` by `d`, rounded toward zero. Zero when `d` is zero.
pub open spec fn quotient_toward_zero(n: int, d: int) -> int {
    if d > 0 {
        if n >= 0 {
            n / d
        } else {
            -((-n) / d)
        }
    } else if d < 0 {
        if n >= 0 {
            -(n / (-d))
        } else {
            (-n) / (-d)
        }
    } else {
        0
    }
}

/// A number with six decimal places, held as a count of millionths.
#[derive(Clone, Copy, Debug, PartialEq, Eq, Structural, Hash)]
pub struct Fixed {
    /// The number, multiplied by [`SCALE`].
    pub raw: i64,
}

impl View for Fixed {
    type V = int;

    /// The count of millionths, as a mathematical integer.
    open spec fn view(&self) -> int {
        self.raw as int
    }
}

impl Fixed {
    /// The number whose count of millionths is `saturate(v)`.
    pub open spec fn saturated(v: int) -> Fixed {
        Fixed { raw: saturate(v) as i64 }
    }

    /// Zero.
    pub open spec fn zero_spec() -> Fixed {
        Fixed { raw: 0 }
    }

    /// One whole.
    pub open spec fn one_spec() -> Fixed {
        Fixed { raw: SCALE }
    }

    /// The sum, pinned to the representable range.
    pub open spec fn add_spec(self, rhs: Fixed) -> Fixed {
        Fixed::saturated(self@ + rhs@)
    }

    /// The difference, pinned to the representable range.
    pub open spec fn sub_spec(self, rhs: Fixed) -> Fixed {
        Fixed::saturated(self@ - rhs@)
    }

    /// The negation. That of the least number is the greatest.
    pub open spec fn neg_spec(self) -> Fixed {
        Fixed::saturated(-self@)
    }

    /// The magnitude. That of the least number is the greatest.
    pub open spec fn abs_spec(self) -> Fixed {
        if self@ < 0 {
            self.neg_spec()
        } else {
            self
        }
    }

    /// The product, rounded toward zero and pinned to the representable
    /// range.
    pub open spec fn mul_spec(self, rhs: Fixed) -> Fixed {
        Fixed::saturated(quotient_toward_zero(self@ * rhs@, SCALE as int))
    }

    /// The quotient, rounded toward zero and pinned to the representable
    /// range. A number over zero is the greatest number of its sign, and zero
    /// over zero is zero.
    pub open spec fn div_spec(self, rhs: Fixed) -> Fixed {
        if rhs@ == 0 {
            if self@ > 0 {
                Fixed { raw: i64::MAX }
            } else if self@ < 0 {
                Fixed { raw: i64::MIN }
            } else {
                Fixed { raw: 0 }
            }
        } else {
            Fixed::saturated(quotient_toward_zero(self@ * SCALE, rhs@))
        }
    }

    /// The number with the given count of millionths.
    pub fn from_raw(raw: i64) -> (r: Fixed)
        ensures
            r.raw == raw,
    {
        Fixed { raw }
    }

    /// Zero.
    #[verifier::when_used_as_spec(zero_spec)]
    pub fn zero() -> (r: Fixed)
        ensures
            r == Fixed::zero_spec(),
    {
        Fixed { raw: 0 }
    }

    /// One whole.
    #[verifier::when_used_as_spec(one_spec)]
    pub fn one() -> (r: Fixed)
        ensures
            r == Fixed::one_spec(),
    {
        Fixed { raw: SCALE }
    }

    /// The whole number `n`, pinned to the representable range.
    pub fn from_int(n: i64) -> (r: Fixed)
        ensures
            r == Fixed::saturated(n * SCALE),
    {
        let wide: i128 = (n as i128) * (SCALE as i128);
        Fixed::from_wide(wide)
    }

    /// The number with `v` millionths, pinned to the representable range.
    fn from_wide(v: i128) -> (r: Fixed)
        ensures
            r == Fixed::saturated(v as int),
    {
        if v > i64::MAX as i128 {
            Fixed { raw: i64::MAX }
        } else if v < i64::MIN as i128 {
            Fixed { raw: i64::MIN }
        } else {
            Fixed { raw: v as i64 }
        }
    }

    /// Saturating sum.
    #[verifier::when_used_as_spec(add_spec)]
    pub fn add(self, rhs: Fixed) -> (r: Fixed)
        ensures
            r == self.add_spec(rhs),
    {
        Fixed::from_wide(self.raw as i128 + rhs.raw as i128)
    }

    /// Saturating difference.
    #[verifier::when_used_as_spec(sub_spec)]
    pub fn sub(self, rhs: Fixed) -> (r: Fixed)
        ensures
            r == self.sub_spec(rhs),
    {
        Fixed::from_wide(self.raw as i128 - rhs.raw as i128)
    }

    /// Saturating negation.
    #[verifier::when_used_as_spec(neg_spec)]
    pub fn neg(self) -> (r: Fixed)
        ensures
            r == self.neg_spec(),
    {
        Fixed::from_wide(-(self.raw as i128))
    }

    /// Saturating magnitude.
    #[verifier::when_used_as_spec(abs_spec)]
    pub fn abs(self) -> (r: Fixed)
        ensures
            r == self.abs_spec(),
    {
        if self.raw < 0 {
            self.neg()
        } else {
            self
        }
    }

    /// Saturating product, rounded toward zero.
    #[verifier::when_used_as_spec(mul_spec)]
    pub fn mul(self, rhs: Fixed) -> (r: Fixed)
        ensures
            r == self.mul_spec(rhs),
    {
        let a: i128 = self.raw as i128;
        let b: i128 = rhs.raw as i128;
        proof {
            lemma_product_bound(a as int, b as int, 0x8000_0000_0000_0000, 0x8000_0000_0000_0000);
        }
        let product: i128 = a * b;
        Fixed::from_wide(product / (SCALE as i128))
    }

    /// Saturating quotient, rounded toward zero. Dividing by zero gives the
    /// greatest number of the sign of `self`, or zero for zero.
    #[verifier::when_used_as_spec(div_spec)]
    pub fn div(self, rhs: Fixed) -> (r: Fixed)
        ensures
            r == self.div_spec(rhs),
    {
        if rhs.raw == 0 {
            if self.raw > 0 {
                Fixed { raw: i64::MAX }
            } else if self.raw < 0 {
                Fixed { raw: i64::MIN }
            } else {
                Fixed { raw: 0 }
            }
        } else {
            let numerator: i128 = (self.raw as i128) * (SCALE as i128);
            let divisor: i128 = rhs.raw as i128;
            if divisor > 0 {
                Fixed::from_wide(numerator / divisor)
            } else {
                let positive: i128 = -divisor;
                Fixed::from_wide(-(numerator / positive))
            }
        }
    }
}

impl Fixed {
    /// Zero and one are neutral where they should be, and zero absorbs
    /// products and quotients.
    pub proof fn lemma_identities(x: Fixed)
        ensures
            x.add(Fixed::zero()) == x,
            Fixed::zero().add(x) == x,
            x.sub(Fixed::zero()) == x,
            x.sub(x) == Fixed::zero(),
            x.mul(Fixed::one()) == x,
            Fixed::one().mul(x) == x,
            x.mul(Fixed::zero()) == Fixed::zero(),
            Fixed::zero().mul(x) == Fixed::zero(),
            Fixed::zero().div(x) == Fixed::zero(),
    {
        lemma_quotient_basics(x@, SCALE as int);
        assert(x@ * SCALE == SCALE * x@) by (nonlinear_arith);
        assert(x@ * 0 == 0) by (nonlinear_arith);
        assert(0 * x@ == 0) by (nonlinear_arith);
        lemma_quotient_basics(0, SCALE as int);
        if x@ > 0 {
            lemma_quotient_basics(0, x@);
        } else if x@ < 0 {
            lemma_quotient_basics(0, -x@);
        }
    }

    /// Scaling by a factor that is not negative keeps the sign of what is
    /// scaled. A factor of at most one does not grow it, and a factor of at
    /// least one does not shrink it.
    pub proof fn lemma_scaling(factor: Fixed, x: Fixed)
        requires
            factor@ >= 0,
        ensures
            x@ >= 0 ==> factor.mul(x)@ >= 0,
            x@ <= 0 ==> factor.mul(x)@ <= 0,
            factor@ <= SCALE && x@ >= 0 ==> factor.mul(x)@ <= x@,
            factor@ <= SCALE && x@ <= 0 ==> factor.mul(x)@ >= x@,
            factor@ >= SCALE && x@ >= 0 ==> factor.mul(x)@ >= x@,
            factor@ >= SCALE && x@ <= 0 ==> factor.mul(x)@ <= x@,
            x.mul(factor) == factor.mul(x),
    {
        let product = factor@ * x@;
        let whole = SCALE * x@;
        assert(x@ * factor@ == product) by (nonlinear_arith)
            requires
                product == factor@ * x@,
        ;
        assert(x@ >= 0 ==> product >= 0) by (nonlinear_arith)
            requires
                factor@ >= 0,
                product == factor@ * x@,
        ;
        assert(x@ <= 0 ==> product <= 0) by (nonlinear_arith)
            requires
                factor@ >= 0,
                product == factor@ * x@,
        ;
        assert(factor@ <= SCALE && x@ >= 0 ==> product <= SCALE * x@) by (nonlinear_arith)
            requires
                product == factor@ * x@,
        ;
        assert(factor@ <= SCALE && x@ <= 0 ==> product >= SCALE * x@) by (nonlinear_arith)
            requires
                product == factor@ * x@,
        ;
        assert(factor@ >= SCALE && x@ >= 0 ==> product >= SCALE * x@) by (nonlinear_arith)
            requires
                product == factor@ * x@,
        ;
        assert(factor@ >= SCALE && x@ <= 0 ==> product <= SCALE * x@) by (nonlinear_arith)
            requires
                product == factor@ * x@,
        ;
        lemma_quotient_basics(product, SCALE as int);
        lemma_quotient_basics(x@, SCALE as int);
        assert(x@ * SCALE == whole) by (nonlinear_arith)
            requires
                whole == SCALE * x@,
        ;
        if product <= whole {
            lemma_quotient_monotone(product, whole, SCALE as int);
        }
        if product >= whole {
            lemma_quotient_monotone(whole, product, SCALE as int);
        }
    }

    /// Among numbers that are not negative, a product grows with each of its
    /// factors.
    pub proof fn lemma_product_monotone(a: Fixed, b: Fixed, upper_a: Fixed, upper_b: Fixed)
        requires
            0 <= a@ <= upper_a@,
            0 <= b@ <= upper_b@,
        ensures
            0 <= a.mul(b)@ <= upper_a.mul(upper_b)@,
    {
        let low = a@ * b@;
        let high = upper_a@ * upper_b@;
        assert(0 <= low <= high) by (nonlinear_arith)
            requires
                0 <= a@ <= upper_a@,
                0 <= b@ <= upper_b@,
                low == a@ * b@,
                high == upper_a@ * upper_b@,
        ;
        lemma_quotient_basics(low, SCALE as int);
        lemma_quotient_monotone(low, high, SCALE as int);
    }

    /// The ratio of two numbers of one sign is not negative. It is at most
    /// one where the numerator is no larger in magnitude than the divisor,
    /// and at least one where it is no smaller.
    pub proof fn lemma_ratio(n: Fixed, d: Fixed)
        requires
            d@ != 0,
            d@ > 0 ==> n@ >= 0,
            d@ < 0 ==> n@ <= 0,
        ensures
            n.div(d)@ >= 0,
            -d@ <= n@ <= d@ || d@ <= n@ <= -d@ ==> n.div(d)@ <= SCALE,
            n@ >= d@ > 0 || n@ <= d@ < 0 ==> n.div(d)@ >= SCALE,
            n@ == 0 ==> n.div(d)@ == 0,
    {
        let numerator = n@ * SCALE;
        let magnitude = if d@ > 0 { d@ } else { -d@ };
        let positive = if d@ > 0 { numerator } else { -numerator };
        let size = if d@ > 0 { n@ } else { -n@ };
        assert(positive == size * SCALE) by (nonlinear_arith)
            requires
                numerator == n@ * SCALE,
                positive == if d@ > 0 { numerator } else { -numerator },
                size == if d@ > 0 { n@ } else { -n@ },
        ;
        lemma_quotient_basics(numerator, magnitude);
        lemma_quotient_basics(positive, magnitude);
        assert(quotient_toward_zero(numerator, d@) == quotient_toward_zero(positive, magnitude));
        lemma_quotient_basics(SCALE as int, magnitude);
        let unit = SCALE * magnitude;
        assert(size <= magnitude ==> positive <= unit) by (nonlinear_arith)
            requires
                positive == size * SCALE,
                unit == SCALE * magnitude,
        ;
        assert(size >= magnitude ==> positive >= unit) by (nonlinear_arith)
            requires
                positive == size * SCALE,
                unit == SCALE * magnitude,
        ;
        assert(size >= 0 ==> positive >= 0) by (nonlinear_arith)
            requires
                positive == size * SCALE,
        ;
        assert(size == 0 ==> positive == 0) by (nonlinear_arith)
            requires
                positive == size * SCALE,
        ;
        if positive <= unit {
            lemma_quotient_monotone(positive, unit, magnitude);
        }
        if positive >= unit {
            lemma_quotient_monotone(unit, positive, magnitude);
        }
    }
}

/// Rounding toward zero keeps the sign of a quotient by a positive divisor,
/// never grows its magnitude, and is exact on multiples of the divisor.
pub proof fn lemma_quotient_basics(n: int, d: int)
    requires
        d > 0,
    ensures
        n >= 0 ==> 0 <= quotient_toward_zero(n, d) <= n,
        n <= 0 ==> n <= quotient_toward_zero(n, d) <= 0,
        quotient_toward_zero(-n, d) == -quotient_toward_zero(n, d),
        quotient_toward_zero(n, -d) == -quotient_toward_zero(n, d),
        quotient_toward_zero(n * d, d) == n,
{
    let m = if n >= 0 { n } else { -n };
    assert(0 <= m / d <= m) by (nonlinear_arith)
        requires
            m >= 0,
            d > 0,
    ;
    assert((m * d) / d == m) by (nonlinear_arith)
        requires
            m >= 0,
            d > 0,
    ;
    assert(n * d >= 0 <==> n >= 0) by (nonlinear_arith)
        requires
            d > 0,
    ;
    assert(-(n * d) == (-n) * d) by (nonlinear_arith);
    if n == 0 {
        assert(0int / d == 0) by (nonlinear_arith)
            requires
                d > 0,
        ;
    }
}

/// Rounding toward zero keeps the order of numerators over one positive
/// divisor.
pub proof fn lemma_quotient_monotone(n1: int, n2: int, d: int)
    requires
        d > 0,
        n1 <= n2,
    ensures
        quotient_toward_zero(n1, d) <= quotient_toward_zero(n2, d),
{
    lemma_quotient_basics(n1, d);
    lemma_quotient_basics(n2, d);
    if n1 >= 0 {
        assert(n1 / d <= n2 / d) by (nonlinear_arith)
            requires
                0 <= n1 <= n2,
                d > 0,
        ;
    } else if n2 < 0 {
        assert((-n2) / d <= (-n1) / d) by (nonlinear_arith)
            requires
                0 <= -n2 <= -n1,
                d > 0,
        ;
    }
}

/// The product of two bounded integers is bounded by the product of the bounds.
pub proof fn lemma_product_bound(a: int, b: int, bound_a: int, bound_b: int)
    by (nonlinear_arith)
    requires
        -bound_a <= a <= bound_a,
        -bound_b <= b <= bound_b,
    ensures
        -(bound_a * bound_b) <= a * b <= bound_a * bound_b,
{
}

} // verus!
