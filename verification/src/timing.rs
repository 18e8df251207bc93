//! Easing curves: how linear progress is bent into displayed progress.
use vstd::prelude::*;
use crate::fixed::{lemma_quotient_basics, Fixed};
use crate::trig::{
    cos_quarter_turns, cos_quarter_turns_spec, lemma_rising_quarter_bounds, lemma_wave_bounds,
    sin_quarter_turns, sin_quarter_turns_spec, wave,
};

verus! {

/// The shape of a transition over time.
///
/// A curve maps linear progress, where `0` is the start and `1` the end, to the
/// progress that is shown. Curves do not clamp: progress outside that range is
/// carried through the same formula.
#[derive(Clone, Copy, Debug, PartialEq, Eq, Structural, Hash)]
pub enum Timing {
    /// Progress is shown as it is.
    Linear,
    /// Slow start along a quarter of a cosine wave: `1 - cos(x·π/2)`.
    EaseIn,
    /// Slow finish along a quarter of a sine wave: `sin(x·π/2)`.
    EaseOut,
    /// Slow start and finish along half a cosine wave: `-(cos(π·x) - 1) / 2`.
    EaseInOut,
    /// Slow start: `x^5`.
    EaseInQuint,
    /// Slow finish: `1 - (1 - x)^5`.
    EaseOutQuint,
    /// Slow start and finish: `16·x^5` below one half, `1 - (2 - 2·x)^5 / 2`
    /// from there on.
    EaseInOutQuint,
    /// Reserved for a curve supplied by the caller; shaped like `Linear`.
    Custom,
}

impl Default for Timing {
    fn default() -> (r: Timing)
        ensures
            r == Timing::Linear,
    {
        Timing::Linear
    }
}

/// The fifth power of `x`, multiplied out from the left.
pub open spec fn pow5_spec(x: Fixed) -> Fixed {
    x.mul(x).mul(x).mul(x).mul(x)
}

/// The fifth power of `x`, multiplied out from the left.
pub fn pow5(x: Fixed) -> (r: Fixed)
    ensures
        r == pow5_spec(x),
{
    x.mul(x).mul(x).mul(x).mul(x)
}

impl Timing {
    /// The displayed progress for linear progress `x`.
    pub open spec fn timing_spec(self, x: Fixed) -> Fixed {
        match self {
            Timing::Linear => x,
            Timing::EaseIn => Fixed::one().sub(cos_quarter_turns_spec(x)),
            Timing::EaseOut => sin_quarter_turns_spec(x),
            Timing::EaseInOut => Fixed::one().sub(cos_quarter_turns_spec(x.add(x))).div(
                Fixed { raw: 2_000_000 },
            ),
            Timing::EaseInQuint => pow5_spec(x),
            Timing::EaseOutQuint => Fixed::one().sub(pow5_spec(Fixed::one().sub(x))),
            Timing::EaseInOutQuint => if x@ < 500_000 {
                Fixed { raw: 16_000_000 }.mul(x).mul(x).mul(x).mul(x).mul(x)
            } else {
                Fixed::one().sub(
                    pow5_spec(Fixed { raw: -2_000_000i64 }.mul(x).add(Fixed { raw: 2_000_000 })).div(
                        Fixed { raw: 2_000_000 },
                    ),
                )
            },
            Timing::Custom => x,
        }
    }

    /// Bends linear progress `linear_progress` into displayed progress.
    pub fn timing(self, linear_progress: Fixed) -> (eased: Fixed)
        ensures
            eased == self.timing_spec(linear_progress),
    {
        let x = linear_progress;
        let one = Fixed::one();
        let two = Fixed::from_raw(2_000_000);
        match self {
            Timing::Linear => x,
            Timing::EaseIn => one.sub(cos_quarter_turns(x)),
            Timing::EaseOut => sin_quarter_turns(x),
            Timing::EaseInOut => one.sub(cos_quarter_turns(x.add(x))).div(two),
            Timing::EaseInQuint => pow5(x),
            Timing::EaseOutQuint => one.sub(pow5(one.sub(x))),
            Timing::EaseInOutQuint => {
                if x.raw < 500_000 {
                    Fixed::from_raw(16_000_000).mul(x).mul(x).mul(x).mul(x).mul(x)
                } else {
                    one.sub(pow5(Fixed::from_raw(-2_000_000).mul(x).add(two)).div(two))
                }
            },
            Timing::Custom => x,
        }
    }
}

/// Every curve starts at zero: no progress is shown as no progress.
pub proof fn lemma_timing_starts_at_zero(curve: Timing)
    ensures
        curve.timing_spec(Fixed::zero()) == Fixed::zero(),
{
    let zero = Fixed::zero();
    Fixed::lemma_identities(zero);
    lemma_rising_quarter_bounds(0);
    Fixed::lemma_identities(Fixed { raw: 16_000_000 });
    Fixed::lemma_identities(Fixed { raw: 2_000_000 });
    Fixed::lemma_identities(Fixed::one());
    assert(pow5_spec(zero) == zero);
    assert(pow5_spec(Fixed::one()) == Fixed::one());
    assert(wave(0) == 0);
    assert(wave(1_000_000) == 1_000_000);
}

/// Every curve ends at one: full progress is shown as full progress.
pub proof fn lemma_timing_ends_at_one(curve: Timing)
    ensures
        curve.timing_spec(Fixed::one()) == Fixed::one(),
{
    let zero = Fixed::zero();
    let one = Fixed::one();
    let two = Fixed { raw: 2_000_000 };
    Fixed::lemma_identities(zero);
    Fixed::lemma_identities(one);
    Fixed::lemma_identities(two);
    Fixed::lemma_identities(Fixed { raw: -2_000_000i64 });
    lemma_rising_quarter_bounds(0);
    assert(pow5_spec(zero) == zero);
    assert(pow5_spec(one) == one);
    assert(wave(1_000_000) == 1_000_000);
    assert(wave(2_000_000) == 0);
    assert(wave(3_000_000) == -1_000_000);
    Fixed::lemma_ratio(two, two);
    assert(two.div(two) == one) by {
        lemma_quotient_basics(1_000_000, 2_000_000);
    }
}

/// The fifth power of a number between zero and one lies between zero and
/// one.
pub proof fn lemma_pow5_stays_in_unit(x: Fixed)
    requires
        0 <= x@ <= 1_000_000,
    ensures
        0 <= pow5_spec(x)@ <= 1_000_000,
{
    let x2 = x.mul(x);
    Fixed::lemma_scaling(x, x);
    let x3 = x2.mul(x);
    Fixed::lemma_scaling(x2, x);
    let x4 = x3.mul(x);
    Fixed::lemma_scaling(x3, x);
    Fixed::lemma_scaling(x4, x);
}

/// Every curve keeps progress within bounds: linear progress between zero
/// and one is shown as progress between zero and one.
pub proof fn lemma_timing_stays_in_unit(curve: Timing, x: Fixed)
    requires
        0 <= x@ <= 1_000_000,
    ensures
        0 <= curve.timing_spec(x)@ <= 1_000_000,
{
    let one = Fixed::one();
    let two = Fixed { raw: 2_000_000 };
    let half = Fixed { raw: 500_000 };
    match curve {
        Timing::Linear => {},
        Timing::Custom => {},
        Timing::EaseIn => {
            lemma_rising_quarter_bounds(1_000_000 - x@);
        },
        Timing::EaseOut => {
            lemma_rising_quarter_bounds(x@);
        },
        Timing::EaseInOut => {
            let doubled = x.add(x);
            lemma_wave_bounds((doubled@ + 1_000_000) % 4_000_000);
            Fixed::lemma_ratio(one.sub(cos_quarter_turns_spec(doubled)), two);
        },
        Timing::EaseInQuint => {
            lemma_pow5_stays_in_unit(x);
        },
        Timing::EaseOutQuint => {
            lemma_pow5_stays_in_unit(one.sub(x));
        },
        Timing::EaseInOutQuint => {
            if x@ < 500_000 {
                let t1 = Fixed { raw: 16_000_000 }.mul(x);
                Fixed::lemma_product_monotone(Fixed { raw: 16_000_000 }, x, Fixed { raw: 16_000_000 }, half);
                assert(Fixed { raw: 16_000_000 }.mul(half)@ == 8_000_000) by {
                    lemma_quotient_basics(8_000_000, 1_000_000);
                }
                let t2 = t1.mul(x);
                Fixed::lemma_product_monotone(t1, x, Fixed { raw: 8_000_000 }, half);
                assert(Fixed { raw: 8_000_000 }.mul(half)@ == 4_000_000) by {
                    lemma_quotient_basics(4_000_000, 1_000_000);
                }
                let t3 = t2.mul(x);
                Fixed::lemma_product_monotone(t2, x, Fixed { raw: 4_000_000 }, half);
                assert(Fixed { raw: 4_000_000 }.mul(half)@ == 2_000_000) by {
                    lemma_quotient_basics(2_000_000, 1_000_000);
                }
                let t4 = t3.mul(x);
                Fixed::lemma_product_monotone(t3, x, Fixed { raw: 2_000_000 }, half);
                assert(Fixed { raw: 2_000_000 }.mul(half)@ == 1_000_000) by {
                    lemma_quotient_basics(1_000_000, 1_000_000);
                }
                Fixed::lemma_scaling(x, t4);
            } else {
                let doubled = Fixed { raw: -2_000_000i64 }.mul(x);
                assert(doubled@ == -2 * x@) by {
                    lemma_quotient_basics(2 * x@, 1_000_000);
                    assert(-2_000_000 * x@ == -((2 * x@) * 1_000_000)) by (nonlinear_arith);
                }
                let rest = doubled.add(two);
                lemma_pow5_stays_in_unit(rest);
                Fixed::lemma_ratio(pow5_spec(rest), two);
                let halved = pow5_spec(rest).div(two);
                assert(halved@ <= 1_000_000);
            }
        },
    }
}

} // verus!
