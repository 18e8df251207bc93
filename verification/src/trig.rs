//! Sine and cosine on fixed-point angles measured in quarter turns.
//!
//! The easing curves only ever need the sine wave at multiples of a quarter
//! turn scaled by the progress, so angles are taken in quarter turns: `1` is a
//! right angle. The wave is folded onto its first eighth of a turn and
//! evaluated there by a short power series in billionths. The series is the
//! definition: the contracts below say exactly which integer comes out. That
//! it stays within a millionth of the true sine is measured by the test
//! suite, not proved.
use vstd::prelude::*;
use vstd::arithmetic::div_mod::lemma_add_mod_noop;
use crate::fixed::Fixed;

verus! {

/// An angle of `t` millionths of a quarter turn, in billionths of a radian.
pub open spec fn radians(t: int) -> int {
    t * 1_570_796_327 / 1_000_000
}

/// The square of an angle given in billionths of a radian, in billionths.
pub open spec fn squared(theta: int) -> int {
    theta * theta / 1_000_000_000
}

/// One factor of a nested power series: `1 - z * inner / k`, in billionths.
pub open spec fn series_step(z: int, inner: int, k: int) -> int {
    1_000_000_000 - z * inner / 1_000_000_000 / k
}

/// The sine series `x - x^3/3! + x^5/5! - x^7/7! + x^9/9!` of an angle of `t`
/// millionths of a quarter turn, in billionths.
pub open spec fn sine_series(t: int) -> int {
    let theta = radians(t);
    let z = squared(theta);
    theta * series_step(z, series_step(z, series_step(z, series_step(z, 1_000_000_000, 72), 42), 20), 6)
        / 1_000_000_000
}

/// The cosine series `1 - x^2/2! + x^4/4! - x^6/6! + x^8/8!` of an angle of `t`
/// millionths of a quarter turn, in billionths.
pub open spec fn cosine_series(t: int) -> int {
    let z = squared(radians(t));
    series_step(z, series_step(z, series_step(z, series_step(z, 1_000_000_000, 56), 30), 12), 2)
}

/// Billionths rounded to the nearest millionth.
pub open spec fn to_millionths(nanos: int) -> int {
    (nanos + 500) / 1000
}

/// The sine of `f` millionths of a quarter turn, for `f` within the first
/// quarter turn, in millionths. Past an eighth of a turn it is the cosine of
/// what is left to the right angle.
pub open spec fn rising_quarter(f: int) -> int {
    if f <= 500_000 {
        to_millionths(sine_series(f))
    } else {
        to_millionths(cosine_series(1_000_000 - f))
    }
}

/// The sine wave at a phase of `phase` millionths of a quarter turn, for a
/// phase within one turn.
pub open spec fn wave(phase: int) -> int {
    let quadrant = phase / 1_000_000;
    let f = phase % 1_000_000;
    if quadrant == 0 {
        rising_quarter(f)
    } else if quadrant == 1 {
        rising_quarter(1_000_000 - f)
    } else if quadrant == 2 {
        -rising_quarter(f)
    } else {
        -rising_quarter(1_000_000 - f)
    }
}

/// The sine of `x` quarter turns.
pub open spec fn sin_quarter_turns_spec(x: Fixed) -> Fixed {
    Fixed { raw: wave(x@ % 4_000_000) as i64 }
}

/// The cosine of `x` quarter turns: the sine a quarter turn further on.
pub open spec fn cos_quarter_turns_spec(x: Fixed) -> Fixed {
    Fixed { raw: wave((x@ + 1_000_000) % 4_000_000) as i64 }
}

/// Both series stay within one whole on the first eighth of a turn, and the
/// sine series within the angle itself.
pub proof fn lemma_series_bounds(t: int)
    requires
        0 <= t <= 500_000,
    ensures
        0 <= radians(t) <= 785_398_164,
        0 <= squared(radians(t)) <= 616_850_277,
        0 <= sine_series(t) <= radians(t),
        0 <= cosine_series(t) <= 1_000_000_000,
{
    let theta = radians(t);
    let z = squared(theta);
    assert(0 <= theta * theta <= 785_398_164 * 785_398_164) by (nonlinear_arith)
        requires
            0 <= theta <= 785_398_164,
    ;
    let s4 = series_step(z, 1_000_000_000, 72);
    lemma_step_bounds(z, 1_000_000_000, 72);
    let s3 = series_step(z, s4, 42);
    lemma_step_bounds(z, s4, 42);
    let s2 = series_step(z, s3, 20);
    lemma_step_bounds(z, s3, 20);
    let s1 = series_step(z, s2, 6);
    lemma_step_bounds(z, s2, 6);
    assert(0 <= theta * s1 <= theta * 1_000_000_000) by (nonlinear_arith)
        requires
            0 <= theta,
            0 <= s1 <= 1_000_000_000,
    ;
    let c4 = series_step(z, 1_000_000_000, 56);
    lemma_step_bounds(z, 1_000_000_000, 56);
    let c3 = series_step(z, c4, 30);
    lemma_step_bounds(z, c4, 30);
    let c2 = series_step(z, c3, 12);
    lemma_step_bounds(z, c3, 12);
    lemma_step_bounds(z, c2, 2);
}

/// A series factor built from parts within one whole is within one whole.
pub proof fn lemma_step_bounds(z: int, inner: int, k: int)
    requires
        0 <= z <= 1_000_000_000,
        0 <= inner <= 1_000_000_000,
        k == 2 || k == 6 || k == 12 || k == 20 || k == 30 || k == 42 || k == 56 || k == 72,
    ensures
        0 <= z * inner <= 1_000_000_000 * 1_000_000_000,
        0 <= series_step(z, inner, k) <= 1_000_000_000,
{
    assert(0 <= z * inner <= 1_000_000_000 * 1_000_000_000) by (nonlinear_arith)
        requires
            0 <= z <= 1_000_000_000,
            0 <= inner <= 1_000_000_000,
    ;
    let scaled = z * inner / 1_000_000_000;
    assert(0 <= scaled / k <= scaled) by (nonlinear_arith)
        requires
            0 <= scaled,
            k >= 1,
    ;
}

/// With a zero angle a series factor is one whole.
pub proof fn lemma_step_at_zero(inner: int, k: int)
    requires
        k >= 1,
    ensures
        series_step(0, inner, k) == 1_000_000_000,
{
    assert(0 * inner == 0) by (nonlinear_arith);
    assert(0int / k == 0) by (nonlinear_arith)
        requires
            k >= 1,
    ;
}

/// The rising quarter of the wave runs from zero to one and stays between.
pub proof fn lemma_rising_quarter_bounds(f: int)
    requires
        0 <= f <= 1_000_000,
    ensures
        0 <= rising_quarter(f) <= 1_000_000,
        rising_quarter(0) == 0,
        rising_quarter(1_000_000) == 1_000_000,
{
    if f <= 500_000 {
        lemma_series_bounds(f);
    } else {
        lemma_series_bounds(1_000_000 - f);
    }
    lemma_series_bounds(0);
    assert(squared(0) == 0) by (nonlinear_arith);
    assert(0 * series_step(0, series_step(0, series_step(0, series_step(0, 1_000_000_000, 72), 42), 20), 6) == 0)
        by (nonlinear_arith);
    lemma_step_at_zero(1_000_000_000, 56);
    lemma_step_at_zero(1_000_000_000, 30);
    lemma_step_at_zero(1_000_000_000, 12);
    lemma_step_at_zero(1_000_000_000, 2);
}

/// The wave never leaves the band between minus one and one.
pub proof fn lemma_wave_bounds(phase: int)
    requires
        0 <= phase < 4_000_000,
    ensures
        -1_000_000 <= wave(phase) <= 1_000_000,
{
    let f = phase % 1_000_000;
    lemma_rising_quarter_bounds(f);
    lemma_rising_quarter_bounds(1_000_000 - f);
}

/// One factor of a nested power series, in billionths.
fn step(z: u64, inner: u64, k: u64) -> (r: u64)
    requires
        z <= 1_000_000_000,
        inner <= 1_000_000_000,
        k == 2 || k == 6 || k == 12 || k == 20 || k == 30 || k == 42 || k == 56 || k == 72,
    ensures
        r == series_step(z as int, inner as int, k as int),
        r <= 1_000_000_000,
{
    proof {
        lemma_step_bounds(z as int, inner as int, k as int);
    }
    1_000_000_000 - z * inner / 1_000_000_000 / k
}

/// The angle of `t` millionths of a quarter turn and its square.
fn angle(t: u64) -> (r: (u64, u64))
    requires
        t <= 500_000,
    ensures
        r.0 == radians(t as int),
        r.1 == squared(radians(t as int)),
        r.0 <= 785_398_164,
        r.1 <= 616_850_277,
{
    proof {
        lemma_series_bounds(t as int);
    }
    let theta: u64 = t * 1_570_796_327 / 1_000_000;
    assert(theta * theta <= 785_398_164 * 785_398_164) by (nonlinear_arith)
        requires
            theta <= 785_398_164,
    ;
    let z: u64 = theta * theta / 1_000_000_000;
    (theta, z)
}

/// The sine of the first quarter turn, in millionths.
fn rising(f: u64) -> (r: u64)
    requires
        f <= 1_000_000,
    ensures
        r == rising_quarter(f as int),
        r <= 1_000_000,
{
    proof {
        lemma_rising_quarter_bounds(f as int);
    }
    if f <= 500_000 {
        let (theta, z) = angle(f);
        let s4: u64 = step(z, 1_000_000_000, 72);
        let s3: u64 = step(z, s4, 42);
        let s2: u64 = step(z, s3, 20);
        let s1: u64 = step(z, s2, 6);
        assert(theta * s1 <= 785_398_164 * 1_000_000_000) by (nonlinear_arith)
            requires
                theta <= 785_398_164,
                s1 <= 1_000_000_000,
        ;
        (theta * s1 / 1_000_000_000 + 500) / 1000
    } else {
        let (theta, z) = angle(1_000_000 - f);
        let c4: u64 = step(z, 1_000_000_000, 56);
        let c3: u64 = step(z, c4, 30);
        let c2: u64 = step(z, c3, 12);
        let c1: u64 = step(z, c2, 2);
        (c1 + 500) / 1000
    }
}

/// The sine wave at a phase within one turn.
fn wave_at(phase: u64) -> (r: Fixed)
    requires
        phase < 4_000_000,
    ensures
        r@ == wave(phase as int),
{
    let quadrant: u64 = phase / 1_000_000;
    let f: u64 = phase % 1_000_000;
    if quadrant == 0 {
        Fixed { raw: rising(f) as i64 }
    } else if quadrant == 1 {
        Fixed { raw: rising(1_000_000 - f) as i64 }
    } else if quadrant == 2 {
        Fixed { raw: -(rising(f) as i64) }
    } else {
        Fixed { raw: -(rising(1_000_000 - f) as i64) }
    }
}

/// The phase of an angle of `raw` millionths of a quarter turn: what is left
/// of it after whole turns are taken away, counted upward from zero.
fn phase_of(raw: i64) -> (phase: u64)
    ensures
        phase == raw as int % 4_000_000,
        phase < 4_000_000,
{
    if raw >= 0 {
        (raw as u64) % 4_000_000
    } else {
        let magnitude: u64 = ((-(raw as i128)) as u64) % 4_000_000;
        if magnitude == 0 {
            0
        } else {
            4_000_000 - magnitude
        }
    }
}

/// The sine of `x` quarter turns, that is of `x · π/2` radians.
pub fn sin_quarter_turns(x: Fixed) -> (r: Fixed)
    ensures
        r == sin_quarter_turns_spec(x),
{
    let phase: u64 = phase_of(x.raw);
    proof {
        lemma_wave_bounds(phase as int);
    }
    wave_at(phase)
}

/// The cosine of `x` quarter turns, that is of `x · π/2` radians.
pub fn cos_quarter_turns(x: Fixed) -> (r: Fixed)
    ensures
        r == cos_quarter_turns_spec(x),
{
    let base: u64 = phase_of(x.raw);
    let phase: u64 = (base + 1_000_000) % 4_000_000;
    proof {
        lemma_add_mod_noop(x@, 1_000_000, 4_000_000);
        lemma_wave_bounds(phase as int);
    }
    wave_at(phase)
}

} // verus!
