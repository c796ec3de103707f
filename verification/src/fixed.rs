//! Binary fixed-point numbers used as exact continuous coordinates.
//!
//! A [`Fixed`] carries the value `raw / SCALE` with `SCALE = 2^32`.  Pixel
//! and fractional axial coordinates are held in this form so that the
//! coordinate transforms and the cube rounding rule are exact integer
//! computations.

use vstd::prelude::*;

verus! {

/// Denominator of the fixed-point representation: `2^32`.
pub const SCALE: i64 = 0x1_0000_0000;

/// A continuous coordinate, stored as the integer `raw` and carrying the
/// value `raw / SCALE`.
#[derive(Clone, Copy, Debug, PartialEq, Eq, Structural)]
pub struct Fixed {
    pub raw: i64,
}

impl Fixed {
    /// Wrap a raw numerator; the value is `raw / SCALE`.
    pub fn from_raw(raw: i64) -> (r: Fixed)
        ensures
            r.raw == raw,
    {
        Fixed { raw }
    }

    /// The fixed-point number with integer value `i`.
    pub fn from_int(i: i32) -> (r: Fixed)
        ensures
            r.raw == i * SCALE,
    {
        Fixed { raw: (i as i64) * SCALE }
    }
}

/// `n / d` rounded to the nearest integer, ties away from zero (`d > 0`).
pub open spec fn round_away(n: int, d: int) -> int
    recommends
        d > 0,
{
    if n >= 0 {
        (2 * n + d) / (2 * d)
    } else {
        -((2 * -n + d) / (2 * d))
    }
}

/// Distance from `n / d` to its nearest integer `round_away(n, d)`, scaled
/// by the denominator: `|round_away(n, d) * d - n|`.
pub open spec fn round_err(n: int, d: int) -> int
    recommends
        d > 0,
{
    abs_int(round_away(n, d) * d - n)
}

/// Absolute value of a mathematical integer.
pub open spec fn abs_int(n: int) -> int {
    if n >= 0 {
        n
    } else {
        -n
    }
}

/// A numerator within half a denominator of an exact multiple rounds to
/// that multiple, and the rounding error is the distance itself.
pub proof fn lemma_round_away_near(v: int, d: int, e: int)
    requires
        d > 0,
        2 * abs_int(e) < d,
    ensures
        round_away(v * d + e, d) == v,
        round_err(v * d + e, d) == abs_int(e),
{
    let n = v * d + e;
    if n >= 0 {
        assert(2 * n + d == v * (2 * d) + (2 * e + d)) by (nonlinear_arith)
            requires
                n == v * d + e,
        ;
        vstd::arithmetic::div_mod::lemma_fundamental_div_mod_converse(
            2 * n + d,
            2 * d,
            v,
            2 * e + d,
        );
        assert(round_away(n, d) == v);
    } else {
        assert(2 * -n + d == (-v) * (2 * d) + (d - 2 * e)) by (nonlinear_arith)
            requires
                n == v * d + e,
        ;
        vstd::arithmetic::div_mod::lemma_fundamental_div_mod_converse(
            2 * -n + d,
            2 * d,
            -v,
            d - 2 * e,
        );
        assert(round_away(n, d) == -((2 * -n + d) / (2 * d)));
        assert(round_away(n, d) == v);
    }
    assert(round_away(n, d) * d == v * d) by (nonlinear_arith)
        requires
            round_away(n, d) == v,
    ;
}

/// Magnitude bound on the numerators and denominators the rounding
/// primitive accepts: `2^125`, wide enough for every raw product a
/// transform can form and small enough that `2 * n + d` stays exact.
pub const ROUND_BOUND: i128 = 0x2000_0000_0000_0000_0000_0000_0000_0000;

/// `round_away` computed on machine integers.  Wide intermediates keep the
/// arithmetic exact for every numerator a transform can produce.
pub fn round_away_i128(n: i128, d: i128) -> (r: i128)
    requires
        0 < d < ROUND_BOUND,
        -ROUND_BOUND < n < ROUND_BOUND,
    ensures
        r == round_away(n as int, d as int),
{
    if n >= 0 {
        let num: u128 = 2 * (n as u128) + (d as u128);
        let q: u128 = num / (2 * (d as u128));
        proof {
            vstd::arithmetic::div_mod::lemma_div_is_ordered_by_denominator(
                num as int,
                2,
                2 * (d as int),
            );
        }
        q as i128
    } else {
        let m: u128 = (-n) as u128;
        let num: u128 = 2 * m + (d as u128);
        let q: u128 = num / (2 * (d as u128));
        proof {
            vstd::arithmetic::div_mod::lemma_div_is_ordered_by_denominator(
                num as int,
                2,
                2 * (d as int),
            );
        }
        -(q as i128)
    }
}

/// Round toward negative infinity when halving a raw numerator.
pub fn floor_div2(x: i64) -> (r: i64)
    ensures
        r == (x as int) / 2,
{
    if x >= 0 {
        x / 2
    } else {
        let m: i64 = -(x + 1);
        assert(m >= 0);
        let h: i64 = m / 2;
        assert(-h - 1 == (x as int) / 2) by {
            let xi = x as int;
            assert(m == -xi - 1);
            assert(h == (-xi - 1) / 2);
            assert(xi == -((-xi - 1) + 1));
            assert((-xi - 1) == 2 * h + ((-xi - 1) % 2));
        }
        -h - 1
    }
}

} // verus!
