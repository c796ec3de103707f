//! The axial coordinate type for hexagonal grids, with exact integer
//! arithmetic, hex distance, and the cube rounding rule that snaps a
//! continuous coordinate pair to the nearest hexagon.

use vstd::prelude::*;

use crate::circle::CircleAroundHex;
use crate::fixed::{abs_int, round_away, round_err, round_away_i128, Fixed, ROUND_BOUND, SCALE};
use vstd::std_specs::ops::AddSpec;

verus! {

/// A hexagonal grid coordinate.  The third cube coordinate `s = -q - r` is
/// derived, never stored, so `q + r + s == 0` holds by construction.
#[derive(Debug, Clone, Copy, PartialEq, Eq, Structural)]
pub struct Axial {
    pub q: i32,
    pub r: i32,
}

/// Hex (cube) distance of `(q, r)` from the origin:
/// `(|q| + |q + r| + |r|) / 2`, always a non-negative integer.
pub open spec fn hex_len(q: int, r: int) -> int {
    (abs_int(q) + abs_int(q + r) + abs_int(r)) / 2
}

/// Hex distance between two axial coordinates.
pub open spec fn hex_dist(aq: int, ar: int, bq: int, br: int) -> int {
    hex_len(aq - bq, ar - br)
}

/// Truncating integer division (`b > 0`), as machine division computes it.
pub open spec fn div_trunc(a: int, b: int) -> int
    recommends
        b > 0,
{
    if a >= 0 {
        a / b
    } else {
        -(-a / b)
    }
}

/// Raw numerator of the interpolation `a * (1 - t) + b * t` where `a` and
/// `b` are integers and `t` is the fixed-point value `traw / SCALE`.
pub open spec fn lerp_raw(a: int, b: int, traw: int) -> int {
    a * (SCALE - traw) + b * traw
}

/// The interpolation parameter `point_on_line` uses: `dist` divided by the
/// hex distance between the two end points.
pub open spec fn point_on_line_t(p1: Axial, p2: Axial, dist: Fixed) -> int {
    div_trunc(dist.raw as int, hex_dist(p1.q as int, p1.r as int, p2.q as int, p2.r as int))
}

/// The exact fractional coordinate `point_on_line` rounds.
pub open spec fn point_on_line_frac(p1: Axial, p2: Axial, dist: Fixed) -> (int, int) {
    let t = point_on_line_t(p1, p2, dist);
    (lerp_raw(p1.q as int, p2.q as int, t), lerp_raw(p1.r as int, p2.r as int, t))
}

/// The cube rounding rule on a continuous coordinate pair given as the
/// numerators `nq / d` and `nr / d` over a common positive denominator `d`.
///
/// Each of `q`, `r` and the derived `s = -q - r` is rounded to the nearest
/// integer (ties away from zero).  The component with the strictly largest
/// rounding error is discarded and recomputed from the other two, restoring
/// `q + r + s == 0`; the tie-break order (`q` first, then `r`, else keep
/// both) is part of the contract.
pub open spec fn cube_round(nq: int, nr: int, d: int) -> (int, int)
    recommends
        d > 0,
{
    let q0 = round_away(nq, d);
    let r0 = round_away(nr, d);
    let s0 = round_away(-nq - nr, d);
    let dq = round_err(nq, d);
    let dr = round_err(nr, d);
    let ds = round_err(-nq - nr, d);
    if dq > dr && dq > ds {
        (-r0 - s0, r0)
    } else if dr > ds {
        (q0, -q0 - s0)
    } else {
        (q0, r0)
    }
}

impl Axial {
    pub fn new(q: i32, r: i32) -> (a: Axial)
        ensures
            a.q == q,
            a.r == r,
    {
        Axial { q, r }
    }

    /// Compute the third of the hexagonal cube coordinates.
    pub fn s(&self) -> (s: i32)
        requires
            i32::MIN <= -self.q - self.r <= i32::MAX,
        ensures
            s == -self.q - self.r,
            self.q + self.r + s == 0,
    {
        let v: i64 = -(self.q as i64) - (self.r as i64);
        v as i32
    }

    /// Hex distance from the origin.
    pub fn length(&self) -> (len: u32)
        requires
            hex_len(self.q as int, self.r as int) <= u32::MAX,
        ensures
            len == hex_len(self.q as int, self.r as int),
    {
        let q64: i64 = self.q as i64;
        let r64: i64 = self.r as i64;
        let aq: i64 = if q64 >= 0 {
            q64
        } else {
            -q64
        };
        let aqr: i64 = if q64 + r64 >= 0 {
            q64 + r64
        } else {
            -(q64 + r64)
        };
        let ar: i64 = if r64 >= 0 {
            r64
        } else {
            -r64
        };
        let sum: u64 = (aq + aqr + ar) as u64;
        (sum / 2) as u32
    }

    /// Hex distance to `other`.
    pub fn distance_to(&self, other: Self) -> (dist: u32)
        requires
            i32::MIN <= self.q - other.q <= i32::MAX,
            i32::MIN <= self.r - other.r <= i32::MAX,
            hex_dist(self.q as int, self.r as int, other.q as int, other.r as int) <= u32::MAX,
        ensures
            dist == hex_dist(self.q as int, self.r as int, other.q as int, other.r as int),
    {
        (*self - other).length()
    }

    /// The ring of hexes at exact hex distance `hex_radius` around `self`.
    pub fn circle(&self, hex_radius: u32) -> (c: CircleAroundHex)
        requires
            hex_radius <= i32::MAX,
            i32::MIN <= self.q - hex_radius,
            self.q + hex_radius <= i32::MAX,
            i32::MIN <= self.r - hex_radius,
            self.r + hex_radius <= i32::MAX,
        ensures
            c.wf(),
            c.center == *self,
            c.circle.hex_radius == hex_radius,
            c.circle.emitted() == 0,
    {
        CircleAroundHex::new(*self, hex_radius)
    }

    /// The six direct neighbours of `self`: the ring of radius one.
    pub fn neighbours(&self) -> (c: CircleAroundHex)
        requires
            i32::MIN + 1 <= self.q <= i32::MAX - 1,
            i32::MIN + 1 <= self.r <= i32::MAX - 1,
        ensures
            c.wf(),
            c.center == *self,
            c.circle.hex_radius == 1,
            c.circle.emitted() == 0,
    {
        self.circle(1)
    }

    pub fn to_tuple(&self) -> (t: (i32, i32))
        ensures
            t.0 == self.q,
            t.1 == self.r,
    {
        (self.q, self.r)
    }

    /// Scaling by a fractional factor leaves axial space: the result is a
    /// continuous coordinate pair, to be rounded explicitly if needed.
    pub fn mul_frac(&self, t: Fixed) -> (p: (Fixed, Fixed))
        requires
            i64::MIN <= self.q * t.raw <= i64::MAX,
            i64::MIN <= self.r * t.raw <= i64::MAX,
        ensures
            p.0.raw == self.q * t.raw,
            p.1.raw == self.r * t.raw,
    {
        (Fixed::from_raw((self.q as i64) * t.raw), Fixed::from_raw((self.r as i64) * t.raw))
    }

    /// The coordinate pair as exact fixed-point values.
    pub fn to_fracs(&self) -> (t: (Fixed, Fixed))
        ensures
            t.0.raw == self.q * SCALE,
            t.1.raw == self.r * SCALE,
    {
        (Fixed::from_int(self.q), Fixed::from_int(self.r))
    }

    /// Linear interpolation `self * (1 - t) + other * t` in continuous
    /// space; the result is a fractional coordinate pair, not an `Axial`.
    pub fn lerp(&self, other: Self, t: Fixed) -> (p: (Fixed, Fixed))
        requires
            i64::MIN + SCALE < t.raw,
            i64::MIN <= self.q * (SCALE - t.raw) <= i64::MAX,
            i64::MIN <= self.r * (SCALE - t.raw) <= i64::MAX,
            i64::MIN <= other.q * t.raw <= i64::MAX,
            i64::MIN <= other.r * t.raw <= i64::MAX,
            i64::MIN <= lerp_raw(self.q as int, other.q as int, t.raw as int) <= i64::MAX,
            i64::MIN <= lerp_raw(self.r as int, other.r as int, t.raw as int) <= i64::MAX,
        ensures
            p.0.raw == lerp_raw(self.q as int, other.q as int, t.raw as int),
            p.1.raw == lerp_raw(self.r as int, other.r as int, t.raw as int),
    {
        let u: i64 = SCALE - t.raw;
        let qraw: i64 = (self.q as i64) * u + (other.q as i64) * t.raw;
        let rraw: i64 = (self.r as i64) * u + (other.r as i64) * t.raw;
        (Fixed::from_raw(qraw), Fixed::from_raw(rraw))
    }

    /// The hexagon at hex distance `dist` along the segment from `p1` to
    /// `p2`: interpolate with `t = dist / distance(p1, p2)` and round.
    /// Coincident end points leave `t` undefined, so they are excluded.
    pub fn point_on_line(p1: Self, p2: Self, dist: Fixed) -> (a: Axial)
        requires
            p1 != p2,
            i32::MIN <= p1.q - p2.q <= i32::MAX,
            i32::MIN <= p1.r - p2.r <= i32::MAX,
            hex_dist(p1.q as int, p1.r as int, p2.q as int, p2.r as int) <= u32::MAX,
            i64::MIN + SCALE < point_on_line_t(p1, p2, dist),
            i64::MIN <= p1.q * (SCALE - point_on_line_t(p1, p2, dist)) <= i64::MAX,
            i64::MIN <= p1.r * (SCALE - point_on_line_t(p1, p2, dist)) <= i64::MAX,
            i64::MIN <= p2.q * point_on_line_t(p1, p2, dist) <= i64::MAX,
            i64::MIN <= p2.r * point_on_line_t(p1, p2, dist) <= i64::MAX,
            i64::MIN <= point_on_line_frac(p1, p2, dist).0 <= i64::MAX,
            i64::MIN <= point_on_line_frac(p1, p2, dist).1 <= i64::MAX,
            i32::MIN <= cube_round(
                point_on_line_frac(p1, p2, dist).0,
                point_on_line_frac(p1, p2, dist).1,
                SCALE as int,
            ).0 <= i32::MAX,
            i32::MIN <= cube_round(
                point_on_line_frac(p1, p2, dist).0,
                point_on_line_frac(p1, p2, dist).1,
                SCALE as int,
            ).1 <= i32::MAX,
        ensures
            (a.q as int, a.r as int) == cube_round(
                point_on_line_frac(p1, p2, dist).0,
                point_on_line_frac(p1, p2, dist).1,
                SCALE as int,
            ),
    {
        let len: u32 = p1.distance_to(p2);
        proof {
            lemma_hex_len_even((p1.q - p2.q) as int, (p1.r - p2.r) as int);
        }
        let t: Fixed = Fixed::from_raw(div_trunc_i64(dist.raw, len as i64));
        let (qf, rf) = p1.lerp(p2, t);
        Axial::from_frac(qf, rf)
    }

    /// Snap a continuous axial coordinate pair to the nearest hexagon by
    /// the cube rounding rule.
    pub fn from_frac(qf: Fixed, rf: Fixed) -> (a: Axial)
        requires
            i32::MIN <= cube_round(qf.raw as int, rf.raw as int, SCALE as int).0 <= i32::MAX,
            i32::MIN <= cube_round(qf.raw as int, rf.raw as int, SCALE as int).1 <= i32::MAX,
        ensures
            (a.q as int, a.r as int) == cube_round(qf.raw as int, rf.raw as int, SCALE as int),
    {
        cube_round_exec(qf.raw as i128, rf.raw as i128, SCALE as i128)
    }
}

impl Default for Axial {
    /// The origin hexagon.
    fn default() -> (a: Axial)
        ensures
            a.q == 0,
            a.r == 0,
    {
        Axial { q: 0, r: 0 }
    }
}

impl core::ops::Add for Axial {
    type Output = Axial;

    /// Component-wise sum of two axial coordinates.
    fn add(self, rhs: Axial) -> (result: Axial) {
        Axial { q: self.q + rhs.q, r: self.r + rhs.r }
    }
}

impl vstd::std_specs::ops::AddSpecImpl for Axial {
    open spec fn obeys_add_spec() -> bool {
        true
    }

    open spec fn add_req(self, rhs: Axial) -> bool {
        i32::MIN <= self.q + rhs.q <= i32::MAX && i32::MIN <= self.r + rhs.r <= i32::MAX
    }

    open spec fn add_spec(self, rhs: Axial) -> Axial {
        Axial { q: (self.q + rhs.q) as i32, r: (self.r + rhs.r) as i32 }
    }
}

impl core::ops::Sub for Axial {
    type Output = Axial;

    /// Component-wise difference of two axial coordinates.
    fn sub(self, rhs: Axial) -> (result: Axial) {
        Axial { q: self.q - rhs.q, r: self.r - rhs.r }
    }
}

impl vstd::std_specs::ops::SubSpecImpl for Axial {
    open spec fn obeys_sub_spec() -> bool {
        true
    }

    open spec fn sub_req(self, rhs: Axial) -> bool {
        i32::MIN <= self.q - rhs.q <= i32::MAX && i32::MIN <= self.r - rhs.r <= i32::MAX
    }

    open spec fn sub_spec(self, rhs: Axial) -> Axial {
        Axial { q: (self.q - rhs.q) as i32, r: (self.r - rhs.r) as i32 }
    }
}

impl core::ops::Mul<i32> for Axial {
    type Output = Axial;

    /// Component-wise scaling by an integer.
    fn mul(self, rhs: i32) -> (result: Axial) {
        Axial { q: self.q * rhs, r: self.r * rhs }
    }
}

impl vstd::std_specs::ops::MulSpecImpl<i32> for Axial {
    open spec fn obeys_mul_spec() -> bool {
        true
    }

    open spec fn mul_req(self, rhs: i32) -> bool {
        i32::MIN <= self.q * rhs <= i32::MAX && i32::MIN <= self.r * rhs <= i32::MAX
    }

    open spec fn mul_spec(self, rhs: i32) -> Axial {
        Axial { q: (self.q * rhs) as i32, r: (self.r * rhs) as i32 }
    }
}

impl From<(i32, i32)> for Axial {
    /// Wrap an integer coordinate pair.
    fn from(t: (i32, i32)) -> (a: Axial) {
        Axial { q: t.0, r: t.1 }
    }
}

impl vstd::std_specs::convert::FromSpecImpl<(i32, i32)> for Axial {
    open spec fn obeys_from_spec() -> bool {
        true
    }

    open spec fn from_spec(t: (i32, i32)) -> Axial {
        Axial { q: t.0, r: t.1 }
    }
}

/// The cube rounding rule on machine integers; `d` is the common positive
/// denominator of the two numerators.
pub fn cube_round_exec(nq: i128, nr: i128, d: i128) -> (a: Axial)
    requires
        0 < d < ROUND_BOUND,
        -ROUND_BOUND / 2 < nq < ROUND_BOUND / 2,
        -ROUND_BOUND / 2 < nr < ROUND_BOUND / 2,
        i32::MIN <= cube_round(nq as int, nr as int, d as int).0 <= i32::MAX,
        i32::MIN <= cube_round(nq as int, nr as int, d as int).1 <= i32::MAX,
    ensures
        (a.q as int, a.r as int) == cube_round(nq as int, nr as int, d as int),
{
    let ns: i128 = -nq - nr;
    proof {
        lemma_round_away_err_bound(nq as int, d as int);
        lemma_round_away_err_bound(nr as int, d as int);
        lemma_round_away_err_bound(ns as int, d as int);
    }
    let q0: i128 = round_away_i128(nq, d);
    let r0: i128 = round_away_i128(nr, d);
    let s0: i128 = round_away_i128(ns, d);
    let dq: i128 = abs_i128(q0 * d - nq);
    let dr: i128 = abs_i128(r0 * d - nr);
    let ds: i128 = abs_i128(s0 * d - ns);
    let (q_out, r_out): (i128, i128) = if dq > dr && dq > ds {
        (-r0 - s0, r0)
    } else if dr > ds {
        (q0, -q0 - s0)
    } else {
        (q0, r0)
    };
    Axial { q: q_out as i32, r: r_out as i32 }
}

/// Truncating division on machine integers (`b > 0`).
fn div_trunc_i64(a: i64, b: i64) -> (r: i64)
    requires
        b > 0,
    ensures
        r == div_trunc(a as int, b as int),
{
    if a >= 0 {
        let q: u64 = (a as u64) / (b as u64);
        proof {
            vstd::arithmetic::div_mod::lemma_div_nonincreasing(a as int, b as int);
            vstd::arithmetic::div_mod::lemma_div_pos_is_pos(a as int, b as int);
        }
        q as i64
    } else {
        let m: u64 = if a == i64::MIN {
            0x8000_0000_0000_0000u64
        } else {
            (-a) as u64
        };
        let q: u64 = m / (b as u64);
        proof {
            vstd::arithmetic::div_mod::lemma_div_nonincreasing(m as int, b as int);
            vstd::arithmetic::div_mod::lemma_div_pos_is_pos(m as int, b as int);
        }
        if q >= 0x8000_0000_0000_0000u64 {
            i64::MIN
        } else {
            -(q as i64)
        }
    }
}

/// Absolute value on machine integers.
fn abs_i128(x: i128) -> (r: i128)
    requires
        x > i128::MIN,
    ensures
        r == abs_int(x as int),
{
    if x >= 0 {
        x
    } else {
        -x
    }
}

/// The three absolute values in `hex_len` always sum to an even number, so
/// the halving in `hex_len` is exact.
pub proof fn lemma_hex_len_even(q: int, r: int)
    ensures
        2 * hex_len(q, r) == abs_int(q) + abs_int(q + r) + abs_int(r),
        hex_len(q, r) >= 0,
        (q != 0 || r != 0) ==> hex_len(q, r) >= 1,
{
    let s = abs_int(q) + abs_int(q + r) + abs_int(r);
    assert(s % 2 == 0);
    assert(s == 2 * (s / 2));
}

/// Law: the stored pair and the derived third cube coordinate sum to zero,
/// and adding a coordinate to its component-wise opposite gives the origin.
pub proof fn lemma_add_opposite(q: i32, r: i32)
    requires
        i32::MIN < q,
        i32::MIN < r,
    ensures
        q + r + (-(q as int) - (r as int)) == 0,
        (Axial { q, r }).add_spec(Axial { q: (-(q as int)) as i32, r: (-(r as int)) as i32 })
            == (Axial { q: 0i32, r: 0i32 }),
{
}

/// Law: the hex distance from any coordinate to itself is zero.
pub proof fn lemma_distance_self(q: int, r: int)
    ensures
        hex_dist(q, r, q, r) == 0,
{
}

/// Law: hex distance is symmetric.
pub proof fn lemma_distance_symmetric(aq: int, ar: int, bq: int, br: int)
    ensures
        hex_dist(aq, ar, bq, br) == hex_dist(bq, br, aq, ar),
{
}

/// Law: hex distance satisfies the triangle inequality.
pub proof fn lemma_distance_triangle(aq: int, ar: int, bq: int, br: int, cq: int, cr: int)
    ensures
        hex_dist(aq, ar, cq, cr) <= hex_dist(aq, ar, bq, br) + hex_dist(bq, br, cq, cr),
{
    lemma_hex_len_even(aq - bq, ar - br);
    lemma_hex_len_even(bq - cq, br - cr);
    lemma_hex_len_even(aq - cq, ar - cr);
}

/// The rounding error of `round_away` is at most half a denominator:
/// `2 * |round_away(n, d) * d - n| <= d`.
pub proof fn lemma_round_away_err_bound(n: int, d: int)
    requires
        d > 0,
    ensures
        2 * round_err(n, d) <= d,
        n - d <= round_away(n, d) * d <= n + d,
{
    if n >= 0 {
        vstd::arithmetic::div_mod::lemma_fundamental_div_mod(2 * n + d, 2 * d);
        let q0 = (2 * n + d) / (2 * d);
        let rem = (2 * n + d) % (2 * d);
        vstd::arithmetic::div_mod::lemma_mod_division_less_than_divisor(2 * n + d, 2 * d);
        assert(2 * n + d == 2 * d * q0 + rem);
        assert(2 * (q0 * d) == 2 * d * q0) by (nonlinear_arith);
        assert(2 * (q0 * d - n) == d - rem);
    } else {
        vstd::arithmetic::div_mod::lemma_fundamental_div_mod(2 * -n + d, 2 * d);
        let q0 = (2 * -n + d) / (2 * d);
        let rem = (2 * -n + d) % (2 * d);
        vstd::arithmetic::div_mod::lemma_mod_division_less_than_divisor(2 * -n + d, 2 * d);
        assert(2 * -n + d == 2 * d * q0 + rem);
        assert(2 * (q0 * d) == 2 * d * q0) by (nonlinear_arith);
        assert(2 * (-q0 * d - n) == rem - d) by {
            assert(-(q0 * d) == -q0 * d) by (nonlinear_arith);
        }
        assert(round_away(n, d) == -q0);
        assert(round_away(n, d) * d == -q0 * d) by (nonlinear_arith)
            requires
                round_away(n, d) == -q0,
        ;
    }
}

/// Rounding an exact integer multiple of the denominator returns exactly
/// that integer.
pub proof fn lemma_round_away_exact(v: int, d: int)
    requires
        d > 0,
    ensures
        round_away(v * d, d) == v,
        round_err(v * d, d) == 0,
{
    if v >= 0 {
        assert(v * d >= 0) by (nonlinear_arith)
            requires
                v >= 0 && d > 0,
        ;
        assert(2 * (v * d) + d == v * (2 * d) + d) by (nonlinear_arith);
        vstd::arithmetic::div_mod::lemma_fundamental_div_mod_converse(
            2 * (v * d) + d,
            2 * d,
            v,
            d,
        );
    } else {
        assert(v * d < 0) by (nonlinear_arith)
            requires
                v < 0 && d > 0,
        ;
        assert(2 * -(v * d) + d == (-v) * (2 * d) + d) by (nonlinear_arith);
        vstd::arithmetic::div_mod::lemma_fundamental_div_mod_converse(
            2 * -(v * d) + d,
            2 * d,
            -v,
            d,
        );
        assert(round_away(v * d, d) == -((2 * -(v * d) + d) / (2 * d)));
        assert(round_away(v * d, d) == v);
    }
    assert(round_away(v * d, d) * d == v * d) by (nonlinear_arith)
        requires
            round_away(v * d, d) == v,
    ;
}

/// The cube rounding rule is idempotent: a pair that is already an exact
/// integer coordinate rounds to itself.
pub proof fn lemma_cube_round_exact(q: int, r: int, d: int)
    requires
        d > 0,
    ensures
        cube_round(q * d, r * d, d) == (q, r),
{
    lemma_round_away_exact(q, d);
    lemma_round_away_exact(r, d);
    assert(-(q * d) - r * d == (-q - r) * d) by (nonlinear_arith);
    lemma_round_away_exact(-q - r, d);
}

/// Law: rounding a coordinate's own exact fractional representation gives
/// the coordinate back unchanged: by the contracts of `to_fracs` and
/// `from_frac`, `Axial::from_frac(a.to_fracs().0, a.to_fracs().1) == a`
/// for every `a`.
pub proof fn lemma_round_idempotent(a: Axial)
    ensures
        cube_round(a.q * SCALE, a.r * SCALE, SCALE as int) == (a.q as int, a.r as int),
{
    lemma_cube_round_exact(a.q as int, a.r as int, SCALE as int);
}

} // verus!
