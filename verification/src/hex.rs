//! The spacing-only grid transform: a linear map between axial coordinates
//! and continuous pixel space, parameterized by the hexagon orientation and
//! the pixel distance between adjacent hex centers along each axis.

use vstd::prelude::*;

use crate::axial::{cube_round, Axial};
use crate::fixed::{abs_int, lemma_round_away_near, Fixed, ROUND_BOUND};
use crate::fixed::floor_div2;
use crate::axial::cube_round_exec;
use crate::HexTop;

verus! {

/// Raw pixel center of hexagon `(q, r)` on a flat-top grid:
/// `x = q * hs`, `y = (q / 2 + r) * vs`, with the halving taken as a floor
/// on the raw numerator.
pub open spec fn xy_flat_raw(q: int, r: int, hs: int, vs: int) -> (int, int) {
    (q * hs, (q * vs) / 2 + r * vs)
}

/// Raw pixel center of hexagon `(q, r)` on a pointy-top grid:
/// `x = (q + r / 2) * hs`, `y = r * vs`, with the halving taken as a floor
/// on the raw numerator.
pub open spec fn xy_pointy_raw(q: int, r: int, hs: int, vs: int) -> (int, int) {
    (q * hs + (r * hs) / 2, r * vs)
}

/// The exact inverse of the flat-top map followed by cube rounding: the
/// fractional coordinates `q = x / hs` and `r = y / vs - x / (2 hs)` over
/// the common denominator `2 * hs * vs`.
pub open spec fn axial_flat(x: int, y: int, hs: int, vs: int) -> (int, int) {
    cube_round(2 * vs * x, 2 * hs * y - vs * x, 2 * hs * vs)
}

/// The exact inverse of the pointy-top map followed by cube rounding: the
/// fractional coordinates `q = x / hs - y / (2 vs)` and `r = y / vs` over
/// the common denominator `2 * hs * vs`.
pub open spec fn axial_pointy(x: int, y: int, hs: int, vs: int) -> (int, int) {
    cube_round(2 * vs * x - hs * y, 2 * hs * y, 2 * hs * vs)
}

/// Law: on a flat-top grid the forward map followed by the inverse map is
/// the identity — the pixel center of a hexagon lies in that hexagon.  The
/// vertical spacing must exceed one raw unit so that the half-unit floor in
/// the forward map cannot reach a rounding tie.
pub proof fn lemma_flat_round_trip(q: int, r: int, hs: int, vs: int)
    requires
        1 <= hs,
        2 <= vs,
    ensures
        axial_flat(xy_flat_raw(q, r, hs, vs).0, xy_flat_raw(q, r, hs, vs).1, hs, vs) == (q, r),
{
    let x = q * hs;
    let y = (q * vs) / 2 + r * vs;
    let d = 2 * hs * vs;
    let m = (q * vs) % 2;
    vstd::arithmetic::div_mod::lemma_fundamental_div_mod(q * vs, 2);
    let nq = 2 * vs * x;
    let nr = 2 * hs * y - vs * x;
    assert(nq == q * d + 0) by (nonlinear_arith)
        requires
            nq == 2 * vs * x && x == q * hs && d == 2 * hs * vs,
    ;
    assert(nr == r * d + -(hs * m)) by (nonlinear_arith)
        requires
            nr == 2 * hs * y - vs * x && x == q * hs && y == (q * vs) / 2 + r * vs && d == 2 * hs
                * vs && q * vs == 2 * ((q * vs) / 2) + m,
    ;
    assert(-nq - nr == (-q - r) * d + hs * m) by (nonlinear_arith)
        requires
            nq == q * d && nr == r * d + -(hs * m),
    ;
    assert(0 < d && 0 <= hs * m && 2 * (hs * m) < d) by (nonlinear_arith)
        requires
            1 <= hs && 2 <= vs && 0 <= m < 2 && d == 2 * hs * vs,
    ;
    lemma_round_away_near(q, d, 0);
    lemma_round_away_near(r, d, -(hs * m));
    lemma_round_away_near(-q - r, d, hs * m);
}

/// Law: on a pointy-top grid the forward map followed by the inverse map
/// is the identity, with the spacing roles mirrored.
pub proof fn lemma_pointy_round_trip(q: int, r: int, hs: int, vs: int)
    requires
        2 <= hs,
        1 <= vs,
    ensures
        axial_pointy(xy_pointy_raw(q, r, hs, vs).0, xy_pointy_raw(q, r, hs, vs).1, hs, vs) == (
            q,
            r,
        ),
{
    let x = q * hs + (r * hs) / 2;
    let y = r * vs;
    let d = 2 * hs * vs;
    let m = (r * hs) % 2;
    vstd::arithmetic::div_mod::lemma_fundamental_div_mod(r * hs, 2);
    let nq = 2 * vs * x - hs * y;
    let nr = 2 * hs * y;
    assert(nq == q * d + -(vs * m)) by (nonlinear_arith)
        requires
            nq == 2 * vs * x - hs * y && x == q * hs + (r * hs) / 2 && y == r * vs && d == 2 * hs
                * vs && r * hs == 2 * ((r * hs) / 2) + m,
    ;
    assert(nr == r * d + 0) by (nonlinear_arith)
        requires
            nr == 2 * hs * y && y == r * vs && d == 2 * hs * vs,
    ;
    assert(-nq - nr == (-q - r) * d + vs * m) by (nonlinear_arith)
        requires
            nq == q * d + -(vs * m) && nr == r * d,
    ;
    assert(0 < d && 0 <= vs * m && 2 * (vs * m) < d) by (nonlinear_arith)
        requires
            2 <= hs && 1 <= vs && 0 <= m < 2 && d == 2 * hs * vs,
    ;
    lemma_round_away_near(q, d, -(vs * m));
    lemma_round_away_near(r, d, 0);
    lemma_round_away_near(-q - r, d, vs * m);
}

/// Law: under either orientation, mapping a hexagon to its pixel center
/// and looking that pixel up again returns the same hexagon, whenever both
/// spacings exceed one raw unit.
pub proof fn lemma_center_round_trip(p: Props, q: int, r: int)
    requires
        2 <= p.horz_spacing.raw,
        2 <= p.vert_spacing.raw,
    ensures
        p.spec_axial(p.spec_xy_ref(q, r).0, p.spec_xy_ref(q, r).1) == (q, r),
{
    match p.top {
        HexTop::FLAT => lemma_flat_round_trip(
            q,
            r,
            p.horz_spacing.raw as int,
            p.vert_spacing.raw as int,
        ),
        HexTop::POINTY => lemma_pointy_round_trip(
            q,
            r,
            p.horz_spacing.raw as int,
            p.vert_spacing.raw as int,
        ),
    }
}

/// Spacing parameters of an ideal grid of one orientation.
pub struct Props {
    pub top: HexTop,
    pub vert_spacing: Fixed,
    pub horz_spacing: Fixed,
}

impl Props {
    /// The pixel center of hexagon `(q, r)` under these parameters.
    pub open spec fn spec_xy_ref(self, q: int, r: int) -> (int, int) {
        match self.top {
            HexTop::FLAT => xy_flat_raw(q, r, self.horz_spacing.raw as int, self.vert_spacing.raw as int),
            HexTop::POINTY => xy_pointy_raw(q, r, self.horz_spacing.raw as int, self.vert_spacing.raw as int),
        }
    }

    /// The hexagon containing pixel `(x, y)` under these parameters.
    pub open spec fn spec_axial(self, x: int, y: int) -> (int, int) {
        match self.top {
            HexTop::FLAT => axial_flat(x, y, self.horz_spacing.raw as int, self.vert_spacing.raw as int),
            HexTop::POINTY => axial_pointy(x, y, self.horz_spacing.raw as int, self.vert_spacing.raw as int),
        }
    }

    /// The forward map's raw arithmetic stays within machine range.
    pub open spec fn xy_fits(self, q: int, r: int) -> bool {
        let hs = self.horz_spacing.raw as int;
        let vs = self.vert_spacing.raw as int;
        &&& i64::MIN <= q * hs <= i64::MAX
        &&& i64::MIN <= q * vs <= i64::MAX
        &&& i64::MIN <= r * hs <= i64::MAX
        &&& i64::MIN <= r * vs <= i64::MAX
        &&& i64::MIN <= self.spec_xy_ref(q, r).0 <= i64::MAX
        &&& i64::MIN <= self.spec_xy_ref(q, r).1 <= i64::MAX
    }

    /// The inverse map's raw arithmetic stays within machine range: the
    /// spacings are positive and the numerators, the denominator and the
    /// rounded coordinates all fit.
    pub open spec fn axial_fits(self, x: int, y: int) -> bool {
        let hs = self.horz_spacing.raw as int;
        let vs = self.vert_spacing.raw as int;
        &&& 0 < hs
        &&& 0 < vs
        &&& 2 * hs * vs < ROUND_BOUND
        &&& abs_int(2 * vs * x) < ROUND_BOUND / 4
        &&& abs_int(2 * hs * y) < ROUND_BOUND / 4
        &&& i32::MIN <= self.spec_axial(x, y).0 <= i32::MAX
        &&& i32::MIN <= self.spec_axial(x, y).1 <= i32::MAX
    }

    pub fn new(top: HexTop, vert_spacing: Fixed, horz_spacing: Fixed) -> (p: Props)
        ensures
            p.top == top,
            p.vert_spacing == vert_spacing,
            p.horz_spacing == horz_spacing,
    {
        Props { top, vert_spacing, horz_spacing }
    }

    /// Spacing parameters for a flat-top grid.
    pub fn flat(hs: Fixed, vs: Fixed) -> (p: Props)
        ensures
            p.top == HexTop::FLAT,
            p.vert_spacing == vs,
            p.horz_spacing == hs,
    {
        Props::new(HexTop::FLAT, vs, hs)
    }

    /// Spacing parameters for a pointy-top grid.
    pub fn pointy(hs: Fixed, vs: Fixed) -> (p: Props)
        ensures
            p.top == HexTop::POINTY,
            p.vert_spacing == vs,
            p.horz_spacing == hs,
    {
        Props::new(HexTop::POINTY, vs, hs)
    }

    fn xy_flat(&self, qr: &Axial) -> (p: (Fixed, Fixed))
        requires
            self.top == HexTop::FLAT,
            self.xy_fits(qr.q as int, qr.r as int),
        ensures
            (p.0.raw as int, p.1.raw as int) == self.spec_xy_ref(qr.q as int, qr.r as int),
    {
        let x: i64 = (qr.q as i64) * self.horz_spacing.raw;
        let qv: i64 = (qr.q as i64) * self.vert_spacing.raw;
        let y: i64 = floor_div2(qv) + (qr.r as i64) * self.vert_spacing.raw;
        (Fixed::from_raw(x), Fixed::from_raw(y))
    }

    fn xy_pointy(&self, qr: &Axial) -> (p: (Fixed, Fixed))
        requires
            self.top == HexTop::POINTY,
            self.xy_fits(qr.q as int, qr.r as int),
        ensures
            (p.0.raw as int, p.1.raw as int) == self.spec_xy_ref(qr.q as int, qr.r as int),
    {
        let rh: i64 = (qr.r as i64) * self.horz_spacing.raw;
        let x: i64 = (qr.q as i64) * self.horz_spacing.raw + floor_div2(rh);
        let y: i64 = (qr.r as i64) * self.vert_spacing.raw;
        (Fixed::from_raw(x), Fixed::from_raw(y))
    }

    fn flat_qr_from_xy(&self, xy: (Fixed, Fixed)) -> (a: Axial)
        requires
            self.top == HexTop::FLAT,
            self.axial_fits(xy.0.raw as int, xy.1.raw as int),
        ensures
            (a.q as int, a.r as int) == self.spec_axial(xy.0.raw as int, xy.1.raw as int),
    {
        let x: i128 = xy.0.raw as i128;
        let y: i128 = xy.1.raw as i128;
        let hs: i128 = self.horz_spacing.raw as i128;
        let vs: i128 = self.vert_spacing.raw as i128;
        proof {
            assert(2 * (vs as int) * (x as int) == 2 * ((vs as int) * (x as int)))
                by (nonlinear_arith);
            assert(2 * (hs as int) * (y as int) == 2 * ((hs as int) * (y as int)))
                by (nonlinear_arith);
            assert(0 < 2 * (hs as int) * (vs as int)) by (nonlinear_arith)
                requires
                    0 < hs as int && 0 < vs as int,
            ;
        }
        let nq: i128 = 2 * vs * x;
        let nr: i128 = 2 * hs * y - vs * x;
        let d: i128 = 2 * hs * vs;
        cube_round_exec(nq, nr, d)
    }

    fn pointy_qr_from_xy(&self, xy: (Fixed, Fixed)) -> (a: Axial)
        requires
            self.top == HexTop::POINTY,
            self.axial_fits(xy.0.raw as int, xy.1.raw as int),
        ensures
            (a.q as int, a.r as int) == self.spec_axial(xy.0.raw as int, xy.1.raw as int),
    {
        let x: i128 = xy.0.raw as i128;
        let y: i128 = xy.1.raw as i128;
        let hs: i128 = self.horz_spacing.raw as i128;
        let vs: i128 = self.vert_spacing.raw as i128;
        proof {
            assert(2 * (vs as int) * (x as int) == 2 * ((vs as int) * (x as int)))
                by (nonlinear_arith);
            assert(2 * (hs as int) * (y as int) == 2 * ((hs as int) * (y as int)))
                by (nonlinear_arith);
            assert(0 < 2 * (hs as int) * (vs as int)) by (nonlinear_arith)
                requires
                    0 < hs as int && 0 < vs as int,
            ;
        }
        let nq: i128 = 2 * vs * x - hs * y;
        let nr: i128 = 2 * hs * y;
        let d: i128 = 2 * hs * vs;
        cube_round_exec(nq, nr, d)
    }

    /// The spacing in x direction.
    pub fn horizontal_spacing(&self) -> (s: Fixed)
        ensures
            s == self.horz_spacing,
    {
        self.horz_spacing
    }

    /// The spacing in y direction.
    pub fn vertical_spacing(&self) -> (s: Fixed)
        ensures
            s == self.vert_spacing,
    {
        self.vert_spacing
    }

    /// The pixel coordinate of the center of hexagon `qr`.
    pub fn xy_ref(&self, qr: &Axial) -> (p: (Fixed, Fixed))
        requires
            self.xy_fits(qr.q as int, qr.r as int),
        ensures
            (p.0.raw as int, p.1.raw as int) == self.spec_xy_ref(qr.q as int, qr.r as int),
    {
        match self.top {
            HexTop::FLAT => self.xy_flat(qr),
            HexTop::POINTY => self.xy_pointy(qr),
        }
    }

    /// The axial coordinate of the hexagon containing pixel `xy`.
    pub fn axial(&self, xy: (Fixed, Fixed)) -> (a: Axial)
        requires
            self.axial_fits(xy.0.raw as int, xy.1.raw as int),
        ensures
            (a.q as int, a.r as int) == self.spec_axial(xy.0.raw as int, xy.1.raw as int),
    {
        match self.top {
            HexTop::FLAT => self.flat_qr_from_xy(xy),
            HexTop::POINTY => self.pointy_qr_from_xy(xy),
        }
    }

    /// The offset of pixel `xy` from the center of the hexagon that
    /// contains it.
    pub fn xy_relative(&self, xy: (Fixed, Fixed)) -> (p: (Fixed, Fixed))
        requires
            self.axial_fits(xy.0.raw as int, xy.1.raw as int),
            self.xy_fits(
                self.spec_axial(xy.0.raw as int, xy.1.raw as int).0,
                self.spec_axial(xy.0.raw as int, xy.1.raw as int).1,
            ),
            i64::MIN <= xy.0.raw - self.spec_xy_ref(
                self.spec_axial(xy.0.raw as int, xy.1.raw as int).0,
                self.spec_axial(xy.0.raw as int, xy.1.raw as int).1,
            ).0 <= i64::MAX,
            i64::MIN <= xy.1.raw - self.spec_xy_ref(
                self.spec_axial(xy.0.raw as int, xy.1.raw as int).0,
                self.spec_axial(xy.0.raw as int, xy.1.raw as int).1,
            ).1 <= i64::MAX,
        ensures
            p.0.raw == xy.0.raw - self.spec_xy_ref(
                self.spec_axial(xy.0.raw as int, xy.1.raw as int).0,
                self.spec_axial(xy.0.raw as int, xy.1.raw as int).1,
            ).0,
            p.1.raw == xy.1.raw - self.spec_xy_ref(
                self.spec_axial(xy.0.raw as int, xy.1.raw as int).0,
                self.spec_axial(xy.0.raw as int, xy.1.raw as int).1,
            ).1,
    {
        let qr = self.axial(xy);
        let c = self.xy_ref(&qr);
        (Fixed::from_raw(xy.0.raw - c.0.raw), Fixed::from_raw(xy.1.raw - c.1.raw))
    }
}

} // verus!
