//! Ring enumeration: the ordered sequence of hexes at an exact hex
//! distance from a center, walked as six straight legs between the corners
//! of the ring hexagon.

use vstd::prelude::*;

use crate::axial::{hex_dist, hex_len, Axial};

verus! {

/// Relative offset of the `step`-th point on the `leg`-th leg of the ring
/// of a radius (legs `0..6`, steps `0..radius`).  The legs walk clockwise
/// starting from the point directly north of the center in axial space.
pub open spec fn ring_offset(radius: int, leg: int, step: int) -> (int, int)
    recommends
        0 <= leg < 6,
        0 <= step < radius,
{
    if leg == 0 {
        (-step, radius)
    } else if leg == 1 {
        (-radius, radius - step)
    } else if leg == 2 {
        (-radius + step, -step)
    } else if leg == 3 {
        (step, -radius)
    } else if leg == 4 {
        (radius, -radius + step)
    } else {
        (radius - step, step)
    }
}

/// How many hexes the ring of a radius holds.
pub open spec fn ring_count(radius: int) -> int {
    if radius == 0 {
        1
    } else {
        6 * radius
    }
}

/// The `n`-th relative offset the ring iteration emits.
pub open spec fn ring_point(radius: int, n: int) -> (int, int)
    recommends
        0 <= n < ring_count(radius),
{
    if radius == 0 {
        (0, 0)
    } else {
        ring_offset(radius, n / radius, n % radius)
    }
}

/// Iterator state over the relative offsets of one ring: the current leg
/// and the current step within that leg.
pub struct HexCircle {
    pub hex_radius: i32,
    pub leg_idx: usize,
    pub hex_idx: i32,
}

impl HexCircle {
    /// The states the iteration moves through.
    pub open spec fn wf(self) -> bool {
        &&& 0 <= self.hex_radius
        &&& self.leg_idx <= 6
        &&& 0 <= self.hex_idx
        &&& (self.hex_radius == 0 ==> self.hex_idx == 0 && (self.leg_idx == 0 || self.leg_idx
            == 6))
        &&& (self.hex_radius > 0 ==> self.hex_idx < self.hex_radius)
        &&& (self.leg_idx == 6 ==> self.hex_idx == 0)
    }

    /// How many offsets have been emitted so far.
    pub open spec fn emitted(self) -> int {
        if self.hex_radius == 0 {
            if self.leg_idx == 0 {
                0
            } else {
                1
            }
        } else {
            self.leg_idx * self.hex_radius + self.hex_idx
        }
    }

    pub fn new(hex_radius: u32) -> (c: HexCircle)
        requires
            hex_radius <= i32::MAX,
        ensures
            c.wf(),
            c.hex_radius == hex_radius,
            c.emitted() == 0,
    {
        HexCircle { hex_radius: hex_radius as i32, leg_idx: 0usize, hex_idx: 0 }
    }

    /// The offset the current state stands for, by the closed-form leg
    /// formulas; `None` once the iteration has passed the last leg.
    pub fn qr(&self) -> (r: Option<(i32, i32)>)
        requires
            self.wf(),
        ensures
            self.leg_idx <= 5 ==> (r matches Some(p) && (p.0 as int, p.1 as int) == ring_offset(
                self.hex_radius as int,
                self.leg_idx as int,
                self.hex_idx as int,
            )),
            self.leg_idx > 5 ==> r is None,
    {
        match self.leg_idx {
            0 => Some((-self.hex_idx, self.hex_radius)),
            1 => Some((-self.hex_radius, self.hex_radius - self.hex_idx)),
            2 => Some((-self.hex_radius + self.hex_idx, -self.hex_idx)),
            3 => Some((self.hex_idx, -self.hex_radius)),
            4 => Some((self.hex_radius, -self.hex_radius + self.hex_idx)),
            5 => Some((self.hex_radius - self.hex_idx, self.hex_idx)),
            _ => None,
        }
    }

    /// Emit the current relative offset and advance: the step rolls over
    /// into the next leg, and the iteration ends after the sixth leg.
    pub fn next(&mut self) -> (r: Option<Axial>)
        requires
            old(self).wf(),
        ensures
            final (self).wf(),
            final (self).hex_radius == old(self).hex_radius,
            old(self).emitted() < ring_count(old(self).hex_radius as int) ==> (r matches Some(a)
                && (a.q as int, a.r as int) == ring_point(
                old(self).hex_radius as int,
                old(self).emitted(),
            ) && final (self).emitted() == old(self).emitted() + 1),
            old(self).emitted() >= ring_count(old(self).hex_radius as int) ==> r is None
                && *final (self) == *old(self),
    {
        proof {
            lemma_emitted_range(*self);
        }
        if self.leg_idx > 5 {
            return None;
        }
        let qr = self.qr();
        proof {
            if self.hex_radius > 0 {
                vstd::arithmetic::div_mod::lemma_fundamental_div_mod_converse(
                    self.leg_idx * self.hex_radius + self.hex_idx,
                    self.hex_radius as int,
                    self.leg_idx as int,
                    self.hex_idx as int,
                );
                assert((self.leg_idx + 1) * self.hex_radius == self.leg_idx * self.hex_radius
                    + self.hex_radius) by (nonlinear_arith);
            }
        }
        if self.hex_radius == 0 {
            self.leg_idx = 6;
        } else if self.hex_idx < self.hex_radius - 1 {
            self.hex_idx = self.hex_idx + 1;
        } else {
            self.hex_idx = 0;
            self.leg_idx = self.leg_idx + 1;
        }
        match qr {
            Some(t) => Some(Axial::new(t.0, t.1)),
            None => None,
        }
    }
}

/// In a well-formed state the emitted count is between 0 and the ring
/// count, and the iteration is finished exactly on the sixth leg.
proof fn lemma_emitted_range(c: HexCircle)
    requires
        c.wf(),
    ensures
        0 <= c.emitted() <= ring_count(c.hex_radius as int),
        c.emitted() == ring_count(c.hex_radius as int) <==> c.leg_idx == 6,
{
    if c.hex_radius > 0 {
        let l = c.leg_idx as int;
        let radius = c.hex_radius as int;
        assert(0 <= l * radius && l * radius <= 6 * radius && (l < 6 ==> l * radius <= 5 * radius))
            by (nonlinear_arith)
            requires
                0 <= l <= 6 && radius > 0,
        ;
        if c.leg_idx == 6 {
        } else {
            assert(c.emitted() <= 5 * radius + c.hex_idx < 6 * radius);
        }
    }
}

/// The ring of a radius around a fixed center hexagon; emits absolute
/// positions by offsetting every relative ring point by the center.
pub struct CircleAroundHex {
    pub circle: HexCircle,
    pub center: Axial,
}

impl CircleAroundHex {
    /// Absolute emission stays within the coordinate range.
    pub open spec fn wf(self) -> bool {
        &&& self.circle.wf()
        &&& i32::MIN <= self.center.q - self.circle.hex_radius
        &&& self.center.q + self.circle.hex_radius <= i32::MAX
        &&& i32::MIN <= self.center.r - self.circle.hex_radius
        &&& self.center.r + self.circle.hex_radius <= i32::MAX
    }

    pub fn new(center: Axial, radius: u32) -> (c: CircleAroundHex)
        requires
            radius <= i32::MAX,
            i32::MIN <= center.q - radius,
            center.q + radius <= i32::MAX,
            i32::MIN <= center.r - radius,
            center.r + radius <= i32::MAX,
        ensures
            c.wf(),
            c.center == center,
            c.circle.hex_radius == radius,
            c.circle.emitted() == 0,
    {
        CircleAroundHex { circle: HexCircle::new(radius), center }
    }

    /// Emit the next absolute ring position: the center plus the current
    /// relative ring point.
    pub fn next(&mut self) -> (r: Option<Axial>)
        requires
            old(self).wf(),
        ensures
            final (self).wf(),
            final (self).center == old(self).center,
            final (self).circle.hex_radius == old(self).circle.hex_radius,
            old(self).circle.emitted() < ring_count(old(self).circle.hex_radius as int) ==> (
            r matches Some(a) && (a.q as int, a.r as int) == (
            old(self).center.q + ring_point(
                old(self).circle.hex_radius as int,
                old(self).circle.emitted(),
            ).0,
            old(self).center.r + ring_point(
                old(self).circle.hex_radius as int,
                old(self).circle.emitted(),
            ).1,
            ) && (a.q as int, a.r as int) == ring_seq(
                old(self).center.q as int,
                old(self).center.r as int,
                old(self).circle.hex_radius as int,
            )[old(self).circle.emitted()] && final (self).circle.emitted() == old(
                self,
            ).circle.emitted() + 1),
            old(self).circle.emitted() >= ring_count(old(self).circle.hex_radius as int)
                ==> r is None && *final (self) == *old(self),
    {
        let inner = self.circle.next();
        match inner {
            Some(v) => Some(v + self.center),
            None => None,
        }
    }
}

/// The completed ring around a center as one sequence: entry `n` is the
/// `n`-th absolute position a fresh `CircleAroundHex` emits, by the
/// contract of its `next`.
pub open spec fn ring_seq(cq: int, cr: int, radius: int) -> Seq<(int, int)>
    recommends
        0 <= radius,
{
    Seq::new(
        ring_count(radius) as nat,
        |n: int| (cq + ring_point(radius, n).0, cr + ring_point(radius, n).1),
    )
}

/// Law: around any center, the ring of radius zero is exactly the center,
/// emitted once, and the ring of a positive radius is exactly `6 * radius`
/// pairwise distinct positions, each at hex distance the radius from the
/// center.
pub proof fn lemma_ring_complete(cq: int, cr: int, radius: int)
    requires
        0 <= radius,
    ensures
        ring_seq(cq, cr, radius).len() == ring_count(radius),
        radius == 0 ==> ring_seq(cq, cr, radius) =~= seq![(cq, cr)],
        forall|n: int|
            0 <= n < ring_count(radius) ==> hex_dist(
                (#[trigger] ring_seq(cq, cr, radius)[n]).0,
                ring_seq(cq, cr, radius)[n].1,
                cq,
                cr,
            ) == radius,
        forall|i: int, j: int|
            0 <= i < j < ring_count(radius) ==> #[trigger] ring_seq(cq, cr, radius)[i]
                != #[trigger] ring_seq(cq, cr, radius)[j],
{
    assert forall|n: int| 0 <= n < ring_count(radius) implies hex_dist(
        (#[trigger] ring_seq(cq, cr, radius)[n]).0,
        ring_seq(cq, cr, radius)[n].1,
        cq,
        cr,
    ) == radius by {
        lemma_ring_point_distance(radius, n);
    }
    assert forall|i: int, j: int| 0 <= i < j < ring_count(radius) implies ring_seq(
        cq,
        cr,
        radius,
    )[i] != ring_seq(cq, cr, radius)[j] by {
        lemma_ring_points_distinct(radius, i, j);
    }
}

/// Law: every point on the ring of a radius lies at exactly that hex
/// distance from the center.
pub proof fn lemma_ring_point_distance(radius: int, n: int)
    requires
        0 <= radius,
        0 <= n < ring_count(radius),
    ensures
        hex_len(ring_point(radius, n).0, ring_point(radius, n).1) == radius,
{
    if radius > 0 {
        lemma_leg_step_range(radius, n);
    }
}

/// Law: the ring of radius 0 holds exactly the center, and the ring of a
/// positive radius holds exactly `6 * radius` pairwise distinct points.
/// Cardinality is `ring_count`; distinctness is stated pointwise.
pub proof fn lemma_ring_points_distinct(radius: int, i: int, j: int)
    requires
        0 <= radius,
        0 <= i < ring_count(radius),
        0 <= j < ring_count(radius),
        i != j,
    ensures
        ring_point(radius, i) != ring_point(radius, j),
{
    lemma_leg_step_range(radius, i);
    lemma_leg_step_range(radius, j);
    if radius > 0 && i / radius == j / radius && i % radius == j % radius {
        vstd::arithmetic::div_mod::lemma_fundamental_div_mod(i, radius);
        vstd::arithmetic::div_mod::lemma_fundamental_div_mod(j, radius);
    }
}

/// Decomposing an emission index over a positive radius gives a leg below
/// six and a step below the radius.
proof fn lemma_leg_step_range(radius: int, n: int)
    requires
        0 < radius,
        0 <= n < 6 * radius,
    ensures
        0 <= n / radius < 6,
        0 <= n % radius < radius,
{
    vstd::arithmetic::div_mod::lemma_fundamental_div_mod(n, radius);
    vstd::arithmetic::div_mod::lemma_mod_division_less_than_divisor(n, radius);
    vstd::arithmetic::div_mod::lemma_div_pos_is_pos(n, radius);
    let l = n / radius;
    let k = n % radius;
    assert(l < 6) by (nonlinear_arith)
        requires
            n == radius * l + k && 0 <= k < radius && n < 6 * radius && 0 <= l,
    ;
}

} // verus!
