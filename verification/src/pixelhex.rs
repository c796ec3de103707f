//! The irregular pixel-hex mapping: a flat-top grid of tiles whose actual
//! pixel silhouettes are not perfect hexagons, described by a per-row
//! horizontal-extent table, with a boundary-corrected pixel-to-axial
//! lookup.

use vstd::prelude::*;

use crate::axial::{div_trunc, Axial};
use crate::fixed::{Fixed, SCALE};
use crate::hex::Props;
use crate::HexTop;

verus! {

/// Sample list element: a relative pixel row paired with the horizontal
/// extent of the tile silhouette on that row.
pub type RowSample = (Fixed, (Fixed, Fixed));

/// Smallest sample row (meaningful for non-empty lists).
pub open spec fn spec_ymin(s: Seq<RowSample>) -> int
    recommends
        s.len() > 0,
    decreases s.len(),
{
    if s.len() <= 1 {
        s[0].0.raw as int
    } else {
        let rest = spec_ymin(s.drop_last());
        let y = s.last().0.raw as int;
        if y < rest {
            y
        } else {
            rest
        }
    }
}

/// Largest sample row (meaningful for non-empty lists).
pub open spec fn spec_ymax(s: Seq<RowSample>) -> int
    recommends
        s.len() > 0,
    decreases s.len(),
{
    if s.len() <= 1 {
        s[0].0.raw as int
    } else {
        let rest = spec_ymax(s.drop_last());
        let y = s.last().0.raw as int;
        if y > rest {
            y
        } else {
            rest
        }
    }
}

/// Smallest left extent over all samples (meaningful for non-empty lists).
pub open spec fn spec_minx(s: Seq<RowSample>) -> int
    recommends
        s.len() > 0,
    decreases s.len(),
{
    if s.len() <= 1 {
        s[0].1.0.raw as int
    } else {
        let rest = spec_minx(s.drop_last());
        let x = s.last().1.0.raw as int;
        if x < rest {
            x
        } else {
            rest
        }
    }
}

/// Horizontal spacing the constructor derives: right extent of the last
/// sample, minus the smallest left extent, plus one.
pub open spec fn spec_hspacing(s: Seq<RowSample>) -> int
    recommends
        s.len() > 0,
{
    s.last().1.1.raw - spec_minx(s) + SCALE
}

/// Vertical spacing the constructor derives: the row extent span plus one.
pub open spec fn spec_vspacing(s: Seq<RowSample>) -> int
    recommends
        s.len() > 0,
{
    spec_ymax(s) - spec_ymin(s) + SCALE
}

/// A flat-top tile grid whose tile silhouette is described per pixel row.
pub struct PixelHex {
    pub props: Props,
    pub vert_extends: (Fixed, Fixed),
    pub horiz_extends: Vec<(Fixed, Fixed)>,
}

impl PixelHex {
    /// Initial grid guess for a pixel: the ideal inverse transform.
    pub open spec fn spec_guess(self, x: int, y: int) -> (int, int) {
        self.props.spec_axial(x, y)
    }

    /// Vertical offset of the pixel from the guessed tile center.
    pub open spec fn spec_dy1(self, x: int, y: int) -> int {
        y - self.props.spec_xy_ref(self.spec_guess(x, y).0, self.spec_guess(x, y).1).1
    }

    /// Row correction: one row down when the offset overruns the stored
    /// vertical extents upward, one row up when it underruns them.
    pub open spec fn spec_shift(self, x: int, y: int) -> int {
        (if self.spec_dy1(x, y) > self.vert_extends.1.raw {
            1int
        } else {
            0int
        }) - (if self.spec_dy1(x, y) < self.vert_extends.0.raw {
            1int
        } else {
            0int
        })
    }

    /// The row-corrected guess.
    pub open spec fn spec_qr2(self, x: int, y: int) -> (int, int) {
        (self.spec_guess(x, y).0, self.spec_guess(x, y).1 + self.spec_shift(x, y))
    }

    /// Offset of the pixel from the center of the row-corrected guess.
    pub open spec fn spec_rel2(self, x: int, y: int) -> (int, int) {
        let c = self.props.spec_xy_ref(self.spec_qr2(x, y).0, self.spec_qr2(x, y).1);
        (x - c.0, y - c.1)
    }

    /// Index into the horizontal-extent table for the corrected offset:
    /// whole rows above the smallest stored row, truncated toward zero (so
    /// a fractional offset within one row below the table still indexes row
    /// zero).  A negative index, like one at or beyond the table length,
    /// lies outside the configured range.
    pub open spec fn spec_row_index(self, x: int, y: int) -> int {
        div_trunc(self.spec_rel2(x, y).1 - self.vert_extends.0.raw, SCALE as int)
    }

    /// Horizontal nudge: pixels left of the stored row extent belong to a
    /// left neighbour, pixels right of it to a right neighbour, with the
    /// diagonal chosen by the sign of the vertical offset.
    pub open spec fn spec_nudge(self, x: int, y: int) -> (int, int) {
        let dx = self.spec_rel2(x, y).0;
        let dy = self.spec_rel2(x, y).1;
        let ext = self.horiz_extends@[self.spec_row_index(x, y)];
        if dx < ext.0.raw && dy <= 0 {
            (-1int, 0int)
        } else if dx < ext.0.raw {
            (-1int, 1int)
        } else if dx > ext.1.raw && dy <= 0 {
            (1int, -1int)
        } else if dx > ext.1.raw {
            (1int, 0int)
        } else {
            (0int, 0int)
        }
    }

    /// The boundary-corrected lookup: the row-corrected guess plus the
    /// horizontal nudge.
    pub open spec fn spec_pixel_axial(self, x: int, y: int) -> (int, int) {
        (
            self.spec_qr2(x, y).0 + self.spec_nudge(x, y).0,
            self.spec_qr2(x, y).1 + self.spec_nudge(x, y).1,
        )
    }

    /// Every intermediate of the lookup stays within machine range and the
    /// corrected row lands inside the stored table.
    pub open spec fn axial_ok(self, x: int, y: int) -> bool {
        &&& self.props.axial_fits(x, y)
        &&& self.props.xy_fits(self.spec_guess(x, y).0, self.spec_guess(x, y).1)
        &&& i64::MIN <= y - self.props.spec_xy_ref(
            self.spec_guess(x, y).0,
            self.spec_guess(x, y).1,
        ).1 <= i64::MAX
        &&& i32::MIN <= self.spec_qr2(x, y).1 <= i32::MAX
        &&& self.props.xy_fits(self.spec_qr2(x, y).0, self.spec_qr2(x, y).1)
        &&& i64::MIN <= self.spec_rel2(x, y).0 <= i64::MAX
        &&& i64::MIN <= self.spec_rel2(x, y).1 <= i64::MAX
        &&& i64::MIN <= self.spec_rel2(x, y).1 - self.vert_extends.0.raw <= i64::MAX
        &&& 0 <= self.spec_row_index(x, y) < self.horiz_extends@.len()
        &&& i32::MIN <= self.spec_pixel_axial(x, y).0 <= i32::MAX
        &&& i32::MIN <= self.spec_pixel_axial(x, y).1 <= i32::MAX
    }

    /// Build a flat-top tile description from `(row, (left, right))`
    /// silhouette samples.  An empty list yields the documented degenerate
    /// zero-spacing, empty-table instance.
    pub fn flat(horiz_extends: &[RowSample]) -> (h: PixelHex)
        requires
            horiz_extends@.len() > 0 ==> {
                &&& i64::MIN + SCALE <= spec_hspacing(horiz_extends@) <= i64::MAX
                &&& i64::MIN <= spec_vspacing(horiz_extends@) <= i64::MAX
            },
        ensures
            h.props.top == HexTop::FLAT,
            horiz_extends@.len() == 0 ==> {
                &&& h.props.horz_spacing.raw == 0
                &&& h.props.vert_spacing.raw == 0
                &&& h.vert_extends.0.raw == 0 && h.vert_extends.1.raw == 0
                &&& h.horiz_extends@.len() == 0
            },
            horiz_extends@.len() > 0 ==> {
                &&& h.props.horz_spacing.raw == spec_hspacing(horiz_extends@)
                &&& h.props.vert_spacing.raw == spec_vspacing(horiz_extends@)
                &&& h.vert_extends.0.raw == spec_ymin(horiz_extends@)
                &&& h.vert_extends.1.raw == spec_ymax(horiz_extends@)
                &&& h.horiz_extends@.len() == horiz_extends@.len()
                &&& forall|i: int|
                    0 <= i < horiz_extends@.len() ==> h.horiz_extends@[i] == horiz_extends@[i].1
            },
    {
        let n: usize = horiz_extends.len();
        if n == 0 {
            return PixelHex {
                props: Props::flat(Fixed::from_raw(0), Fixed::from_raw(0)),
                horiz_extends: Vec::new(),
                vert_extends: (Fixed::from_raw(0), Fixed::from_raw(0)),
            };
        }
        proof {
            assert(horiz_extends@.take(1).len() == 1);
            assert(horiz_extends@.take(1)[0] == horiz_extends@[0]);
        }
        let first = horiz_extends[0];
        let mut ymin: i64 = first.0.raw;
        let mut ymax: i64 = first.0.raw;
        let mut minx: i64 = first.1.0.raw;
        let mut exts: Vec<(Fixed, Fixed)> = Vec::new();
        exts.push(first.1);
        let mut i: usize = 1;
        while i < n
            invariant
                0 < n == horiz_extends@.len(),
                1 <= i <= n,
                ymin == spec_ymin(horiz_extends@.take(i as int)),
                ymax == spec_ymax(horiz_extends@.take(i as int)),
                minx == spec_minx(horiz_extends@.take(i as int)),
                exts@.len() == i,
                forall|j: int| 0 <= j < i ==> exts@[j] == horiz_extends@[j].1,
            decreases n - i,
        {
            proof {
                assert(horiz_extends@.take(i + 1).drop_last() =~= horiz_extends@.take(i as int));
                assert(horiz_extends@.take(i + 1).last() == horiz_extends@[i as int]);
            }
            let sample = horiz_extends[i];
            let y: i64 = sample.0.raw;
            if y < ymin {
                ymin = y;
            }
            if y > ymax {
                ymax = y;
            }
            let x1: i64 = sample.1.0.raw;
            if x1 < minx {
                minx = x1;
            }
            exts.push(sample.1);
            i = i + 1;
        }
        proof {
            assert(horiz_extends@.take(n as int) =~= horiz_extends@);
        }
        let last_x2: i64 = horiz_extends[n - 1].1.1.raw;
        let hs: i64 = last_x2 - minx + SCALE;
        let vs: i64 = ymax - ymin + SCALE;
        PixelHex {
            props: Props::flat(Fixed::from_raw(hs), Fixed::from_raw(vs)),
            horiz_extends: exts,
            vert_extends: (Fixed::from_raw(ymin), Fixed::from_raw(ymax)),
        }
    }

    /// The spacing in x direction.
    pub fn horizontal_spacing(&self) -> (s: Fixed)
        ensures
            s == self.props.horz_spacing,
    {
        self.props.horizontal_spacing()
    }

    /// The spacing in y direction.
    pub fn vertical_spacing(&self) -> (s: Fixed)
        ensures
            s == self.props.vert_spacing,
    {
        self.props.vertical_spacing()
    }

    /// The pixel coordinate of the center of tile `qr` on the ideal grid.
    pub fn xy_ref(&self, qr: &Axial) -> (p: (Fixed, Fixed))
        requires
            self.props.xy_fits(qr.q as int, qr.r as int),
        ensures
            (p.0.raw as int, p.1.raw as int) == self.props.spec_xy_ref(qr.q as int, qr.r as int),
    {
        self.props.xy_ref(qr)
    }

    /// The axial coordinate of the tile whose silhouette contains pixel
    /// `xy`: the ideal guess, corrected vertically by the stored extents
    /// and horizontally by the row's extent table entry.  The corrected
    /// row index must land inside the table (a precondition here;
    /// `axial_checked` answers the out-of-range case with `None`).
    pub fn axial(&self, xy: (Fixed, Fixed)) -> (a: Axial)
        requires
            self.axial_ok(xy.0.raw as int, xy.1.raw as int),
        ensures
            (a.q as int, a.r as int) == self.spec_pixel_axial(xy.0.raw as int, xy.1.raw as int),
    {
        let qr = self.props.axial(xy);
        let c1 = self.props.xy_ref(&qr);
        let dy1: i64 = xy.1.raw - c1.1.raw;
        let up: i32 = if dy1 > self.vert_extends.1.raw {
            1
        } else {
            0
        };
        let down: i32 = if dy1 < self.vert_extends.0.raw {
            1
        } else {
            0
        };
        let qr2 = Axial::new(qr.q, qr.r + (up - down));
        let c2 = self.props.xy_ref(&qr2);
        let dx: i64 = xy.0.raw - c2.0.raw;
        let dy: i64 = xy.1.raw - c2.1.raw;
        let row: i64 = dy - self.vert_extends.0.raw;
        let idx: usize = if row < 0 {
            proof {
                vstd::arithmetic::div_mod::lemma_div_pos_is_pos(-row as int, SCALE as int);
            }
            0
        } else {
            ((row as u64) / (SCALE as u64)) as usize
        };
        let ext = self.horiz_extends[idx];
        let (nq, nr): (i32, i32) = if dx < ext.0.raw {
            if dy <= 0 {
                (-1, 0)
            } else {
                (-1, 1)
            }
        } else if dx > ext.1.raw {
            if dy <= 0 {
                (1, -1)
            } else {
                (1, 0)
            }
        } else {
            (0, 0)
        };
        Axial::new(qr2.q + nq, qr2.r + nr)
    }

    /// The lookup with the out-of-table condition made explicit: `None`
    /// exactly when the corrected row index falls outside the stored
    /// horizontal-extent table, on either side.
    pub fn axial_checked(&self, xy: (Fixed, Fixed)) -> (r: Option<Axial>)
        requires
            self.props.axial_fits(xy.0.raw as int, xy.1.raw as int),
            self.props.xy_fits(
                self.spec_guess(xy.0.raw as int, xy.1.raw as int).0,
                self.spec_guess(xy.0.raw as int, xy.1.raw as int).1,
            ),
            i64::MIN <= xy.1.raw - self.props.spec_xy_ref(
                self.spec_guess(xy.0.raw as int, xy.1.raw as int).0,
                self.spec_guess(xy.0.raw as int, xy.1.raw as int).1,
            ).1 <= i64::MAX,
            i32::MIN <= self.spec_qr2(xy.0.raw as int, xy.1.raw as int).1 <= i32::MAX,
            self.props.xy_fits(
                self.spec_qr2(xy.0.raw as int, xy.1.raw as int).0,
                self.spec_qr2(xy.0.raw as int, xy.1.raw as int).1,
            ),
            i64::MIN <= self.spec_rel2(xy.0.raw as int, xy.1.raw as int).0 <= i64::MAX,
            i64::MIN <= self.spec_rel2(xy.0.raw as int, xy.1.raw as int).1 <= i64::MAX,
            i64::MIN <= self.spec_rel2(xy.0.raw as int, xy.1.raw as int).1
                - self.vert_extends.0.raw <= i64::MAX,
            i32::MIN <= self.spec_pixel_axial(xy.0.raw as int, xy.1.raw as int).0 <= i32::MAX,
            i32::MIN <= self.spec_pixel_axial(xy.0.raw as int, xy.1.raw as int).1 <= i32::MAX,
        ensures
            0 <= self.spec_row_index(xy.0.raw as int, xy.1.raw as int) < self.horiz_extends@.len()
                ==> (r matches Some(a) && (a.q as int, a.r as int) == self.spec_pixel_axial(
                xy.0.raw as int,
                xy.1.raw as int,
            )),
            !(0 <= self.spec_row_index(xy.0.raw as int, xy.1.raw as int)
                < self.horiz_extends@.len()) ==> r is None,
    {
        let qr = self.props.axial(xy);
        let c1 = self.props.xy_ref(&qr);
        let dy1: i64 = xy.1.raw - c1.1.raw;
        let up: i32 = if dy1 > self.vert_extends.1.raw {
            1
        } else {
            0
        };
        let down: i32 = if dy1 < self.vert_extends.0.raw {
            1
        } else {
            0
        };
        let qr2 = Axial::new(qr.q, qr.r + (up - down));
        let c2 = self.props.xy_ref(&qr2);
        let dy: i64 = xy.1.raw - c2.1.raw;
        let row: i64 = dy - self.vert_extends.0.raw;
        let in_table: bool = if row < 0 {
            proof {
                vstd::arithmetic::div_mod::lemma_div_pos_is_pos(-row as int, SCALE as int);
                if -row < SCALE {
                    vstd::arithmetic::div_mod::lemma_basic_div(-row as int, SCALE as int);
                } else {
                    vstd::arithmetic::div_mod::lemma_div_by_self(SCALE as int);
                    vstd::arithmetic::div_mod::lemma_div_is_ordered(
                        SCALE as int,
                        -row as int,
                        SCALE as int,
                    );
                }
            }
            // only a fractional offset within the row below truncates to
            // row zero; a whole row below the table is out of range
            row > -SCALE && self.horiz_extends.len() > 0
        } else {
            (row as u64) / (SCALE as u64) < self.horiz_extends.len() as u64
        };
        if in_table {
            Some(self.axial(xy))
        } else {
            None
        }
    }

    /// The offset of pixel `xy` from the center of the tile whose
    /// silhouette contains it.
    pub fn xy_relative(&self, xy: (Fixed, Fixed)) -> (p: (Fixed, Fixed))
        requires
            self.axial_ok(xy.0.raw as int, xy.1.raw as int),
            self.props.xy_fits(
                self.spec_pixel_axial(xy.0.raw as int, xy.1.raw as int).0,
                self.spec_pixel_axial(xy.0.raw as int, xy.1.raw as int).1,
            ),
            i64::MIN <= xy.0.raw - self.props.spec_xy_ref(
                self.spec_pixel_axial(xy.0.raw as int, xy.1.raw as int).0,
                self.spec_pixel_axial(xy.0.raw as int, xy.1.raw as int).1,
            ).0 <= i64::MAX,
            i64::MIN <= xy.1.raw - self.props.spec_xy_ref(
                self.spec_pixel_axial(xy.0.raw as int, xy.1.raw as int).0,
                self.spec_pixel_axial(xy.0.raw as int, xy.1.raw as int).1,
            ).1 <= i64::MAX,
        ensures
            p.0.raw == xy.0.raw - self.props.spec_xy_ref(
                self.spec_pixel_axial(xy.0.raw as int, xy.1.raw as int).0,
                self.spec_pixel_axial(xy.0.raw as int, xy.1.raw as int).1,
            ).0,
            p.1.raw == xy.1.raw - self.props.spec_xy_ref(
                self.spec_pixel_axial(xy.0.raw as int, xy.1.raw as int).0,
                self.spec_pixel_axial(xy.0.raw as int, xy.1.raw as int).1,
            ).1,
    {
        let qr = self.axial(xy);
        let c = self.props.xy_ref(&qr);
        (Fixed::from_raw(xy.0.raw - c.0.raw), Fixed::from_raw(xy.1.raw - c.1.raw))
    }
}

} // verus!
