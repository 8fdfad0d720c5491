use crate::common::math::trunc_div;
use crate::common::pt::{fits_i32, Pt};
use vstd::prelude::*;

verus! {

/// A half-open rectangle: `min` is its top-left corner and belongs to it,
/// `max` is its bottom-right corner and lies just outside.
#[derive(Copy, Clone, Debug, PartialEq, Eq, Structural)]
pub struct Rect {
    pub min: Pt,
    pub max: Pt,
}

impl Rect {
    /// Whether point `p` lies in the rectangle.
    pub open spec fn contains(&self, p: Pt) -> bool {
        self.min.0 <= p.0 < self.max.0 && self.min.1 <= p.1 < self.max.1
    }

    /// The rectangle with the given top-left corner, width and height.
    pub fn new(topleft: Pt, dim: (i32, i32)) -> (r: Rect)
        requires
            dim.0 >= 0,
            dim.1 >= 0,
            topleft.0 + dim.0 <= i32::MAX,
            topleft.1 + dim.1 <= i32::MAX,
        ensures
            r.min == topleft,
            r.max.0 == topleft.0 + dim.0,
            r.max.1 == topleft.1 + dim.1,
    {
        Rect { min: topleft, max: topleft + Pt(dim.0, dim.1) }
    }

    /// Width and height.
    pub fn dimensions(&self) -> (d: (i32, i32))
        requires
            fits_i32(self.max.0 - self.min.0),
            fits_i32(self.max.1 - self.min.1),
        ensures
            d.0 == self.max.0 - self.min.0,
            d.1 == self.max.1 - self.min.1,
    {
        (self.max - self.min).as_tuple()
    }

    /// The rectangle moved by `delta`.
    #[must_use]
    pub fn transl(self, delta: Pt) -> (r: Self)
        requires
            fits_i32(self.min.0 + delta.0),
            fits_i32(self.min.1 + delta.1),
            fits_i32(self.max.0 + delta.0),
            fits_i32(self.max.1 + delta.1),
        ensures
            r.min.0 == self.min.0 + delta.0,
            r.min.1 == self.min.1 + delta.1,
            r.max.0 == self.max.0 + delta.0,
            r.max.1 == self.max.1 + delta.1,
    {
        Self { min: self.min + delta, max: self.max + delta }
    }

    /// The four corner points that lie inside the rectangle, clockwise from
    /// the top-left one: the right and bottom ones are moved in by one.
    pub fn vertices_incl(&self) -> (v: [Pt; 4])
        requires
            self.max.0 > i32::MIN,
            self.max.1 > i32::MIN,
        ensures
            v[0] == self.min,
            v[1] == Pt((self.max.0 - 1) as i32, self.min.1),
            v[2] == Pt((self.max.0 - 1) as i32, (self.max.1 - 1) as i32),
            v[3] == Pt(self.min.0, (self.max.1 - 1) as i32),
    {
        [
            Pt(self.min.x(), self.min.y()),
            Pt(self.max.x() - 1, self.min.y()),
            Pt(self.max.x() - 1, self.max.y() - 1),
            Pt(self.min.x(), self.max.y() - 1),
        ]
    }

    /// The two bottom corner points that lie inside the rectangle: right,
    /// then left.
    pub fn vertices_bottom(&self) -> (v: [Pt; 2])
        requires
            self.max.0 > i32::MIN,
            self.max.1 > i32::MIN,
        ensures
            v[0] == Pt((self.max.0 - 1) as i32, (self.max.1 - 1) as i32),
            v[1] == Pt(self.min.0, (self.max.1 - 1) as i32),
    {
        [Pt(self.max.x() - 1, self.max.y() - 1), Pt(self.min.x(), self.max.y() - 1)]
    }

    /// The point halfway between the two corners, rounded toward zero.
    pub fn center(&self) -> (c: Pt)
        requires
            fits_i32(self.min.0 + self.max.0),
            fits_i32(self.min.1 + self.max.1),
        ensures
            c.0 == trunc_div(self.min.0 + self.max.0, 2),
            c.1 == trunc_div(self.min.1 + self.max.1, 2),
    {
        (self.min + self.max) / 2i32
    }

    /// Whether `p` lies inside the half-open rectangle.
    pub fn is_inside(&self, p: Pt) -> (b: bool)
        ensures
            b == self.contains(p),
    {
        p.0 >= self.min.0 && p.0 < self.max.0 && p.1 >= self.min.1 && p.1 < self.max.1
    }

    /// Whether the two half-open rectangles overlap at least in part.
    pub fn overlaps(self, b: &Rect) -> (o: bool)
        ensures
            o == (intervals_meet((self.min.0, self.max.0), (b.min.0, b.max.0)) && intervals_meet(
                (self.min.1, self.max.1),
                (b.min.1, b.max.1),
            )),
    {
        interv_overlap((self.min.0, self.max.0), (b.min.0, b.max.0)) && interv_overlap(
            (self.min.1, self.max.1),
            (b.min.1, b.max.1),
        )
    }
}

/// Whether one of the half-open intervals `a` and `b` holds the start of the
/// other.
pub open spec fn intervals_meet(a: (i32, i32), b: (i32, i32)) -> bool {
    (b.0 <= a.0 < b.1) || (a.0 <= b.0 < a.1)
}

/// Two rectangles that are not empty overlap exactly if they have a point
/// in common.
pub proof fn lemma_overlap_is_common_point(a: Rect, b: Rect)
    requires
        a.min.0 < a.max.0,
        a.min.1 < a.max.1,
        b.min.0 < b.max.0,
        b.min.1 < b.max.1,
    ensures
        (intervals_meet((a.min.0, a.max.0), (b.min.0, b.max.0)) && intervals_meet(
            (a.min.1, a.max.1),
            (b.min.1, b.max.1),
        )) <==> exists|p: Pt| a.contains(p) && b.contains(p),
{
    if intervals_meet((a.min.0, a.max.0), (b.min.0, b.max.0)) && intervals_meet(
        (a.min.1, a.max.1),
        (b.min.1, b.max.1),
    ) {
        let x = if b.min.0 <= a.min.0 {
            a.min.0
        } else {
            b.min.0
        };
        let y = if b.min.1 <= a.min.1 {
            a.min.1
        } else {
            b.min.1
        };
        assert(a.contains(Pt(x, y)) && b.contains(Pt(x, y)));
    }
}

/// Whether the half-open intervals `a` and `b` overlap at least in part.
#[inline]
pub fn interv_overlap(a: (i32, i32), b: (i32, i32)) -> (o: bool)
    ensures
        o == intervals_meet(a, b),
{
    inside_interv(a.0, b) || inside_interv(b.0, a)
}

/// Whether `x` lies in the half-open interval `i`.
#[inline]
pub fn inside_interv(x: i32, i: (i32, i32)) -> (b: bool)
    ensures
        b == (i.0 <= x < i.1),
{
    x >= i.0 && x < i.1
}

} // verus!
