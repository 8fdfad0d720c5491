use crate::common::math::{div_trunc, trunc_div};
use vstd::prelude::*;
use vstd::std_specs::ops::{AddSpecImpl, DivSpecImpl, MulSpecImpl, NegSpecImpl, SubSpecImpl};

verus! {

/// A point of the plane, or the step from one point to another, in whole
/// units.
#[derive(Copy, Clone, Debug, Eq, PartialEq, Structural, Hash)]
pub struct Pt(pub i32, pub i32);

/// Whether `v` can be held in 32 signed bits.
pub open spec fn fits_i32(v: int) -> bool {
    i32::MIN <= v <= i32::MAX
}

impl Pt {
    #[inline]
    pub fn as_tuple(&self) -> (t: (i32, i32))
        ensures
            t == (self.0, self.1),
    {
        (self.0, self.1)
    }

    #[inline]
    pub fn x(self) -> (v: i32)
        ensures
            v == self.0,
    {
        self.0
    }

    #[inline]
    pub fn y(self) -> (v: i32)
        ensures
            v == self.1,
    {
        self.1
    }

    /// Whether one of the two coordinates is negative.
    #[inline]
    pub fn is_neg(self) -> (b: bool)
        ensures
            b == (self.0 < 0 || self.1 < 0),
    {
        self.0 < 0 || self.1 < 0
    }

    /// Adds `b` to this point.
    pub fn add_assign(&mut self, b: Pt)
        requires
            fits_i32(old(self).0 + b.0),
            fits_i32(old(self).1 + b.1),
        ensures
            final(self).0 == old(self).0 + b.0,
            final(self).1 == old(self).1 + b.1,
    {
        self.0 += b.0;
        self.1 += b.1;
    }
}

impl core::ops::Add<Pt> for Pt {
    type Output = Pt;

    fn add(self, b: Pt) -> Pt {
        Pt(self.0 + b.0, self.1 + b.1)
    }
}

impl AddSpecImpl<Pt> for Pt {
    open spec fn obeys_add_spec() -> bool {
        true
    }

    open spec fn add_req(self, b: Pt) -> bool {
        fits_i32(self.0 + b.0) && fits_i32(self.1 + b.1)
    }

    open spec fn add_spec(self, b: Pt) -> Pt {
        Pt((self.0 + b.0) as i32, (self.1 + b.1) as i32)
    }
}

impl core::ops::Add<(i32, i32)> for Pt {
    type Output = Pt;

    fn add(self, b: (i32, i32)) -> Pt {
        Pt(self.0 + b.0, self.1 + b.1)
    }
}

impl AddSpecImpl<(i32, i32)> for Pt {
    open spec fn obeys_add_spec() -> bool {
        true
    }

    open spec fn add_req(self, b: (i32, i32)) -> bool {
        fits_i32(self.0 + b.0) && fits_i32(self.1 + b.1)
    }

    open spec fn add_spec(self, b: (i32, i32)) -> Pt {
        Pt((self.0 + b.0) as i32, (self.1 + b.1) as i32)
    }
}

impl core::ops::Sub<Pt> for Pt {
    type Output = Pt;

    fn sub(self, b: Pt) -> Pt {
        Pt(self.0 - b.0, self.1 - b.1)
    }
}

impl SubSpecImpl<Pt> for Pt {
    open spec fn obeys_sub_spec() -> bool {
        true
    }

    open spec fn sub_req(self, b: Pt) -> bool {
        fits_i32(self.0 - b.0) && fits_i32(self.1 - b.1)
    }

    open spec fn sub_spec(self, b: Pt) -> Pt {
        Pt((self.0 - b.0) as i32, (self.1 - b.1) as i32)
    }
}

impl core::ops::Sub<(i32, i32)> for Pt {
    type Output = Pt;

    fn sub(self, b: (i32, i32)) -> Pt {
        Pt(self.0 - b.0, self.1 - b.1)
    }
}

impl SubSpecImpl<(i32, i32)> for Pt {
    open spec fn obeys_sub_spec() -> bool {
        true
    }

    open spec fn sub_req(self, b: (i32, i32)) -> bool {
        fits_i32(self.0 - b.0) && fits_i32(self.1 - b.1)
    }

    open spec fn sub_spec(self, b: (i32, i32)) -> Pt {
        Pt((self.0 - b.0) as i32, (self.1 - b.1) as i32)
    }
}

impl core::ops::Neg for Pt {
    type Output = Pt;

    fn neg(self) -> Pt {
        Pt(-self.0, -self.1)
    }
}

impl NegSpecImpl for Pt {
    open spec fn obeys_neg_spec() -> bool {
        true
    }

    open spec fn neg_req(self) -> bool {
        self.0 > i32::MIN && self.1 > i32::MIN
    }

    open spec fn neg_spec(self) -> Pt {
        Pt((-self.0) as i32, (-self.1) as i32)
    }
}

impl core::ops::Mul<i32> for Pt {
    type Output = Pt;

    fn mul(self, b: i32) -> Pt {
        Pt(self.0 * b, self.1 * b)
    }
}

impl MulSpecImpl<i32> for Pt {
    open spec fn obeys_mul_spec() -> bool {
        true
    }

    open spec fn mul_req(self, b: i32) -> bool {
        fits_i32(self.0 * b) && fits_i32(self.1 * b)
    }

    open spec fn mul_spec(self, b: i32) -> Pt {
        Pt((self.0 * b) as i32, (self.1 * b) as i32)
    }
}

impl core::ops::Mul<usize> for Pt {
    type Output = Pt;

    fn mul(self, b: usize) -> Pt {
        Pt(self.0 * (b as i32), self.1 * (b as i32))
    }
}

impl MulSpecImpl<usize> for Pt {
    open spec fn obeys_mul_spec() -> bool {
        true
    }

    open spec fn mul_req(self, b: usize) -> bool {
        b <= i32::MAX && fits_i32(self.0 * b) && fits_i32(self.1 * b)
    }

    open spec fn mul_spec(self, b: usize) -> Pt {
        Pt((self.0 * b) as i32, (self.1 * b) as i32)
    }
}

impl core::ops::Div<i32> for Pt {
    type Output = Pt;

    fn div(self, b: i32) -> Pt {
        Pt(div_trunc(self.0, b), div_trunc(self.1, b))
    }
}

impl DivSpecImpl<i32> for Pt {
    open spec fn obeys_div_spec() -> bool {
        true
    }

    open spec fn div_req(self, b: i32) -> bool {
        b != 0 && !(b == -1 && (self.0 == i32::MIN || self.1 == i32::MIN))
    }

    open spec fn div_spec(self, b: i32) -> Pt {
        Pt(trunc_div(self.0 as int, b as int) as i32, trunc_div(self.1 as int, b as int) as i32)
    }
}

impl core::ops::Div<usize> for Pt {
    type Output = Pt;

    fn div(self, b: usize) -> Pt {
        Pt(div_trunc(self.0, b as i32), div_trunc(self.1, b as i32))
    }
}

impl DivSpecImpl<usize> for Pt {
    open spec fn obeys_div_spec() -> bool {
        true
    }

    open spec fn div_req(self, b: usize) -> bool {
        0 < b <= i32::MAX
    }

    open spec fn div_spec(self, b: usize) -> Pt {
        Pt(trunc_div(self.0 as int, b as int) as i32, trunc_div(self.1 as int, b as int) as i32)
    }
}

impl core::ops::Index<usize> for Pt {
    type Output = i32;

    /// Coordinate `i`: 0 for x, 1 for y.
    fn index(&self, i: usize) -> (v: &i32)
        ensures
            *v == if i == 0 {
                self.0
            } else {
                self.1
            },
    {
        if i == 0 {
            &self.0
        } else {
            &self.1
        }
    }
}

impl vstd::std_specs::core::IndexSpecImpl<usize> for Pt {
    open spec fn index_req(&self, i: &usize) -> bool {
        *i < 2
    }
}

} // verus!
