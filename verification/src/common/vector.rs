use crate::common::vector2::{
    can_dot2, can_fma, is_difference, is_dot2, is_fma, is_product, is_sum, Vector2,
};
use core::ops::{Add, Mul, Neg, Sub};
use vstd::prelude::*;
use vstd::std_specs::ops::{
    AddSpec, AddSpecImpl, MulSpec, MulSpecImpl, NegSpec, NegSpecImpl, SubSpec, SubSpecImpl,
};

verus! {

/// A vector of three components, used both for points in space and for
/// directions.
#[derive(Copy, Clone, PartialEq, Debug)]
pub struct Vector<T>(pub T, pub T, pub T);

impl<T: Copy> Vector<T> {
    /// The first two components.
    #[inline]
    pub fn xy(&self) -> (v: Vector2<T>)
        ensures
            v == Vector2(self.0, self.1),
    {
        Vector2(self.x(), self.y())
    }

    #[inline]
    pub fn x(&self) -> (v: T)
        ensures
            v == self.0,
    {
        self.0
    }

    #[inline]
    pub fn y(&self) -> (v: T)
        ensures
            v == self.1,
    {
        self.1
    }

    #[inline]
    pub fn z(&self) -> (v: T)
        ensures
            v == self.2,
    {
        self.2
    }
}

/// Whether `a0 * b0 + a1 * b1 + a2 * b2` can be computed, added up from
/// the left.
pub open spec fn can_dot3<T: Add<T, Output = T> + Mul<T, Output = T>>(
    a0: T,
    b0: T,
    a1: T,
    b1: T,
    a2: T,
    b2: T,
) -> bool {
    &&& can_dot2(a0, b0, a1, b1)
    &&& call_requires(T::mul, (a2, b2))
    &&& forall|s: T, p2: T|
        #[trigger] is_dot2(a0, b0, a1, b1, s) && #[trigger] is_product(a2, b2, p2)
            ==> call_requires(T::add, (s, p2))
}

/// Whether `d` can be what `a0 * b0 + a1 * b1 + a2 * b2` gives, added up
/// from the left.
pub open spec fn is_dot3<T: Add<T, Output = T> + Mul<T, Output = T>>(
    a0: T,
    b0: T,
    a1: T,
    b1: T,
    a2: T,
    b2: T,
    d: T,
) -> bool {
    exists|s: T, p2: T|
        #[trigger] is_dot2(a0, b0, a1, b1, s) && #[trigger] is_product(a2, b2, p2) && is_sum(
            s,
            p2,
            d,
        )
}

/// Whether `a * b - c * d` can be computed.
pub open spec fn can_det2<T: Sub<T, Output = T> + Mul<T, Output = T>>(
    a: T,
    b: T,
    c: T,
    d: T,
) -> bool {
    &&& call_requires(T::mul, (a, b))
    &&& call_requires(T::mul, (c, d))
    &&& forall|p: T, q: T|
        #[trigger] is_product(a, b, p) && #[trigger] is_product(c, d, q) ==> call_requires(
            T::sub,
            (p, q),
        )
}

/// Whether `r` can be what `a * b - c * d` gives.
pub open spec fn is_det2<T: Sub<T, Output = T> + Mul<T, Output = T>>(
    a: T,
    b: T,
    c: T,
    d: T,
    r: T,
) -> bool {
    exists|p: T, q: T|
        #[trigger] is_product(a, b, p) && #[trigger] is_product(c, d, q) && is_difference(p, q, r)
}

impl<T> Vector<T> where T: Add<T, Output = T> + Mul<T, Output = T> + Sub<T, Output = T> + Copy {
    /// This vector plus `t` times `b`. Where the components' arithmetic is
    /// specified, the result is what the specification says.
    #[inline]
    pub fn fmadd(self, t: T, b: Self) -> (r: Self)
        requires
            can_fma(self.0, b.0, t),
            can_fma(self.1, b.1, t),
            can_fma(self.2, b.2, t),
        ensures
            is_fma(self.0, b.0, t, r.0),
            is_fma(self.1, b.1, t, r.1),
            is_fma(self.2, b.2, t, r.2),
            T::obeys_mul_spec() && T::obeys_add_spec() ==> r == Vector(
                self.0.add_spec(b.0.mul_spec(t)),
                self.1.add_spec(b.1.mul_spec(t)),
                self.2.add_spec(b.2.mul_spec(t)),
            ),
    {
        let p0 = b.0 * t;
        let p1 = b.1 * t;
        let p2 = b.2 * t;
        assert(is_product(b.0, t, p0) && is_product(b.1, t, p1) && is_product(b.2, t, p2));
        Vector(self.0 + p0, self.1 + p1, self.2 + p2)
    }

    /// The inner product with `rhs`. Where the components' arithmetic is
    /// specified, the result is what the specification says.
    #[inline]
    pub fn dot(self, rhs: Self) -> (d: T)
        requires
            can_dot3(self.0, rhs.0, self.1, rhs.1, self.2, rhs.2),
        ensures
            is_dot3(self.0, rhs.0, self.1, rhs.1, self.2, rhs.2, d),
            T::obeys_mul_spec() && T::obeys_add_spec() ==> d == self.0.mul_spec(rhs.0).add_spec(
                self.1.mul_spec(rhs.1),
            ).add_spec(self.2.mul_spec(rhs.2)),
    {
        dot3(self.0, rhs.0, self.1, rhs.1, self.2, rhs.2)
    }

    /// The cross product with `rhs`. Where the components' arithmetic is
    /// specified, the result is what the specification says.
    #[inline]
    pub fn cross(self, rhs: Self) -> (r: Self)
        requires
            can_det2(self.1, rhs.2, self.2, rhs.1),
            can_det2(self.2, rhs.0, self.0, rhs.2),
            can_det2(self.0, rhs.1, self.1, rhs.0),
        ensures
            is_det2(self.1, rhs.2, self.2, rhs.1, r.0),
            is_det2(self.2, rhs.0, self.0, rhs.2, r.1),
            is_det2(self.0, rhs.1, self.1, rhs.0, r.2),
            T::obeys_mul_spec() && T::obeys_sub_spec() ==> r == Vector(
                self.1.mul_spec(rhs.2).sub_spec(self.2.mul_spec(rhs.1)),
                self.2.mul_spec(rhs.0).sub_spec(self.0.mul_spec(rhs.2)),
                self.0.mul_spec(rhs.1).sub_spec(self.1.mul_spec(rhs.0)),
            ),
    {
        Vector(
            det2(self.1, rhs.2, self.2, rhs.1),
            det2(self.2, rhs.0, self.0, rhs.2),
            det2(self.0, rhs.1, self.1, rhs.0),
        )
    }
}

/// `a0 * b0 + a1 * b1 + a2 * b2`, added up from the left.
pub fn dot3<T: Add<T, Output = T> + Mul<T, Output = T> + Copy>(
    a0: T,
    b0: T,
    a1: T,
    b1: T,
    a2: T,
    b2: T,
) -> (d: T)
    requires
        can_dot3(a0, b0, a1, b1, a2, b2),
    ensures
        is_dot3(a0, b0, a1, b1, a2, b2, d),
        T::obeys_mul_spec() && T::obeys_add_spec() ==> d == a0.mul_spec(b0).add_spec(
            a1.mul_spec(b1),
        ).add_spec(a2.mul_spec(b2)),
{
    let p0 = a0 * b0;
    let p1 = a1 * b1;
    assert(is_product(a0, b0, p0) && is_product(a1, b1, p1));
    let s = p0 + p1;
    let p2 = a2 * b2;
    assert(is_dot2(a0, b0, a1, b1, s) && is_product(a2, b2, p2));
    s + p2
}

/// `a * b - c * d`.
pub fn det2<T: Sub<T, Output = T> + Mul<T, Output = T> + Copy>(a: T, b: T, c: T, d: T) -> (r: T)
    requires
        can_det2(a, b, c, d),
    ensures
        is_det2(a, b, c, d, r),
        T::obeys_mul_spec() && T::obeys_sub_spec() ==> r == a.mul_spec(b).sub_spec(c.mul_spec(d)),
{
    let p = a * b;
    let q = c * d;
    assert(is_product(a, b, p) && is_product(c, d, q));
    p - q
}

impl<T: Default> Default for Vector<T> {
    fn default() -> (v: Self)
        ensures
            call_ensures(T::default, (), v.0),
            call_ensures(T::default, (), v.1),
            call_ensures(T::default, (), v.2),
    {
        Vector(T::default(), T::default(), T::default())
    }
}

impl<T> Add for Vector<T> where T: Add<T, Output = T> + Copy {
    type Output = Self;

    /// The sum, component by component.
    #[inline]
    fn add(self, rhs: Vector<T>) -> (r: Self)
        ensures
            is_sum(self.0, rhs.0, r.0),
            is_sum(self.1, rhs.1, r.1),
            is_sum(self.2, rhs.2, r.2),
    {
        Vector(self.0 + rhs.0, self.1 + rhs.1, self.2 + rhs.2)
    }
}

impl<T> AddSpecImpl for Vector<T> where T: Add<T, Output = T> + Copy {
    open spec fn obeys_add_spec() -> bool {
        T::obeys_add_spec()
    }

    open spec fn add_req(self, rhs: Vector<T>) -> bool {
        &&& call_requires(T::add, (self.0, rhs.0))
        &&& call_requires(T::add, (self.1, rhs.1))
        &&& call_requires(T::add, (self.2, rhs.2))
    }

    open spec fn add_spec(self, rhs: Vector<T>) -> Vector<T> {
        Vector(self.0.add_spec(rhs.0), self.1.add_spec(rhs.1), self.2.add_spec(rhs.2))
    }
}

impl<T> Sub for Vector<T> where T: Sub<T, Output = T> + Copy {
    type Output = Self;

    /// The difference, component by component.
    #[inline]
    fn sub(self, rhs: Vector<T>) -> (r: Self)
        ensures
            is_difference(self.0, rhs.0, r.0),
            is_difference(self.1, rhs.1, r.1),
            is_difference(self.2, rhs.2, r.2),
    {
        Vector(self.0 - rhs.0, self.1 - rhs.1, self.2 - rhs.2)
    }
}

impl<T> SubSpecImpl for Vector<T> where T: Sub<T, Output = T> + Copy {
    open spec fn obeys_sub_spec() -> bool {
        T::obeys_sub_spec()
    }

    open spec fn sub_req(self, rhs: Vector<T>) -> bool {
        &&& call_requires(T::sub, (self.0, rhs.0))
        &&& call_requires(T::sub, (self.1, rhs.1))
        &&& call_requires(T::sub, (self.2, rhs.2))
    }

    open spec fn sub_spec(self, rhs: Vector<T>) -> Vector<T> {
        Vector(self.0.sub_spec(rhs.0), self.1.sub_spec(rhs.1), self.2.sub_spec(rhs.2))
    }
}

impl<T> Mul<T> for Vector<T> where T: Mul<T, Output = T> + Copy {
    type Output = Self;

    /// The vector with every component multiplied by `rhs`.
    #[inline]
    fn mul(self, rhs: T) -> (r: Self)
        ensures
            is_product(self.0, rhs, r.0),
            is_product(self.1, rhs, r.1),
            is_product(self.2, rhs, r.2),
    {
        Vector(self.0 * rhs, self.1 * rhs, self.2 * rhs)
    }
}

impl<T> MulSpecImpl<T> for Vector<T> where T: Mul<T, Output = T> + Copy {
    open spec fn obeys_mul_spec() -> bool {
        T::obeys_mul_spec()
    }

    open spec fn mul_req(self, rhs: T) -> bool {
        &&& call_requires(T::mul, (self.0, rhs))
        &&& call_requires(T::mul, (self.1, rhs))
        &&& call_requires(T::mul, (self.2, rhs))
    }

    open spec fn mul_spec(self, rhs: T) -> Vector<T> {
        Vector(self.0.mul_spec(rhs), self.1.mul_spec(rhs), self.2.mul_spec(rhs))
    }
}

impl<T> Neg for Vector<T> where T: Neg<Output = T> + Copy {
    type Output = Self;

    /// The vector with every component negated.
    #[inline]
    fn neg(self) -> (r: Self)
        ensures
            call_ensures(T::neg, (self.0,), r.0),
            call_ensures(T::neg, (self.1,), r.1),
            call_ensures(T::neg, (self.2,), r.2),
    {
        Vector(self.0.neg(), self.1.neg(), self.2.neg())
    }
}

impl<T> NegSpecImpl for Vector<T> where T: Neg<Output = T> + Copy {
    open spec fn obeys_neg_spec() -> bool {
        T::obeys_neg_spec()
    }

    open spec fn neg_req(self) -> bool {
        &&& call_requires(T::neg, (self.0,))
        &&& call_requires(T::neg, (self.1,))
        &&& call_requires(T::neg, (self.2,))
    }

    open spec fn neg_spec(self) -> Vector<T> {
        Vector(self.0.neg_spec(), self.1.neg_spec(), self.2.neg_spec())
    }
}

impl<T> core::ops::Index<usize> for Vector<T> {
    type Output = T;

    /// Component `idx`: 0, 1 or 2.
    #[inline]
    fn index(&self, idx: usize) -> (v: &T)
        ensures
            *v == if idx == 0 {
                self.0
            } else if idx == 1 {
                self.1
            } else {
                self.2
            },
    {
        if idx == 0 {
            &self.0
        } else if idx == 1 {
            &self.1
        } else {
            &self.2
        }
    }
}

impl<T> vstd::std_specs::core::IndexSpecImpl<usize> for Vector<T> {
    open spec fn index_req(&self, idx: &usize) -> bool {
        *idx < 3
    }
}

/// The cross product of two vectors of integers is orthogonal to both.
pub proof fn lemma_cross_orthogonal(a: Vector<int>, b: Vector<int>)
    ensures
        a.0 * (a.1 * b.2 - a.2 * b.1) + a.1 * (a.2 * b.0 - a.0 * b.2) + a.2 * (a.0 * b.1 - a.1
            * b.0) == 0,
        b.0 * (a.1 * b.2 - a.2 * b.1) + b.1 * (a.2 * b.0 - a.0 * b.2) + b.2 * (a.0 * b.1 - a.1
            * b.0) == 0,
{
    assert(a.0 * (a.1 * b.2 - a.2 * b.1) + a.1 * (a.2 * b.0 - a.0 * b.2) + a.2 * (a.0 * b.1 - a.1
        * b.0) == 0) by (nonlinear_arith);
    assert(b.0 * (a.1 * b.2 - a.2 * b.1) + b.1 * (a.2 * b.0 - a.0 * b.2) + b.2 * (a.0 * b.1 - a.1
        * b.0) == 0) by (nonlinear_arith);
}

} // verus!
