use core::ops::{Add, Mul, Neg, Sub};
use vstd::prelude::*;
use vstd::std_specs::ops::{
    AddSpec, AddSpecImpl, MulSpec, MulSpecImpl, NegSpec, NegSpecImpl, SubSpec, SubSpecImpl,
};

verus! {

/// A vector of two components, used both for points and for directions.
#[derive(Copy, Clone, PartialEq, Eq, Debug)]
pub struct Vector2<T>(pub T, pub T);

/// A pair of signed pixel coordinates.
pub type Int2 = Vector2<i32>;

/// A pair of unsigned indices.
pub type Usize2 = Vector2<usize>;

#[inline]
#[allow(non_snake_case)]
pub fn Int2(x: i32, y: i32) -> (v: Int2)
    ensures
        v == Vector2(x, y),
{
    Vector2(x, y)
}

#[inline]
#[allow(non_snake_case)]
pub fn Usize2(x: usize, y: usize) -> (v: Usize2)
    ensures
        v == Vector2(x, y),
{
    Vector2(x, y)
}

impl<T: Copy> Vector2<T> {
    #[inline]
    pub fn x(&self) -> (v: T)
        ensures
            v == self.0,
    {
        self.0
    }

    #[inline]
    pub fn y(&self) -> (v: T)
        ensures
            v == self.1,
    {
        self.1
    }
}

/// Whether `p` can be what `a * b` gives.
pub open spec fn is_product<T: Mul<T, Output = T>>(a: T, b: T, p: T) -> bool {
    call_ensures(T::mul, (a, b), p)
}

/// Whether `s` can be what `a + b` gives.
pub open spec fn is_sum<T: Add<T, Output = T>>(a: T, b: T, s: T) -> bool {
    call_ensures(T::add, (a, b), s)
}

/// Whether `d` can be what `a - b` gives.
pub open spec fn is_difference<T: Sub<T, Output = T>>(a: T, b: T, d: T) -> bool {
    call_ensures(T::sub, (a, b), d)
}

/// Whether `x + y * t` can be computed: the product, and then the sum with
/// whatever the product gives.
pub open spec fn can_fma<T: Add<T, Output = T> + Mul<T, Output = T>>(x: T, y: T, t: T) -> bool {
    &&& call_requires(T::mul, (y, t))
    &&& forall|p: T| #[trigger] is_product(y, t, p) ==> call_requires(T::add, (x, p))
}

/// Whether `r` can be what `x + y * t` gives.
pub open spec fn is_fma<T: Add<T, Output = T> + Mul<T, Output = T>>(
    x: T,
    y: T,
    t: T,
    r: T,
) -> bool {
    exists|p: T| #[trigger] is_product(y, t, p) && is_sum(x, p, r)
}

/// Whether `a0 * b0 + a1 * b1` can be computed.
pub open spec fn can_dot2<T: Add<T, Output = T> + Mul<T, Output = T>>(
    a0: T,
    b0: T,
    a1: T,
    b1: T,
) -> bool {
    &&& call_requires(T::mul, (a0, b0))
    &&& call_requires(T::mul, (a1, b1))
    &&& forall|p0: T, p1: T|
        #[trigger] is_product(a0, b0, p0) && #[trigger] is_product(a1, b1, p1) ==> call_requires(
            T::add,
            (p0, p1),
        )
}

/// Whether `d` can be what `a0 * b0 + a1 * b1` gives.
pub open spec fn is_dot2<T: Add<T, Output = T> + Mul<T, Output = T>>(
    a0: T,
    b0: T,
    a1: T,
    b1: T,
    d: T,
) -> bool {
    exists|p0: T, p1: T|
        #[trigger] is_product(a0, b0, p0) && #[trigger] is_product(a1, b1, p1) && is_sum(p0, p1, d)
}

impl<T> Vector2<T> where T: Add<T, Output = T> + Mul<T, Output = T> + Sub<T, Output = T> + Copy {
    /// This vector plus `t` times `b`. Where the components' arithmetic is
    /// specified, the result is what the specification says.
    #[inline]
    pub fn fmadd(self, t: T, b: Self) -> (r: Self)
        requires
            can_fma(self.0, b.0, t),
            can_fma(self.1, b.1, t),
        ensures
            is_fma(self.0, b.0, t, r.0),
            is_fma(self.1, b.1, t, r.1),
            T::obeys_mul_spec() && T::obeys_add_spec() ==> r == Vector2(
                self.0.add_spec(b.0.mul_spec(t)),
                self.1.add_spec(b.1.mul_spec(t)),
            ),
    {
        let p0 = b.0 * t;
        let p1 = b.1 * t;
        assert(is_product(b.0, t, p0) && is_product(b.1, t, p1));
        Vector2(self.0 + p0, self.1 + p1)
    }

    /// The inner product with `rhs`. Where the components' arithmetic is
    /// specified, the result is what the specification says.
    #[inline]
    pub fn dot(self, rhs: Self) -> (d: T)
        requires
            can_dot2(self.0, rhs.0, self.1, rhs.1),
        ensures
            is_dot2(self.0, rhs.0, self.1, rhs.1, d),
            T::obeys_mul_spec() && T::obeys_add_spec() ==> d == self.0.mul_spec(rhs.0).add_spec(
                self.1.mul_spec(rhs.1),
            ),
    {
        let p0 = self.0 * rhs.0;
        let p1 = self.1 * rhs.1;
        assert(is_product(self.0, rhs.0, p0) && is_product(self.1, rhs.1, p1));
        p0 + p1
    }
}

impl<T: Default> Default for Vector2<T> {
    fn default() -> (v: Self)
        ensures
            call_ensures(T::default, (), v.0),
            call_ensures(T::default, (), v.1),
    {
        Vector2(T::default(), T::default())
    }
}

impl<T> Add for Vector2<T> where T: Add<T, Output = T> + Copy {
    type Output = Self;

    /// The sum, component by component.
    #[inline]
    fn add(self, rhs: Vector2<T>) -> (r: Self)
        ensures
            is_sum(self.0, rhs.0, r.0),
            is_sum(self.1, rhs.1, r.1),
    {
        Vector2(self.0 + rhs.0, self.1 + rhs.1)
    }
}

impl<T> AddSpecImpl for Vector2<T> where T: Add<T, Output = T> + Copy {
    open spec fn obeys_add_spec() -> bool {
        T::obeys_add_spec()
    }

    open spec fn add_req(self, rhs: Vector2<T>) -> bool {
        call_requires(T::add, (self.0, rhs.0)) && call_requires(T::add, (self.1, rhs.1))
    }

    open spec fn add_spec(self, rhs: Vector2<T>) -> Vector2<T> {
        Vector2(self.0.add_spec(rhs.0), self.1.add_spec(rhs.1))
    }
}

impl<T> Sub for Vector2<T> where T: Sub<T, Output = T> + Copy {
    type Output = Self;

    /// The difference, component by component.
    #[inline]
    fn sub(self, rhs: Vector2<T>) -> (r: Self)
        ensures
            is_difference(self.0, rhs.0, r.0),
            is_difference(self.1, rhs.1, r.1),
    {
        Vector2(self.0 - rhs.0, self.1 - rhs.1)
    }
}

impl<T> SubSpecImpl for Vector2<T> where T: Sub<T, Output = T> + Copy {
    open spec fn obeys_sub_spec() -> bool {
        T::obeys_sub_spec()
    }

    open spec fn sub_req(self, rhs: Vector2<T>) -> bool {
        call_requires(T::sub, (self.0, rhs.0)) && call_requires(T::sub, (self.1, rhs.1))
    }

    open spec fn sub_spec(self, rhs: Vector2<T>) -> Vector2<T> {
        Vector2(self.0.sub_spec(rhs.0), self.1.sub_spec(rhs.1))
    }
}

impl<T> Mul<T> for Vector2<T> where T: Mul<T, Output = T> + Copy {
    type Output = Self;

    /// The vector with every component multiplied by `rhs`.
    #[inline]
    fn mul(self, rhs: T) -> (r: Self)
        ensures
            is_product(self.0, rhs, r.0),
            is_product(self.1, rhs, r.1),
    {
        Vector2(self.0 * rhs, self.1 * rhs)
    }
}

impl<T> MulSpecImpl<T> for Vector2<T> where T: Mul<T, Output = T> + Copy {
    open spec fn obeys_mul_spec() -> bool {
        T::obeys_mul_spec()
    }

    open spec fn mul_req(self, rhs: T) -> bool {
        call_requires(T::mul, (self.0, rhs)) && call_requires(T::mul, (self.1, rhs))
    }

    open spec fn mul_spec(self, rhs: T) -> Vector2<T> {
        Vector2(self.0.mul_spec(rhs), self.1.mul_spec(rhs))
    }
}

impl<T> Neg for Vector2<T> where T: Neg<Output = T> + Copy {
    type Output = Self;

    /// The vector with every component negated.
    #[inline]
    fn neg(self) -> (r: Self)
        ensures
            call_ensures(T::neg, (self.0,), r.0),
            call_ensures(T::neg, (self.1,), r.1),
    {
        Vector2(self.0.neg(), self.1.neg())
    }
}

impl<T> NegSpecImpl for Vector2<T> where T: Neg<Output = T> + Copy {
    open spec fn obeys_neg_spec() -> bool {
        T::obeys_neg_spec()
    }

    open spec fn neg_req(self) -> bool {
        call_requires(T::neg, (self.0,)) && call_requires(T::neg, (self.1,))
    }

    open spec fn neg_spec(self) -> Vector2<T> {
        Vector2(self.0.neg_spec(), self.1.neg_spec())
    }
}

} // verus!
