use crate::common::vector::{can_dot3, dot3, is_dot3, Vector};
use core::ops::{Add, Mul};
use vstd::prelude::*;
use vstd::std_specs::ops::{AddSpec, MulSpec};

verus! {

/// A 3x3 matrix, held as its three columns.
#[derive(Copy, Clone, PartialEq, Debug)]
pub struct Matrix<T>(pub Vector<T>, pub Vector<T>, pub Vector<T>);

impl<T: Default + Copy> Matrix<T> {
    /// The matrix whose nine entries are default values of `T`.
    pub fn new() -> (m: Self)
        ensures
            forall|i: int, j: int| 0 <= i < 3 && 0 <= j < 3 ==> call_ensures(
                T::default,
                (),
                #[trigger] m.entry(i, j),
            ),
    {
        Matrix(Vector::default(), Vector::default(), Vector::default())
    }
}

impl<T> Matrix<T> {
    /// Column `i`.
    pub open spec fn column(self, i: int) -> Vector<T> {
        if i == 0 {
            self.0
        } else if i == 1 {
            self.1
        } else {
            self.2
        }
    }

    /// The entry in column `i`, row `j`.
    pub open spec fn entry(self, i: int, j: int) -> T {
        let c = self.column(i);
        if j == 0 {
            c.0
        } else if j == 1 {
            c.1
        } else {
            c.2
        }
    }
}

impl<T> core::ops::Index<usize> for Matrix<T> {
    type Output = Vector<T>;

    /// Column `i` as a vector.
    #[inline]
    fn index(&self, i: usize) -> (v: &Vector<T>)
        ensures
            *v == self.column(i as int),
    {
        if i == 0 {
            &self.0
        } else if i == 1 {
            &self.1
        } else {
            &self.2
        }
    }
}

impl<T> vstd::std_specs::core::IndexSpecImpl<usize> for Matrix<T> {
    open spec fn index_req(&self, i: &usize) -> bool {
        *i < 3
    }
}

impl<T> Mul<Vector<T>> for Matrix<T> where T: Add<T, Output = T> + Mul<T, Output = T> + Copy {
    type Output = Vector<T>;

    /// Matrix times vector.
    fn mul(self, rhs: Vector<T>) -> (r: Vector<T>)
        ensures
            is_dot3(self.0.0, rhs.0, self.1.0, rhs.1, self.2.0, rhs.2, r.0),
            is_dot3(self.0.1, rhs.0, self.1.1, rhs.1, self.2.1, rhs.2, r.1),
            is_dot3(self.0.2, rhs.0, self.1.2, rhs.1, self.2.2, rhs.2, r.2),
    {
        Vector(
            dot3(self.0.0, rhs.0, self.1.0, rhs.1, self.2.0, rhs.2),
            dot3(self.0.1, rhs.0, self.1.1, rhs.1, self.2.1, rhs.2),
            dot3(self.0.2, rhs.0, self.1.2, rhs.1, self.2.2, rhs.2),
        )
    }
}

impl<T> vstd::std_specs::ops::MulSpecImpl<Vector<T>> for Matrix<T> where T: Add<T, Output = T> + Mul<T, Output = T> + Copy {
    open spec fn obeys_mul_spec() -> bool {
        T::obeys_mul_spec() && T::obeys_add_spec()
    }

    open spec fn mul_req(self, rhs: Vector<T>) -> bool {
        &&& can_dot3(self.0.0, rhs.0, self.1.0, rhs.1, self.2.0, rhs.2)
        &&& can_dot3(self.0.1, rhs.0, self.1.1, rhs.1, self.2.1, rhs.2)
        &&& can_dot3(self.0.2, rhs.0, self.1.2, rhs.1, self.2.2, rhs.2)
    }

    open spec fn mul_spec(self, rhs: Vector<T>) -> Vector<T> {
        Vector(
            self.0.0.mul_spec(rhs.0).add_spec(self.1.0.mul_spec(rhs.1)).add_spec(
                self.2.0.mul_spec(rhs.2),
            ),
            self.0.1.mul_spec(rhs.0).add_spec(self.1.1.mul_spec(rhs.1)).add_spec(
                self.2.1.mul_spec(rhs.2),
            ),
            self.0.2.mul_spec(rhs.0).add_spec(self.1.2.mul_spec(rhs.1)).add_spec(
                self.2.2.mul_spec(rhs.2),
            ),
        )
    }
}

impl<T> Mul<T> for Matrix<T> where T: Mul<T, Output = T> + Copy {
    type Output = Matrix<T>;

    /// Matrix times number.
    fn mul(self, rhs: T) -> Matrix<T> {
        Matrix(self.0 * rhs, self.1 * rhs, self.2 * rhs)
    }
}

impl<T> vstd::std_specs::ops::MulSpecImpl<T> for Matrix<T> where T: Mul<T, Output = T> + Copy {
    open spec fn obeys_mul_spec() -> bool {
        T::obeys_mul_spec()
    }

    open spec fn mul_req(self, rhs: T) -> bool {
        MulSpec::mul_req(self.0, rhs) && MulSpec::mul_req(self.1, rhs) && MulSpec::mul_req(
            self.2,
            rhs,
        )
    }

    open spec fn mul_spec(self, rhs: T) -> Matrix<T> {
        Matrix(
            MulSpec::mul_spec(self.0, rhs),
            MulSpec::mul_spec(self.1, rhs),
            MulSpec::mul_spec(self.2, rhs),
        )
    }
}

impl<T> Mul<Matrix<T>> for Matrix<T> where T: Add<T, Output = T> + Mul<T, Output = T> + Copy {
    type Output = Matrix<T>;

    /// Matrix times matrix: column `i` of the product is this matrix times
    /// column `i` of `rhs`.
    fn mul(self, rhs: Matrix<T>) -> Matrix<T> {
        Matrix(self * rhs.0, self * rhs.1, self * rhs.2)
    }
}

impl<T> vstd::std_specs::ops::MulSpecImpl<Matrix<T>> for Matrix<T> where T: Add<T, Output = T> + Mul<T, Output = T> + Copy {
    open spec fn obeys_mul_spec() -> bool {
        T::obeys_mul_spec() && T::obeys_add_spec()
    }

    open spec fn mul_req(self, rhs: Matrix<T>) -> bool {
        MulSpec::mul_req(self, rhs.0) && MulSpec::mul_req(self, rhs.1) && MulSpec::mul_req(
            self,
            rhs.2,
        )
    }

    open spec fn mul_spec(self, rhs: Matrix<T>) -> Matrix<T> {
        Matrix(
            MulSpec::mul_spec(self, rhs.0),
            MulSpec::mul_spec(self, rhs.1),
            MulSpec::mul_spec(self, rhs.2),
        )
    }
}

} // verus!
