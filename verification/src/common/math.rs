use vstd::prelude::*;
use vstd::std_specs::cmp::{PartialOrdIs, PartialOrdSpec};

verus! {

/// The sign of `x`: -1, 0 or 1.
pub fn signum(x: i32) -> (s: i32)
    ensures
        s == if x > 0 {
            1int
        } else if x < 0 {
            -1
        } else {
            0
        },
{
    if x == 0 {
        0
    } else if x > 0 {
        1
    } else {
        -1
    }
}

/// The absolute value of `x`.
pub fn abs(x: i32) -> (a: i32)
    requires
        x > i32::MIN,
    ensures
        a == if x < 0 {
            -x
        } else {
            x as int
        },
{
    if x < 0 {
        -x
    } else {
        x
    }
}

/// `x` limited to the range from `min` to `max`, both included.
pub fn clamp(x: i32, min: i32, max: i32) -> (c: i32)
    requires
        min <= max,
    ensures
        c == if x < min {
            min
        } else if x > max {
            max
        } else {
            x
        },
{
    let mut x = x;
    if x < min {
        x = min
    }
    if x > max {
        x = max
    }
    x
}

/// Rectify: `x` if it is greater than the default value of its type (zero,
/// for a number), else that default value.
pub fn re<T: PartialOrd + Default>(x: T) -> (r: T)
    ensures
        T::obeys_partial_cmp_spec() ==> exists|zero: T| #[trigger]
            call_ensures(T::default, (), zero) && r == if x.is_gt(&zero) {
                x
            } else {
                zero
            },
        exists|zero: T, greater: bool| #[trigger]
            call_ensures(T::default, (), zero) && #[trigger] call_ensures(
                T::gt,
                (&x, &zero),
                greater,
            ) && r == if greater {
                x
            } else {
                zero
            },
{
    let zero = T::default();
    if x > zero {
        x
    } else {
        zero
    }
}

/// The greater of `x` and `y`; `y` where neither is greater.
pub fn max<T: PartialOrd>(x: T, y: T) -> (m: T)
    ensures
        T::obeys_partial_cmp_spec() ==> m == if x.is_gt(&y) {
            x
        } else {
            y
        },
        exists|greater: bool| #[trigger]
            call_ensures(T::gt, (&x, &y), greater) && m == if greater {
                x
            } else {
                y
            },
{
    if x > y {
        x
    } else {
        y
    }
}

/// The lesser of `x` and `y`; `y` where neither is less.
pub fn min<T: PartialOrd>(x: T, y: T) -> (m: T)
    ensures
        T::obeys_partial_cmp_spec() ==> m == if x.is_lt(&y) {
            x
        } else {
            y
        },
        exists|less: bool| #[trigger]
            call_ensures(T::lt, (&x, &y), less) && m == if less {
                x
            } else {
                y
            },
{
    if x < y {
        x
    } else {
        y
    }
}

/// The quotient of `a` by `b`, rounded toward zero.
pub open spec fn trunc_div(a: int, b: int) -> int {
    let q = (if a < 0 {
        -a
    } else {
        a
    }) / (if b < 0 {
        -b
    } else {
        b
    });
    if (a < 0) != (b < 0) {
        -q
    } else {
        q
    }
}

/// What is left of `a` after taking out `b` as often as `trunc_div` says:
/// it has the sign of `a`.
pub open spec fn trunc_rem(a: int, b: int) -> int {
    a - b * trunc_div(a, b)
}

/// The quotient of `a` by `b`, rounded toward zero.
pub fn div_trunc(a: i32, b: i32) -> (q: i32)
    requires
        b != 0,
        !(a == i32::MIN && b == -1),
    ensures
        q == trunc_div(a as int, b as int),
{
    let ua: i64 = if a < 0 {
        -(a as i64)
    } else {
        a as i64
    };
    let ub: i64 = if b < 0 {
        -(b as i64)
    } else {
        b as i64
    };
    let uq: i64 = ua / ub;
    proof {
        assert(0 <= ua / ub <= ua) by (nonlinear_arith)
            requires
                ua >= 0,
                ub >= 1,
        ;
        if ua == 0x8000_0000 && ub == 1 {
            assert(ua / ub == ua) by (nonlinear_arith)
                requires
                    ub == 1,
            ;
        }
        if ub >= 2 {
            assert(ua / ub <= ua / 2) by (nonlinear_arith)
                requires
                    ua >= 0,
                    ub >= 2,
            ;
        }
    }
    if (a < 0) != (b < 0) {
        (-uq) as i32
    } else {
        uq as i32
    }
}

/// The remainder of `a` by `b` that goes with `div_trunc`.
pub fn rem_trunc(a: i32, b: i32) -> (r: i32)
    requires
        b != 0,
    ensures
        r == trunc_rem(a as int, b as int),
{
    if a == i32::MIN && b == -1 {
        proof {
            assert(trunc_div(a as int, b as int) == 0x8000_0000) by (nonlinear_arith)
                requires
                    a == -0x8000_0000,
                    b == -1,
            ;
        }
        return 0;
    }
    let q: i64 = div_trunc(a, b) as i64;
    let ghost ua: int = if a < 0 { -a } else { a as int };
    let ghost ub: int = if b < 0 { -b } else { b as int };
    proof {
        assert(0 <= ua - ub * (ua / ub) < ub) by (nonlinear_arith)
            requires
                ua >= 0,
                ub >= 1,
        ;
        assert(b * q == if a < 0 { -(ub * (ua / ub)) } else { ub * (ua / ub) }) by (nonlinear_arith)
            requires
                q == trunc_div(a as int, b as int),
                ua == if a < 0 { -a } else { a as int },
                ub == if b < 0 { -b } else { b as int },
                b != 0,
                q == if (a < 0) != (b < 0) { -(ua / ub) } else { ua / ub },
        ;
    }
    ((a as i64) - (b as i64) * q) as i32
}

} // verus!
