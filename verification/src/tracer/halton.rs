use vstd::prelude::*;

verus! {

/// `b` to the power `n`.
pub open spec fn pow(b: nat, n: nat) -> nat
    decreases n,
{
    if n == 0 {
        1
    } else {
        b * pow(b, (n - 1) as nat)
    }
}

/// The number whose digits in base `b` are `d`, lowest first.
pub open spec fn radix_value(d: Seq<usize>, b: nat) -> nat
    decreases d.len(),
{
    if d.len() == 0 {
        0
    } else {
        radix_value(d.drop_last(), b) + (d.last() as nat) * pow(b, (d.len() - 1) as nat)
    }
}

/// Whether `d` is how `n` is written in base `b`, lowest digit first: every
/// digit is below `b`, the highest digit is not 0, and the digits add up
/// to `n`.
pub open spec fn is_radix_form(d: Seq<usize>, b: nat, n: nat) -> bool {
    &&& forall|k: int| 0 <= k < d.len() ==> #[trigger] d[k] < b
    &&& d.len() > 0 ==> d.last() != 0
    &&& radix_value(d, b) == n
}

/// The digits of element `i` of the Halton series with base `b`, lowest
/// first. Elements are counted from 0, and element `i` is made of the digits
/// of `i + 1`: digit `k` weighs `1 / b^(k + 1)` in the element's value.
pub fn halton_digits(b: usize, i: usize) -> (d: Vec<usize>)
    requires
        b >= 2,
        i < usize::MAX,
    ensures
        is_radix_form(d@, b as nat, (i + 1) as nat),
        d@.len() > 0,
{
    let n: usize = i + 1;
    let mut rest: usize = n;
    let mut d: Vec<usize> = Vec::new();
    proof {
        assert(pow(b as nat, 0) == 1);
        assert(rest * pow(b as nat, 0) == rest) by (nonlinear_arith)
            requires
                pow(b as nat, 0) == 1,
        ;
    }
    while rest > 0
        invariant
            b >= 2,
            n == i + 1,
            forall|k: int| 0 <= k < d@.len() ==> #[trigger] d@[k] < b,
            radix_value(d@, b as nat) + rest * pow(b as nat, d@.len()) == n,
            rest == 0 ==> d@.len() > 0 && d@.last() != 0,
            rest == n || d@.len() > 0,
        decreases rest,
    {
        let digit: usize = rest % b;
        let next: usize = rest / b;
        proof {
            let p = pow(b as nat, d@.len());
            let e = d@.push(digit);
            assert(e.drop_last() =~= d@);
            assert(pow(b as nat, e.len()) == b * p);
            assert(rest == next * b + digit) by (nonlinear_arith)
                requires
                    digit == rest % b,
                    next == rest / b,
                    b >= 2,
            ;
            assert(digit * p + next * (b * p) == rest * p) by (nonlinear_arith)
                requires
                    rest == next * b + digit,
            ;
            assert(next < rest) by (nonlinear_arith)
                requires
                    rest == next * b + digit,
                    rest > 0,
                    b >= 2,
            ;
            if next == 0 {
                assert(next * b == 0) by (nonlinear_arith)
                    requires
                        next == 0,
                ;
                assert(digit == rest);
            }
        }
        d.push(digit);
        rest = next;
    }
    d
}

} // verus!
