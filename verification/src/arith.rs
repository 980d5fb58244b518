//! Exact integer arithmetic for proportional distribution.

use vstd::prelude::*;
use vstd::arithmetic::div_mod::lemma_fundamental_div_mod_converse;

verus! {

/// The part of `delta` that falls to a holder of `held` out of `total`,
/// rounded down. Nothing falls to anyone while nothing is held.
pub open spec fn share_of_delta(delta: nat, held: nat, total: nat) -> nat {
    if total == 0 {
        0
    } else {
        (delta * held) / total
    }
}

/// `x * t <= n` bounds `x` by the quotient `n / t`.
pub proof fn lemma_quotient_bounds(x: int, t: int, n: int)
    requires
        t > 0,
        0 <= x,
        x * t <= n,
    ensures
        x <= n / t,
{
    assert(x <= n / t) by (nonlinear_arith)
        requires
            t > 0,
            0 <= x,
            x * t <= n,
    ;
}

/// A product grows with its right factor.
pub proof fn lemma_product_monotone(a: int, b: int, c: int)
    requires
        0 <= a,
        b <= c,
    ensures
        a * b <= a * c,
{
    assert(a * b <= a * c) by (nonlinear_arith)
        requires
            0 <= a,
            b <= c,
    ;
}

/// Quotient and remainder of `a * b` by `t`, computed without ever forming
/// the product: `b` is consumed bit by bit, and only quotients and remainders
/// below `t` are kept.
fn mul_div_rem(a: u128, b: u128, t: u128) -> (res: (u128, u128))
    requires
        t > 0,
        (a * b) / (t as int) <= u128::MAX,
    ensures
        res.0 * t + res.1 == a * b,
        res.1 < t,
    decreases b,
{
    if b == 0 {
        assert(a * b == 0) by (nonlinear_arith)
            requires
                b == 0,
        ;
        return (0, 0);
    }
    let half: u128 = b / 2;
    let odd: bool = b % 2 == 1;
    proof {
        lemma_product_monotone(a as int, half as int, b as int);
        assert((a * half) / (t as int) <= (a * b) / (t as int)) by (nonlinear_arith)
            requires
                t > 0,
                0 <= a * half <= a * b,
        ;
    }
    let sub = mul_div_rem(a, half, t);
    let q: u128 = sub.0;
    let r: u128 = sub.1;
    let ghost whole: int = a * b;
    let ghost doubled: int = a * (2 * half);
    proof {
        assert(doubled == 2 * (q * t + r)) by (nonlinear_arith)
            requires
                doubled == a * (2 * half),
                q * t + r == a * half,
        ;
        lemma_product_monotone(a as int, 2 * half, b as int);
        assert(doubled <= whole);
    }
    // Double the pair.
    let carry: bool = r >= t - r;
    proof {
        let c: int = if carry { 1 } else { 0 };
        let rr: int = if carry { r - (t - r) } else { r + r };
        assert((2 * q + c) * t + rr == doubled) by (nonlinear_arith)
            requires
                doubled == 2 * (q * t + r),
                c == 1 ==> rr == r + r - t,
                c == 0 ==> rr == r + r,
                c == 0 || c == 1,
        ;
        assert((2 * q + c) * t <= whole);
        lemma_quotient_bounds(2 * q + c, t as int, whole);
    }
    let q2: u128 = if carry { 2 * q + 1 } else { 2 * q };
    let r2: u128 = if carry { r - (t - r) } else { r + r };
    assert(q2 * t + r2 == doubled);
    if !odd {
        assert(2 * half == b);
        return (q2, r2);
    }
    // Add `a` once more, itself split by `t`.
    let qa: u128 = a / t;
    let ra: u128 = a % t;
    let wrap: bool = r2 >= t - ra;
    proof {
        assert(b == 2 * half + 1);
        assert(whole == doubled + a) by (nonlinear_arith)
            requires
                whole == a * b,
                doubled == a * (2 * half),
                b == 2 * half + 1,
        ;
        assert(a == qa * t + ra) by (nonlinear_arith)
            requires
                t > 0,
                qa == a / t,
                ra == a % t,
        ;
        let c: int = if wrap { 1 } else { 0 };
        let rr: int = if wrap { r2 - (t - ra) } else { r2 + ra };
        assert((q2 + qa + c) * t + rr == whole) by (nonlinear_arith)
            requires
                whole == doubled + a,
                q2 * t + r2 == doubled,
                a == qa * t + ra,
                c == 1 ==> rr == r2 + ra - t,
                c == 0 ==> rr == r2 + ra,
                c == 0 || c == 1,
        ;
        assert((q2 + qa + c) * t <= whole);
        lemma_quotient_bounds(q2 + qa + c, t as int, whole);
    }
    if wrap {
        (q2 + qa + 1, r2 - (t - ra))
    } else {
        (q2 + qa, r2 + ra)
    }
}

/// `floor(a * b / t)`, exact for every `a`, `b` and `t > 0` whose quotient
/// fits in 128 bits, also where the product itself does not.
pub fn mul_div_floor(a: u128, b: u128, t: u128) -> (q: u128)
    requires
        t > 0,
        (a * b) / (t as int) <= u128::MAX,
    ensures
        q == (a * b) / (t as int),
{
    let res = mul_div_rem(a, b, t);
    proof {
        lemma_fundamental_div_mod_converse(a * b, t as int, res.0 as int, res.1 as int);
    }
    res.0
}

} // verus!
