//! Exact integer helpers shared by the fitting and derivation stages:
//! truncating division (the semantics every quotient in this crate uses)
//! and an integer floor square root.

use vstd::prelude::*;

verus! {

/// Absolute value of a mathematical integer.
pub open spec fn iabs(a: int) -> int {
    if a >= 0 {
        a
    } else {
        -a
    }
}

/// Division truncating toward zero, the behaviour of `/` on machine integers.
/// Spec-level `/` on `int` rounds toward negative infinity, so quotients of
/// possibly negative quantities are stated through this function instead.
pub open spec fn tdiv(a: int, b: int) -> int {
    if (a >= 0) == (b >= 0) {
        iabs(a) / iabs(b)
    } else {
        -(iabs(a) / iabs(b))
    }
}

/// Magnitude bound for a product from magnitude bounds on its factors.
pub proof fn lemma_mul_abs_bound(a: int, b: int, ca: int, cb: int)
    by (nonlinear_arith)
    requires
        -ca <= a <= ca,
        -cb <= b <= cb,
    ensures
        -(ca * cb) <= a * b <= ca * cb,
{
}

/// A truncated quotient is no larger in magnitude than its dividend.
pub proof fn lemma_tdiv_abs_bound(a: int, b: int)
    requires
        b != 0,
    ensures
        iabs(tdiv(a, b)) <= iabs(a),
{
    vstd::arithmetic::div_mod::lemma_div_nonincreasing(iabs(a), iabs(b));
    vstd::arithmetic::div_mod::lemma_div_pos_is_pos(iabs(a), iabs(b));
}

/// Quotient of `a` by `b`, truncated toward zero, for any signs.
pub fn div_trunc(a: i128, b: i128) -> (q: i128)
    requires
        b != 0,
        a != i128::MIN,
        b != i128::MIN,
    ensures
        q == tdiv(a as int, b as int),
{
    proof {
        lemma_tdiv_abs_bound(a as int, b as int);
    }
    let ua: u128 = if a < 0 {
        (-a) as u128
    } else {
        a as u128
    };
    let ub: u128 = if b < 0 {
        (-b) as u128
    } else {
        b as u128
    };
    proof {
        vstd::arithmetic::div_mod::lemma_div_nonincreasing(ua as int, ub as int);
        vstd::arithmetic::div_mod::lemma_div_pos_is_pos(ua as int, ub as int);
    }
    let q0: u128 = ua / ub;
    if (a < 0) != (b < 0) {
        -(q0 as i128)
    } else {
        q0 as i128
    }
}

/// Floor of the square root: the unique `r` with `r * r <= x < (r + 1) * (r + 1)`.
pub fn isqrt(x: u128) -> (r: u128)
    requires
        x < 0x4000_0000_0000_0000_0000_0000_0000_0000u128,
    ensures
        r * r <= x,
        x < (r + 1) * (r + 1),
        r < 0x8000_0000_0000_0000u128,
{
    if x == 0 {
        return 0;
    }
    let mut lo: u128 = 0;
    let mut hi: u128 = 0x8000_0000_0000_0000u128;
    proof {
        assert(hi * hi == 0x4000_0000_0000_0000_0000_0000_0000_0000int);
    }
    while lo + 1 < hi
        invariant
            lo < hi <= 0x8000_0000_0000_0000u128,
            lo * lo <= x,
            x < hi * hi,
        decreases hi - lo,
    {
        let mid: u128 = lo + (hi - lo) / 2;
        assert(lo < mid < hi);
        assert(mid * mid < 0x8000_0000_0000_0000_0000_0000_0000_0000int) by (nonlinear_arith)
            requires
                0 <= mid < 0x8000_0000_0000_0000u128,
        ;
        let sq: u128 = mid * mid;
        if sq <= x {
            lo = mid;
        } else {
            hi = mid;
        }
    }
    lo
}

/// The floor square root is unique: two values that both satisfy its
/// defining inequalities for the same radicand are equal.
pub proof fn lemma_isqrt_unique(r1: int, r2: int, x: int)
    by (nonlinear_arith)
    requires
        0 <= r1,
        0 <= r2,
        r1 * r1 <= x < (r1 + 1) * (r1 + 1),
        r2 * r2 <= x < (r2 + 1) * (r2 + 1),
    ensures
        r1 == r2,
{
}

} // verus!
