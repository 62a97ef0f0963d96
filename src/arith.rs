use vstd::arithmetic::div_mod::lemma_fundamental_div_mod;
use vstd::arithmetic::mul::{lemma_mul_is_commutative, lemma_mul_unary_negation};
use vstd::prelude::*;

verus! {

/// Integer division rounding toward zero, as Rust's `/` does on signed integers.
pub open spec fn trunc_div(a: int, b: int) -> int
    recommends
        b != 0,
{
    if a >= 0 {
        a / b
    } else {
        -((-a) / b)
    }
}

/// The remainder left by `trunc_div`, with the sign of `a`, as Rust's `%` gives it.
pub open spec fn trunc_rem(a: int, b: int) -> int
    recommends
        b != 0,
{
    if a >= 0 {
        a % b
    } else {
        -((-a) % b)
    }
}

/// The value fits an `i64`.
pub open spec fn fits_i64(x: int) -> bool {
    i64::MIN <= x <= i64::MAX
}

/// Truncating division and its remainder put the dividend back together.
pub proof fn lemma_trunc_div_rem(a: int, b: int)
    requires
        b != 0,
    ensures
        trunc_div(a, b) * b + trunc_rem(a, b) == a,
{
    if a >= 0 {
        lemma_fundamental_div_mod(a, b);
        lemma_mul_is_commutative(a / b, b);
    } else {
        lemma_fundamental_div_mod(-a, b);
        lemma_mul_is_commutative((-a) / b, b);
        lemma_mul_unary_negation((-a) / b, b);
    }
}

/// Truncating division of one `i64` by another fits an `i64`, except for
/// `i64::MIN / -1`.
pub proof fn lemma_trunc_div_fits(a: int, b: int)
    requires
        fits_i64(a),
        fits_i64(b),
        b != 0,
        !(a == i64::MIN && b == -1),
    ensures
        fits_i64(trunc_div(a, b)),
{
    let x = if a >= 0 { a } else { -a };
    lemma_fundamental_div_mod(x, b);
    let q = x / b;
    let m = x % b;
    assert(0 <= m < (if b > 0 { b } else { -b }));
    assert(-x <= q <= x) by (nonlinear_arith)
        requires
            x == b * q + m,
            0 <= m,
            m < b || m < -b,
            b != 0,
            x >= 0,
    ;
    if b == -1 {
        assert(b * q == -q) by (nonlinear_arith)
            requires
                b == -1,
        ;
        assert(q == -x);
    } else if b < 0 {
        assert(-x <= 2 * q <= x) by (nonlinear_arith)
            requires
                x == b * q + m,
                0 <= m < -b,
                b <= -2,
                x >= 0,
        ;
    }
}

/// The remainder of truncating division has the sign of the dividend and is no
/// larger than it.
pub proof fn lemma_trunc_rem_bounds(a: int, b: int)
    requires
        b != 0,
    ensures
        a >= 0 ==> 0 <= trunc_rem(a, b) <= a,
        a < 0 ==> a <= trunc_rem(a, b) <= 0,
{
    let x = if a >= 0 { a } else { -a };
    lemma_fundamental_div_mod(x, b);
    let q = x / b;
    let m = x % b;
    assert(0 <= m < (if b > 0 { b } else { -b }));
    assert(b * q >= 0) by (nonlinear_arith)
        requires
            x == b * q + m,
            0 <= m,
            m < b || m < -b,
            b != 0,
            x >= 0,
    ;
}

} // verus!
