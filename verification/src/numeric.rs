//! Integer helpers shared by the fixed-point calculations: absolute value
//! and division that truncates toward zero, with the small facts the
//! interpolation proofs need.

use vstd::prelude::*;
use vstd::arithmetic::div_mod::{lemma_div_is_ordered, lemma_div_by_multiple, lemma_div_pos_is_pos};
use vstd::arithmetic::mul::lemma_mul_inequality;

verus! {

/// The absolute value of a mathematical integer.
pub open spec fn abs_i(a: int) -> int {
    if a >= 0 {
        a
    } else {
        -a
    }
}

/// Division truncating toward zero (the machine `/`), for positive divisors.
pub open spec fn tdiv(a: int, b: int) -> int {
    if a >= 0 {
        a / b
    } else {
        -((-a) / b)
    }
}

/// Executable absolute value.
pub fn abs_val(a: i64) -> (r: i64)
    requires
        a != i64::MIN,
    ensures
        r == abs_i(a as int),
{
    if a >= 0 {
        a
    } else {
        -a
    }
}

/// Executable truncating division for a positive divisor.
pub fn div_trunc(a: i64, b: i64) -> (r: i64)
    requires
        b > 0,
        a != i64::MIN,
    ensures
        r == tdiv(a as int, b as int),
{
    if a >= 0 {
        a / b
    } else {
        proof {
            lemma_div_pos_is_pos((-a) as int, b as int);
            lemma_div_is_ordered((-a) as int, (-(i64::MIN + 1)) as int, b as int);
        }
        -((-a) / b)
    }
}

/// Truncating division never grows the magnitude beyond `|a| / 1`.
pub proof fn lemma_tdiv_abs_le(a: int, b: int)
    requires
        b > 0,
    ensures
        abs_i(tdiv(a, b)) <= abs_i(a),
        a >= 0 ==> 0 <= tdiv(a, b) <= a,
        a < 0 ==> a <= tdiv(a, b) <= 0,
{
    if a >= 0 {
        lemma_div_pos_is_pos(a, b);
        vstd::arithmetic::div_mod::lemma_div_nonincreasing(a, b);
    } else {
        lemma_div_pos_is_pos(-a, b);
        vstd::arithmetic::div_mod::lemma_div_nonincreasing(-a, b);
    }
}

/// If `0 <= n <= d * w` with `d > 0`, then `n / d <= w`.
pub proof fn lemma_div_bounded_by_factor(n: int, d: int, w: int)
    requires
        d > 0,
        w >= 0,
        0 <= n <= d * w,
    ensures
        0 <= n / d <= w,
{
    lemma_div_pos_is_pos(n, d);
    lemma_div_is_ordered(n, d * w, d);
    lemma_div_by_multiple(w, d);
    assert(d * w == w * d) by {
        vstd::arithmetic::mul::lemma_mul_is_commutative(d, w);
    }
}

/// Multiplying two bounded magnitudes keeps the product within the product
/// of the bounds.
pub proof fn lemma_abs_mul_bound(a: int, b: int, ca: int, cb: int)
    requires
        abs_i(a) <= ca,
        abs_i(b) <= cb,
    ensures
        abs_i(a * b) <= ca * cb,
{
    let aa = abs_i(a);
    let ab = abs_i(b);
    assert(aa * ab >= 0 && (aa * ab == a * b || aa * ab == -(a * b))) by (nonlinear_arith)
        requires
            aa == a || aa == -a,
            ab == b || ab == -b,
            aa >= 0,
            ab >= 0,
    {
    }
    lemma_mul_inequality(aa, ca, ab);
    assert(ca * ab <= ca * cb) by (nonlinear_arith)
        requires
            0 <= ab <= cb,
            0 <= ca,
    {
    }
}

} // verus!
