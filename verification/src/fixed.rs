//! Fixed-point arithmetic in millionths.
//!
//! A quantity `q` is stored as the integer `q * 1_000_000`. Products and
//! quotients are rounded down (towards negative infinity) to a millionth.

use vstd::arithmetic::div_mod::{
    lemma_div_pos_is_pos, lemma_fundamental_div_mod, lemma_fundamental_div_mod_converse,
};
use vstd::prelude::*;

verus! {

/// The fixed-point representation of `1.0`.
pub const SCALE: i64 = 1_000_000;

/// `x` limited to the closed interval `[lo, hi]`.
pub open spec fn clamp(x: int, lo: int, hi: int) -> int {
    if x < lo {
        lo
    } else if x > hi {
        hi
    } else {
        x
    }
}

/// `x` limited to what an `i64` can hold.
pub open spec fn saturate(x: int) -> int {
    clamp(x, i64::MIN as int, i64::MAX as int)
}

/// The product of two fixed-point numbers, rounded down to a millionth.
pub open spec fn scaled_product(a: int, b: int) -> int {
    (a * b) / (SCALE as int)
}

/// The quotient of two fixed-point numbers, rounded down to a millionth.
/// Meaningful for a positive divisor.
pub open spec fn scaled_quotient(a: int, b: int) -> int {
    (a * (SCALE as int)) / b
}

/// Divides `p` by the positive `d`, rounding towards negative infinity.
pub fn div_floor(p: i128, d: i128) -> (q: i128)
    requires
        d > 0,
    ensures
        q == (p as int) / (d as int),
{
    if p >= 0 {
        p / d
    } else {
        let below: i128 = -(p + 1);
        let q1: i128 = below / d;
        proof {
            let m = (below as int) % (d as int);
            lemma_fundamental_div_mod(below as int, d as int);
            lemma_div_pos_is_pos(below as int, d as int);
            assert((-(q1 as int) - 1) * (d as int) == -((d as int) * (q1 as int)) - (d as int))
                by (nonlinear_arith);
            lemma_fundamental_div_mod_converse(
                p as int,
                d as int,
                -(q1 as int) - 1,
                (d as int) - 1 - m,
            );
        }
        -q1 - 1
    }
}

/// Limits `x` to `[lo, hi]`.
pub fn clamp_i128(x: i128, lo: i64, hi: i64) -> (r: i64)
    requires
        lo <= hi,
    ensures
        r == clamp(x as int, lo as int, hi as int),
{
    if x < lo as i128 {
        lo
    } else if x > hi as i128 {
        hi
    } else {
        x as i64
    }
}

/// The fixed-point product of `a` and `b`, where it fits in 128 bits.
pub fn mul_scaled(a: i128, b: i128) -> (r: i128)
    requires
        i128::MIN <= (a as int) * (b as int) <= i128::MAX,
    ensures
        r == scaled_product(a as int, b as int),
{
    div_floor(a * b, 1_000_000)
}

/// The product of two 64-bit magnitudes stays clear of the 128-bit limits.
pub proof fn lemma_product_fits(a: int, b: int, ma: int, mb: int)
    requires
        -ma <= a <= ma,
        -mb <= b <= mb,
    ensures
        -(ma * mb) <= a * b <= ma * mb,
{
    assert(-(ma * mb) <= a * b <= ma * mb) by (nonlinear_arith)
        requires
            -ma <= a <= ma,
            -mb <= b <= mb,
    ;
}

/// A quotient by a positive divisor lies between the dividend and zero.
pub proof fn lemma_div_floor_bounds(x: int, d: int)
    requires
        d > 0,
    ensures
        x >= 0 ==> 0 <= x / d <= x,
        x < 0 ==> x <= x / d < 0,
{
    lemma_fundamental_div_mod(x, d);
    let q = x / d;
    let r = x % d;
    assert(x == d * q + r);
    assert(0 <= r < d);
    assert((x >= 0 ==> 0 <= q <= x) && (x < 0 ==> x <= q < 0)) by (nonlinear_arith)
        requires
            x == d * q + r,
            0 <= r < d,
            d > 0,
    ;
}

} // verus!
