//! Integer helpers shared by the contracts: the `i32` range and the
//! truncating quotient that machine division computes.

use vstd::prelude::*;

verus! {

/// Whether `v` can be held in an `i32`.
pub open spec fn fits_i32(v: int) -> bool {
    i32::MIN <= v <= i32::MAX
}

/// The quotient of `a` by `b` rounded toward zero, for `b != 0`.
///
/// Written over the flooring quotient of non-negative dividends, where both
/// roundings agree on the magnitude.
pub open spec fn trunc_div(a: int, b: int) -> int {
    if a >= 0 {
        a / b
    } else {
        -((-a) / b)
    }
}

/// Whether machine division of `a` by `b` is defined and representable.
pub open spec fn div_defined(a: int, b: int) -> bool {
    b != 0 && !(a == i32::MIN && b == -1)
}

/// The quotient of a non-negative `a` is no larger in magnitude than `a`,
/// and strictly smaller unless the divisor is `1` or `-1`.
pub proof fn lemma_quotient_bound(a: int, b: int)
    by (nonlinear_arith)
    requires
        a >= 0,
        b != 0,
    ensures
        -a <= a / b <= a,
        a > 0 && b != -1 ==> -a < a / b,
{
}

/// `trunc_div` stays within `i32` wherever machine division is defined.
pub proof fn lemma_trunc_div_fits(a: int, b: int)
    requires
        fits_i32(a),
        fits_i32(b),
        div_defined(a, b),
    ensures
        fits_i32(trunc_div(a, b)),
{
    if a >= 0 {
        lemma_quotient_bound(a, b);
    } else {
        lemma_quotient_bound(-a, b);
    }
}

/// Divides two `i32` values as the machine does, rounding toward zero.
pub fn div_i32(a: i32, b: i32) -> (q: i32)
    requires
        div_defined(a as int, b as int),
    ensures
        q == trunc_div(a as int, b as int),
{
    proof {
        lemma_trunc_div_fits(a as int, b as int);
    }
    a / b
}

/// The product of two `i32` values lies within `i64` by a wide margin.
pub proof fn lemma_product_bound(a: int, b: int)
    by (nonlinear_arith)
    requires
        fits_i32(a),
        fits_i32(b),
    ensures
        -0x4000_0000_0000_0000 <= a * b <= 0x4000_0000_0000_0000,
{
}

/// Multiplies two `i32` values without loss.
pub fn wide_product(a: i32, b: i32) -> (product: i64)
    ensures
        product == a * b,
{
    proof {
        lemma_product_bound(a as int, b as int);
    }
    a as i64 * b as i64
}

/// Tells whether a wide value can be held in an `i32`.
pub fn in_i32_range(v: i64) -> (fits: bool)
    ensures
        fits == fits_i32(v as int),
{
    -0x8000_0000 <= v && v <= 0x7fff_ffff
}

} // verus!
