//! Integer helpers shared by the valuation, settlement and funding code:
//! absolute values, sign reasoning for products, and truncating
//! fixed-point multiply-divide on magnitudes.

use vstd::prelude::*;
use vstd::arithmetic::div_mod::lemma_div_basics_5;
use vstd::arithmetic::mul::lemma_mul_upper_bound;

use crate::types::SCALE;

verus! {

/// Absolute value of a mathematical integer.
pub open spec fn abs_i(x: int) -> int {
    if x < 0 {
        -x
    } else {
        x
    }
}

/// Division by a positive divisor that truncates toward zero, as the
/// machine's signed division does (spec `/` rounds toward negative
/// infinity instead).
pub open spec fn div_trunc(a: int, d: int) -> int {
    if a >= 0 {
        a / d
    } else {
        -((-a) / d)
    }
}

/// The magnitude of a product is the product of the magnitudes, and the
/// sign of a product follows the signs of its factors.
pub proof fn lemma_mul_abs_sign(x: int, y: int)
    ensures
        abs_i(x * y) == abs_i(x) * abs_i(y),
        x * y >= 0 <==> x == 0 || y == 0 || (x > 0 && y > 0) || (x < 0 && y < 0),
{
    if x >= 0 && y >= 0 {
        assert(x * y >= 0 && x * y == abs_i(x) * abs_i(y)) by (nonlinear_arith)
            requires
                x >= 0,
                y >= 0,
                abs_i(x) == x,
                abs_i(y) == y,
        ;
    } else if x >= 0 && y < 0 {
        assert(x * y <= 0 && -(x * y) == abs_i(x) * abs_i(y) && (x * y >= 0 ==> x == 0))
            by (nonlinear_arith)
            requires
                x >= 0,
                y < 0,
                abs_i(x) == x,
                abs_i(y) == -y,
        ;
    } else if x < 0 && y >= 0 {
        assert(x * y <= 0 && -(x * y) == abs_i(x) * abs_i(y) && (x * y >= 0 ==> y == 0))
            by (nonlinear_arith)
            requires
                x < 0,
                y >= 0,
                abs_i(x) == -x,
                abs_i(y) == y,
        ;
    } else {
        assert(x * y > 0 && x * y == abs_i(x) * abs_i(y)) by (nonlinear_arith)
            requires
                x < 0,
                y < 0,
                abs_i(x) == -x,
                abs_i(y) == -y,
        ;
    }
}

/// `|x|` as a `u64`; total, covering `i64::MIN` as well.
pub fn abs_u64(x: i64) -> (r: u64)
    ensures
        r == abs_i(x as int),
{
    if x >= 0 {
        x as u64
    } else {
        let wide: i128 = -(x as i128);
        assert(0 <= wide <= u64::MAX);
        wide as u64
    }
}

/// `a * b / SCALE` on magnitudes, exact at full width: the product of two
/// `u64` values always fits in a `u128`.
pub fn mul_div_scale(a: u64, b: u64) -> (r: u128)
    ensures
        r == a as int * b as int / (SCALE as int),
        r <= a as int * b as int,
{
    proof {
        lemma_mul_upper_bound(a as int, u64::MAX as int, b as int, u64::MAX as int);
        lemma_div_basics_5(a as int * b as int, SCALE as int);
    }
    (a as u128) * (b as u128) / (SCALE as u128)
}

} // verus!
