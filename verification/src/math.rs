//! Fixed-point arithmetic on 128-bit signed integers.
//!
//! Rates, prices and factors are scaled integers: `SCALE` stands for 1.0.
//! Division truncates toward zero. A computation whose intermediate values
//! leave the 128-bit range has no result.

use vstd::prelude::*;

verus! {

/// The scaled integer that represents 1.0.
pub const SCALE: i128 = 100_000_000;

/// Seconds in a year of 365 days.
pub const SECONDS_PER_YEAR: i128 = 31_536_000;

/// `SECONDS_PER_YEAR * SCALE`, the divisor of the interest formula.
pub const YEAR_SCALE: i128 = 3_153_600_000_000_000;

/// `x` is representable as a 128-bit signed integer.
pub open spec fn in_range(x: int) -> bool {
    i128::MIN <= x <= i128::MAX
}

/// Quotient of `a` by `b`, rounded toward zero.
pub open spec fn trunc_div(a: int, b: int) -> int
    recommends
        b != 0,
{
    if a >= 0 {
        if b > 0 {
            a / b
        } else {
            -(a / (-b))
        }
    } else {
        if b > 0 {
            -((-a) / b)
        } else {
            (-a) / (-b)
        }
    }
}

/// `a * b` has a representable value and so has its quotient by `d`.
pub open spec fn mul_div_fits(a: int, b: int, d: int) -> bool {
    d != 0 && in_range(a * b) && in_range(trunc_div(a * b, d))
}

/// `a * b / d`, rounded toward zero.
pub open spec fn mul_div(a: int, b: int, d: int) -> int {
    trunc_div(a * b, d)
}

/// The smaller of two integers.
pub open spec fn min_int(a: int, b: int) -> int {
    if a <= b {
        a
    } else {
        b
    }
}

/// The larger of two integers.
pub open spec fn max_int(a: int, b: int) -> int {
    if a >= b {
        a
    } else {
        b
    }
}

/// The quotient of a non-negative value by a positive one is non-negative
/// and not above the value.
pub proof fn lemma_div_bounds(a: int, b: int)
    requires
        a >= 0,
        b > 0,
    ensures
        0 <= a / b <= a,
{
    assert(0 <= a / b <= a) by (nonlinear_arith)
        requires
            a >= 0,
            b > 0,
    ;
}

/// Truncating division of `a` by `b`; nothing where `b` is zero or the
/// quotient is not representable.
pub fn checked_quotient(a: i128, b: i128) -> (r: Option<i128>)
    ensures
        r == (if b != 0 && in_range(trunc_div(a as int, b as int)) {
            Some(trunc_div(a as int, b as int) as i128)
        } else {
            None
        }),
{
    proof {
        if b != 0 && a == 0 {
            if b > 0 {
                lemma_div_bounds(0, b as int);
            } else {
                lemma_div_bounds(0, -(b as int));
            }
        }
    }
    a.checked_div(b)
}

/// `a * b / d` in 128-bit arithmetic; nothing where the product or the
/// quotient leaves the range or `d` is zero.
pub fn checked_mul_div(a: i128, b: i128, d: i128) -> (r: Option<i128>)
    ensures
        r == (if mul_div_fits(a as int, b as int, d as int) {
            Some(mul_div(a as int, b as int, d as int) as i128)
        } else {
            None
        }),
{
    match a.checked_mul(b) {
        Some(p) => checked_quotient(p, d),
        None => None,
    }
}

/// The smaller of two numbers.
pub fn min_i128(a: i128, b: i128) -> (r: i128)
    ensures
        r == min_int(a as int, b as int),
{
    if a <= b {
        a
    } else {
        b
    }
}

/// The larger of two numbers.
pub fn max_i128(a: i128, b: i128) -> (r: i128)
    ensures
        r == max_int(a as int, b as int),
{
    if a >= b {
        a
    } else {
        b
    }
}

} // verus!
