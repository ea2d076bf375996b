//! Saturating fixed-point scalars.
//!
//! A scalar is an `i64` holding a real number scaled by [`SCALE`], i.e. with
//! 32 fractional bits. Every operation saturates at the `i64` range instead
//! of overflowing, and products and quotients truncate toward zero, so each
//! operation is a total function with an exact integer specification.

use vstd::prelude::*;
use vstd::math::abs;

verus! {

/// Number of units that represent 1.0: scalars carry 32 fractional bits.
pub const SCALE: i64 = 4294967296;

/// Clamps a mathematical integer into the `i64` range.
pub open spec fn sat64(x: int) -> i64 {
    if x > i64::MAX as int {
        i64::MAX
    } else if x < i64::MIN as int {
        i64::MIN
    } else {
        x as i64
    }
}

/// Division truncating toward zero, as machine division does; meaningful for
/// `b != 0`.
pub open spec fn tdiv(a: int, b: int) -> int {
    if (a >= 0) == (b >= 0) {
        (abs(a) as int) / (abs(b) as int)
    } else {
        -((abs(a) as int) / (abs(b) as int))
    }
}

/// The saturating sum of two scalars.
pub open spec fn fx_add_spec(a: i64, b: i64) -> i64 {
    sat64(a as int + b as int)
}

/// The saturating difference of two scalars.
pub open spec fn fx_sub_spec(a: i64, b: i64) -> i64 {
    sat64(a as int - b as int)
}

/// The saturating negation of a scalar.
pub open spec fn fx_neg_spec(a: i64) -> i64 {
    sat64(-(a as int))
}

/// The absolute value of a scalar, saturating at `i64::MAX`.
pub open spec fn fx_abs_spec(a: i64) -> i64 {
    sat64(abs(a as int) as int)
}

/// The fixed-point product: the exact product rescaled by `SCALE`,
/// truncated toward zero and saturated.
pub open spec fn fx_mul_spec(a: i64, b: i64) -> i64 {
    sat64(tdiv(a as int * b as int, SCALE as int))
}

/// The fixed-point quotient: the exact quotient rescaled by `SCALE`,
/// truncated toward zero and saturated; meaningful for `b != 0`.
pub open spec fn fx_div_spec(a: i64, b: i64) -> i64 {
    sat64(tdiv(a as int * SCALE as int, b as int))
}

/// Saturating addition.
pub fn fx_add(a: i64, b: i64) -> (r: i64)
    ensures
        r == fx_add_spec(a, b),
{
    let s: i128 = a as i128 + b as i128;
    if s > i64::MAX as i128 {
        i64::MAX
    } else if s < i64::MIN as i128 {
        i64::MIN
    } else {
        s as i64
    }
}

/// Saturating subtraction.
pub fn fx_sub(a: i64, b: i64) -> (r: i64)
    ensures
        r == fx_sub_spec(a, b),
{
    let s: i128 = a as i128 - b as i128;
    if s > i64::MAX as i128 {
        i64::MAX
    } else if s < i64::MIN as i128 {
        i64::MIN
    } else {
        s as i64
    }
}

/// Saturating negation.
pub fn fx_neg(a: i64) -> (r: i64)
    ensures
        r == fx_neg_spec(a),
{
    if a == i64::MIN {
        i64::MAX
    } else {
        -a
    }
}

/// Absolute value, saturating at `i64::MAX`.
pub fn fx_abs(a: i64) -> (r: i64)
    ensures
        r == fx_abs_spec(a),
{
    if a == i64::MIN {
        i64::MAX
    } else if a < 0 {
        -a
    } else {
        a
    }
}

/// Fixed-point multiplication: `(a * b) / SCALE`, truncated and saturated.
pub fn fx_mul(a: i64, b: i64) -> (r: i64)
    ensures
        r == fx_mul_spec(a, b),
{
    proof {
        assert((a as int) * (b as int) <= 85070591730234615865843651857942052864
            && (a as int) * (b as int) >= -85070591730234615865843651857942052864)
            by (nonlinear_arith)
            requires
                i64::MIN <= a <= i64::MAX,
                i64::MIN <= b <= i64::MAX,
        ;
    }
    let p: i128 = (a as i128) * (b as i128);
    if p >= 0 {
        let q: u128 = (p as u128) / (SCALE as u128);
        if q > i64::MAX as u128 {
            i64::MAX
        } else {
            q as i64
        }
    } else {
        let m: u128 = ((-p) as u128) / (SCALE as u128);
        if m >= 9223372036854775808u128 {
            i64::MIN
        } else {
            -(m as i64)
        }
    }
}

/// Fixed-point division: `(a * SCALE) / b`, truncated and saturated.
pub fn fx_div(a: i64, b: i64) -> (r: i64)
    requires
        b != 0,
    ensures
        r == fx_div_spec(a, b),
{
    proof {
        assert((a as int) * (SCALE as int) <= 85070591730234615865843651857942052864
            && (a as int) * (SCALE as int) >= -85070591730234615865843651857942052864)
            by (nonlinear_arith)
            requires
                i64::MIN <= a <= i64::MAX,
        ;
    }
    let p: i128 = (a as i128) * (SCALE as i128);
    let pu: u128 = if p >= 0 {
        p as u128
    } else {
        (-p) as u128
    };
    let bu: u128 = if b >= 0 {
        b as u128
    } else {
        (-(b as i128)) as u128
    };
    let q: u128 = pu / bu;
    if (p >= 0) == (b >= 0) {
        if q > i64::MAX as u128 {
            i64::MAX
        } else {
            q as i64
        }
    } else {
        if q >= 9223372036854775808u128 {
            i64::MIN
        } else {
            -(q as i64)
        }
    }
}

} // verus!
