//! Saturating 16.16 fixed-point scalar arithmetic.
//!
//! Every scalar quantity of the renderer (coordinate, depth, angle,
//! intensity) is an `i64` holding the real value times [`FX_ONE`].
//! All operations saturate at the `i64` range instead of overflowing, so
//! every function here is total: a numeric edge case degrades to a clamped
//! value, never a crash.

use vstd::prelude::*;

verus! {

/// The fixed-point representation of 1.0.
pub const FX_ONE: i64 = 65536;

/// The fixed-point representation of 0.5.
pub const FX_HALF: i64 = 32768;

/// pi in fixed point (round(pi * 65536)).
pub const FX_PI: i64 = 205887;

/// pi/2 in fixed point, chosen so that `2 * FX_HALF_PI <= FX_PI`.
pub const FX_HALF_PI: i64 = 102943;

/// pi/4 in fixed point.
pub const FX_QUARTER_PI: i64 = 51472;

/// 2*pi in fixed point.
pub const FX_TWO_PI: i64 = 411775;

/// Clamps an unbounded integer into the `i64` range.
pub open spec fn fx_sat_s(v: int) -> int {
    if v > i64::MAX {
        i64::MAX as int
    } else if v < i64::MIN {
        i64::MIN as int
    } else {
        v
    }
}

/// Absolute value.
pub open spec fn abs_s(v: int) -> int {
    if v < 0 {
        -v
    } else {
        v
    }
}

/// Division truncating toward zero, as the scaling steps below use it.
/// Total: yields 0 for a zero divisor.
pub open spec fn div_trunc_s(a: int, b: int) -> int {
    if b == 0 {
        0
    } else if (a < 0) != (b < 0) {
        -(abs_s(a) / abs_s(b))
    } else {
        abs_s(a) / abs_s(b)
    }
}

/// Saturating fixed-point addition.
pub open spec fn fx_add_s(a: int, b: int) -> int {
    fx_sat_s(a + b)
}

/// Saturating fixed-point subtraction.
pub open spec fn fx_sub_s(a: int, b: int) -> int {
    fx_sat_s(a - b)
}

/// Saturating fixed-point negation.
pub open spec fn fx_neg_s(a: int) -> int {
    fx_sat_s(-a)
}

/// Saturating fixed-point multiplication: `a * b / FX_ONE`, truncated
/// toward zero.
pub open spec fn fx_mul_s(a: int, b: int) -> int {
    fx_sat_s(div_trunc_s(a * b, FX_ONE as int))
}

/// Saturating fixed-point division: `a * FX_ONE / b`, truncated toward
/// zero; 0 when the divisor is 0.
pub open spec fn fx_div_s(a: int, b: int) -> int {
    if b == 0 {
        0
    } else {
        fx_sat_s(div_trunc_s(a * FX_ONE as int, b))
    }
}

/// Clamp into `[lo, hi]`.
pub open spec fn fx_clamp_s(v: int, lo: int, hi: int) -> int {
    if v < lo {
        lo
    } else if v > hi {
        hi
    } else {
        v
    }
}

/// Smaller of two values.
pub open spec fn fx_min_s(a: int, b: int) -> int {
    if a < b {
        a
    } else {
        b
    }
}

/// Larger of two values.
pub open spec fn fx_max_s(a: int, b: int) -> int {
    if a > b {
        a
    } else {
        b
    }
}

fn clamp_i128(v: i128) -> (r: i64)
    ensures
        r == fx_sat_s(v as int),
{
    if v > i64::MAX as i128 {
        i64::MAX
    } else if v < i64::MIN as i128 {
        i64::MIN
    } else {
        v as i64
    }
}

/// Saturating addition.
pub fn fx_add(a: i64, b: i64) -> (r: i64)
    ensures
        r == fx_add_s(a as int, b as int),
{
    clamp_i128(a as i128 + b as i128)
}

/// Saturating subtraction.
pub fn fx_sub(a: i64, b: i64) -> (r: i64)
    ensures
        r == fx_sub_s(a as int, b as int),
{
    clamp_i128(a as i128 - b as i128)
}

/// Saturating negation.
pub fn fx_neg(a: i64) -> (r: i64)
    ensures
        r == fx_neg_s(a as int),
{
    clamp_i128(-(a as i128))
}

/// Absolute value, saturating at `i64::MAX` for `i64::MIN`.
pub fn fx_abs(a: i64) -> (r: i64)
    ensures
        r == fx_sat_s(abs_s(a as int)),
{
    if a >= 0 {
        a
    } else {
        clamp_i128(-(a as i128))
    }
}

fn abs_mag(a: i64) -> (r: u64)
    ensures
        r == abs_s(a as int),
{
    if a >= 0 {
        a as u64
    } else {
        (-(a as i128)) as u64
    }
}

pub(crate) fn sat_signed(mag: u128, neg: bool) -> (r: i64)
    ensures
        r == fx_sat_s(if neg { -(mag as int) } else { mag as int }),
{
    if neg {
        if mag > i64::MAX as u128 {
            i64::MIN
        } else {
            -(mag as i64)
        }
    } else {
        if mag > i64::MAX as u128 {
            i64::MAX
        } else {
            mag as i64
        }
    }
}

proof fn lemma_abs_mul(a: int, b: int)
    ensures
        abs_s(a * b) == abs_s(a) * abs_s(b),
        (a * b < 0) <==> ((a < 0) != (b < 0) && a != 0 && b != 0),
{
    assert(abs_s(a * b) == abs_s(a) * abs_s(b) && ((a * b < 0) <==> ((a < 0) != (b < 0) && a != 0
        && b != 0))) by (nonlinear_arith);
}

/// Saturating fixed-point multiplication.
pub fn fx_mul(a: i64, b: i64) -> (r: i64)
    ensures
        r == fx_mul_s(a as int, b as int),
{
    let ua = abs_mag(a) as u128;
    let ub = abs_mag(b) as u128;
    proof {
        assert(ua * ub <= 0xFFFF_FFFF_FFFF_FFFFu128 * 0xFFFF_FFFF_FFFF_FFFFu128)
            by (nonlinear_arith)
            requires
                ua <= 0xFFFF_FFFF_FFFF_FFFFu128,
                ub <= 0xFFFF_FFFF_FFFF_FFFFu128,
        ;
    }
    let p = ua * ub;
    let q = p / (FX_ONE as u128);
    let neg = (a < 0) != (b < 0);
    proof {
        lemma_abs_mul(a as int, b as int);
        assert(p == abs_s((a as int) * (b as int)));
        assert(q == abs_s((a as int) * (b as int)) / (FX_ONE as int));
        if (a as int) * (b as int) < 0 {
            assert(neg);
            assert(div_trunc_s((a as int) * (b as int), FX_ONE as int) == -(q as int));
        } else {
            assert(div_trunc_s((a as int) * (b as int), FX_ONE as int) == q as int);
            if neg {
                assert(a == 0 || b == 0);
                assert(p == 0);
                assert(q == 0);
            }
        }
    }
    sat_signed(q, neg)
}

/// Saturating fixed-point division; yields 0 for a zero divisor, the
/// renderer's guarded-denominator fallback.
pub fn fx_div(a: i64, b: i64) -> (r: i64)
    ensures
        r == fx_div_s(a as int, b as int),
{
    if b == 0 {
        return 0;
    }
    let ua = abs_mag(a) as u128 * FX_ONE as u128;
    let ub = abs_mag(b) as u128;
    let q = ua / ub;
    let neg = (a < 0) != (b < 0);
    proof {
        lemma_abs_mul(a as int, FX_ONE as int);
        assert(ua == abs_s((a as int) * (FX_ONE as int)));
        assert(q == abs_s((a as int) * (FX_ONE as int)) / abs_s(b as int));
        if (a as int) * (FX_ONE as int) < 0 {
            assert(div_trunc_s((a as int) * (FX_ONE as int), b as int) == if b < 0 {
                q as int
            } else {
                -(q as int)
            });
        } else {
            assert(a >= 0);
            if a == 0 {
                assert(q == 0);
            }
            assert(div_trunc_s((a as int) * (FX_ONE as int), b as int) == if b < 0 && a != 0 {
                -(q as int)
            } else {
                q as int
            });
        }
    }
    sat_signed(q, neg)
}

/// Multiplying by a factor within `[-1, 1]` never grows the magnitude.
pub proof fn lemma_fx_mul_contracts(a: int, b: int)
    requires
        -FX_ONE <= b <= FX_ONE,
    ensures
        -abs_s(a) <= fx_mul_s(a, b) <= abs_s(a),
{
    lemma_abs_mul(a, b);
    assert(abs_s(a) * abs_s(b) <= abs_s(a) * FX_ONE) by (nonlinear_arith)
        requires
            0 <= abs_s(b) <= FX_ONE,
            0 <= abs_s(a),
    ;
    vstd::arithmetic::div_mod::lemma_div_is_ordered(
        abs_s(a) * abs_s(b),
        abs_s(a) * FX_ONE,
        FX_ONE as int,
    );
    vstd::arithmetic::div_mod::lemma_div_multiples_vanish(abs_s(a), FX_ONE as int);
    vstd::arithmetic::div_mod::lemma_div_pos_is_pos(abs_s(a) * abs_s(b), FX_ONE as int);
}

/// Clamp into `[lo, hi]`.
pub fn fx_clamp(v: i64, lo: i64, hi: i64) -> (r: i64)
    requires
        lo <= hi,
    ensures
        r == fx_clamp_s(v as int, lo as int, hi as int),
{
    if v < lo {
        lo
    } else if v > hi {
        hi
    } else {
        v
    }
}

/// Smaller of two values.
pub fn fx_min(a: i64, b: i64) -> (r: i64)
    ensures
        r == fx_min_s(a as int, b as int),
{
    if a < b {
        a
    } else {
        b
    }
}

/// Larger of two values.
pub fn fx_max(a: i64, b: i64) -> (r: i64)
    ensures
        r == fx_max_s(a as int, b as int),
{
    if a > b {
        a
    } else {
        b
    }
}

} // verus!
