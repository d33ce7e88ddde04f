//! Fixed-point square root and trigonometry.
//!
//! The renderer needs sqrt for vector norms, sine/cosine for rotations and
//! animated shading, and arcsine/arctangent for the frustum test and the
//! camera's direction decomposition.  Each function is a total fixed-point
//! approximation with an exact specification mirror, so callers' contracts
//! can pin results down to the bit.

use vstd::arithmetic::div_mod::lemma_div_is_ordered;
use vstd::prelude::*;

use crate::fx::{
    abs_s, fx_add, fx_add_s, fx_clamp, fx_clamp_s, fx_mul, fx_mul_s, FX_HALF_PI, FX_ONE, FX_PI,
    FX_QUARTER_PI,
};

verus! {

/// 2*pi in fixed point, kept exactly twice `FX_PI` so that angle folding
/// lands inside `[0, FX_PI]` on both halves.
pub const FX_TWO_PI_EXACT: i64 = 411774;

/// Polynomial constants of the arccosine approximation
/// `acos(x) ~= sqrt(1-x) * (c0 - c1*x)` on `[0, 1]`.
pub const ACOS_C0: i64 = 102940;

/// Linear coefficient of the arccosine approximation.
pub const ACOS_C1: i64 = 13903;

/// Quadratic-correction constant of the arctangent approximation
/// `atan(z) ~= z*pi/4 + 0.273*z*(1-z)` on `[0, 1]`.
pub const ATAN_C: i64 = 17892;

/// Floor of the square root, defined by primitive recursion.
pub open spec fn sqrt_floor(x: nat) -> nat
    decreases x,
{
    if x == 0 {
        0
    } else {
        let s = sqrt_floor((x - 1) as nat);
        if (s + 1) * (s + 1) <= x {
            s + 1
        } else {
            s
        }
    }
}

pub proof fn lemma_sqrt_floor_bounds(x: nat)
    ensures
        sqrt_floor(x) * sqrt_floor(x) <= x,
        x < (sqrt_floor(x) + 1) * (sqrt_floor(x) + 1),
    decreases x,
{
    let r = sqrt_floor(x);
    if x == 0 {
        assert(r == 0);
        assert(r * r <= x && x < (r + 1) * (r + 1)) by (nonlinear_arith)
            requires
                r == 0,
                x == 0nat,
        ;
    } else {
        lemma_sqrt_floor_bounds((x - 1) as nat);
        let s = sqrt_floor((x - 1) as nat);
        assert(s * s <= x - 1);
        assert((x - 1) < (s + 1) * (s + 1));
        if (s + 1) * (s + 1) <= x {
            assert(r == s + 1);
            assert(x < (r + 1) * (r + 1)) by (nonlinear_arith)
                requires
                    r == s + 1,
                    (x - 1) < (s + 1) * (s + 1),
            ;
        } else {
            assert(r == s);
            assert(r * r <= x);
        }
    }
}

pub proof fn lemma_sqrt_floor_unique(x: nat, r: nat)
    requires
        r * r <= x,
        x < (r + 1) * (r + 1),
    ensures
        r == sqrt_floor(x),
{
    lemma_sqrt_floor_bounds(x);
    let s = sqrt_floor(x);
    assert(r == s) by (nonlinear_arith)
        requires
            r * r <= x,
            x < (r + 1) * (r + 1),
            s * s <= x,
            x < (s + 1) * (s + 1),
    ;
}

pub proof fn lemma_sqrt_floor_mono(x: nat, y: nat)
    requires
        x <= y,
    ensures
        sqrt_floor(x) <= sqrt_floor(y),
{
    lemma_sqrt_floor_bounds(x);
    lemma_sqrt_floor_bounds(y);
    let a = sqrt_floor(x);
    let b = sqrt_floor(y);
    assert(a <= b) by (nonlinear_arith)
        requires
            a * a <= x,
            y < (b + 1) * (b + 1),
            x <= y,
    ;
}

/// Floor of the square root of a wide unsigned integer.
pub fn isqrt(x: u128) -> (r: u64)
    ensures
        r == sqrt_floor(x as nat),
{
    let mut lo: u64 = 0;
    let mut hi: u64 = 0xFFFF_FFFF_FFFF_FFFF;
    proof {
        assert((lo as nat) * (lo as nat) <= x as nat);
        assert((x as nat) < ((hi + 1) as nat) * ((hi + 1) as nat)) by (nonlinear_arith)
            requires
                x <= u128::MAX,
                hi == 0xFFFF_FFFF_FFFF_FFFFu64,
        ;
    }
    while lo < hi
        invariant
            lo <= hi,
            (lo as nat) * (lo as nat) <= x as nat,
            (x as nat) < ((hi + 1) as nat) * ((hi + 1) as nat),
        decreases hi - lo,
    {
        let gap: u64 = hi - lo;
        let mid: u64 = lo + gap / 2 + gap % 2;
        proof {
            assert(gap / 2 + gap % 2 <= gap);
            assert(gap >= 1 ==> gap / 2 + gap % 2 >= 1);
        }
        proof {
            assert((mid as u128) * (mid as u128) <= u128::MAX) by (nonlinear_arith)
                requires
                    mid <= 0xFFFF_FFFF_FFFF_FFFFu64,
            ;
        }
        let sq: u128 = (mid as u128) * (mid as u128);
        if sq <= x {
            lo = mid;
        } else {
            hi = mid - 1;
        }
    }
    proof {
        lemma_sqrt_floor_unique(x as nat, lo as nat);
    }
    lo
}

/// Fixed-point square root: `sqrt_fx_s(v) * sqrt_fx_s(v)` is close to
/// `v * FX_ONE`; non-positive inputs yield 0.
pub open spec fn sqrt_fx_s(v: int) -> int {
    if v <= 0 {
        0
    } else {
        sqrt_floor((v * FX_ONE) as nat) as int
    }
}

/// Fixed-point square root, total: non-positive inputs yield 0.
pub fn sqrt_fx(v: i64) -> (r: i64)
    ensures
        r == sqrt_fx_s(v as int),
        r >= 0,
{
    if v <= 0 {
        return 0;
    }
    proof {
        assert((v as int) * (FX_ONE as int) <= (i64::MAX as int) * (FX_ONE as int))
            by (nonlinear_arith)
            requires
                0 < v <= i64::MAX,
        ;
    }
    let wide: u128 = (v as u128) * (FX_ONE as u128);
    let root = isqrt(wide);
    proof {
        lemma_sqrt_floor_bounds(wide as nat);
        assert(sqrt_floor(wide as nat) < 0x1_0000_0000_0000u64) by (nonlinear_arith)
            requires
                sqrt_floor(wide as nat) * sqrt_floor(wide as nat) <= wide as nat,
                wide as nat <= (i64::MAX as nat) * (FX_ONE as nat),
        ;
    }
    root as i64
}

/// Folds an angle into `[0, FX_TWO_PI_EXACT)`.
pub open spec fn angle_mod_s(x: int) -> int {
    let m = abs_s(x) % (FX_TWO_PI_EXACT as int);
    if x >= 0 {
        m
    } else if m == 0 {
        0
    } else {
        FX_TWO_PI_EXACT - m
    }
}

/// Bhaskara's sine approximation `16*u*(pi-u) / (5*pi^2 - 4*u*(pi-u))`
/// for a folded angle `m` in `[0, FX_PI]`, in fixed point.
pub open spec fn sin_half_s(m: int) -> int {
    let a = m * (FX_PI - m);
    (16 * a * FX_ONE) / (5 * FX_PI * FX_PI - 4 * a)
}

/// Fixed-point sine over the whole angle range.
pub open spec fn sin_s(x: int) -> int {
    let m = angle_mod_s(x);
    if m <= FX_PI {
        sin_half_s(m)
    } else {
        -sin_half_s(m - FX_PI)
    }
}

/// Fixed-point cosine, as sine shifted a quarter turn.
pub open spec fn cos_s(x: int) -> int {
    sin_s(fx_add_s(x, FX_HALF_PI as int))
}

proof fn lemma_sin_half_bounds(m: int)
    requires
        0 <= m <= FX_PI,
    ensures
        0 <= sin_half_s(m) <= FX_ONE,
{
    let a = m * (FX_PI - m);
    let num = 16 * a * FX_ONE;
    let den = 5 * FX_PI * FX_PI - 4 * a;
    assert(0 <= a && 4 * a <= FX_PI * FX_PI) by (nonlinear_arith)
        requires
            0 <= m <= FX_PI,
            a == m * (FX_PI - m),
    ;
    assert(den >= 16 * a && den > 0);
    assert(num <= FX_ONE * den) by (nonlinear_arith)
        requires
            num == 16 * a * FX_ONE,
            den >= 16 * a,
            FX_ONE > 0,
    ;
    assert(num >= 0) by (nonlinear_arith)
        requires
            a >= 0,
            num == 16 * a * FX_ONE,
    ;
    lemma_div_is_ordered(num, FX_ONE * den, den);
    vstd::arithmetic::div_mod::lemma_div_multiples_vanish(FX_ONE as int, den);
    vstd::arithmetic::div_mod::lemma_div_pos_is_pos(num, den);
}

fn sin_half(m: i64) -> (r: i64)
    requires
        0 <= m <= FX_PI,
    ensures
        r == sin_half_s(m as int),
        0 <= r <= FX_ONE,
{
    proof {
        assert(m * (FX_PI - m) <= FX_PI * FX_PI) by (nonlinear_arith)
            requires
                0 <= m <= FX_PI,
        ;
        assert(m * (FX_PI - m) >= 0) by (nonlinear_arith)
            requires
                0 <= m <= FX_PI,
        ;
    }
    let a: i64 = m * (FX_PI - m);
    let num: i64 = 16 * a * FX_ONE;
    let den: i64 = 5 * FX_PI * FX_PI - 4 * a;
    proof {
        lemma_sin_half_bounds(m as int);
    }
    let q: u64 = (num as u64) / (den as u64);
    q as i64
}

/// Fixed-point sine: folds the angle, then applies Bhaskara's
/// approximation on each half turn.
pub fn sin_fx(x: i64) -> (r: i64)
    ensures
        r == sin_s(x as int),
        -FX_ONE <= r <= FX_ONE,
{
    let mag: u64 = if x >= 0 {
        x as u64
    } else {
        (-(x as i128)) as u64
    };
    let m0: u64 = mag % (FX_TWO_PI_EXACT as u64);
    let m: i64 = if x >= 0 {
        m0 as i64
    } else if m0 == 0 {
        0
    } else {
        FX_TWO_PI_EXACT - m0 as i64
    };
    proof {
        assert(m == angle_mod_s(x as int));
        assert(0 <= m < FX_TWO_PI_EXACT);
    }
    if m <= FX_PI {
        sin_half(m)
    } else {
        let s = sin_half(m - FX_PI);
        -s
    }
}

/// Fixed-point cosine.
pub fn cos_fx(x: i64) -> (r: i64)
    ensures
        r == cos_s(x as int),
        -FX_ONE <= r <= FX_ONE,
{
    sin_fx(fx_add(x, FX_HALF_PI))
}

/// Arccosine on `[0, FX_ONE]`: `sqrt(1-x) * (c0 - c1*x)`, exactly 0 at 1.
pub open spec fn acos_unit_s(x: int) -> int {
    fx_mul_s(sqrt_fx_s(FX_ONE - x), ACOS_C0 - fx_mul_s(ACOS_C1 as int, x))
}

/// Arccosine over `[-FX_ONE, FX_ONE]` (inputs are clamped into it).
pub open spec fn acos_s(x: int) -> int {
    let c = fx_clamp_s(x, -FX_ONE as int, FX_ONE as int);
    if c >= 0 {
        acos_unit_s(c)
    } else {
        FX_PI - acos_unit_s(-c)
    }
}

/// Arcsine over `[-FX_ONE, FX_ONE]` (inputs are clamped into it).
pub open spec fn asin_s(x: int) -> int {
    let c = fx_clamp_s(x, -FX_ONE as int, FX_ONE as int);
    if c >= 0 {
        FX_HALF_PI - acos_unit_s(c)
    } else {
        -(FX_HALF_PI - acos_unit_s(-c))
    }
}

/// `0 <= fx_mul_s(c, x) <= c` whenever `0 <= x <= FX_ONE` and `c >= 0`.
pub proof fn lemma_fx_mul_le_one(c: int, x: int)
    requires
        0 <= x <= FX_ONE,
        0 <= c,
    ensures
        0 <= fx_mul_s(c, x) <= c,
{
    let p = c * x;
    assert(0 <= p <= c * FX_ONE) by (nonlinear_arith)
        requires
            0 <= x <= FX_ONE,
            0 <= c,
            p == c * x,
    ;
    lemma_div_is_ordered(p, c * FX_ONE, FX_ONE as int);
    vstd::arithmetic::div_mod::lemma_div_multiples_vanish(c, FX_ONE as int);
    vstd::arithmetic::div_mod::lemma_div_pos_is_pos(p, FX_ONE as int);
}

/// Multiplication of non-negative fixed-point values is monotone in both
/// arguments.
pub proof fn lemma_fx_mul_mono_nonneg(a1: int, b1: int, a2: int, b2: int)
    requires
        0 <= a2 <= a1,
        0 <= b2 <= b1,
    ensures
        fx_mul_s(a2, b2) <= fx_mul_s(a1, b1),
{
    assert(0 <= a2 * b2 <= a1 * b1) by (nonlinear_arith)
        requires
            0 <= a2 <= a1,
            0 <= b2 <= b1,
    ;
    lemma_div_is_ordered(a2 * b2, a1 * b1, FX_ONE as int);
}

proof fn lemma_acos_unit_bounds(x: int)
    requires
        0 <= x <= FX_ONE,
    ensures
        0 <= acos_unit_s(x) <= FX_HALF_PI,
        x == FX_ONE ==> acos_unit_s(x) == 0,
{
    lemma_fx_mul_le_one(ACOS_C1 as int, x);
    let poly = ACOS_C0 - fx_mul_s(ACOS_C1 as int, x);
    assert(ACOS_C0 - ACOS_C1 <= poly <= ACOS_C0);
    let root = sqrt_fx_s(FX_ONE - x);
    if x == FX_ONE {
        assert(root == 0);
        assert(0 * poly == 0) by (nonlinear_arith);
        assert(fx_mul_s(0, poly) == 0);
    } else {
        assert(FX_ONE - x >= 1);
    }
    assert(root >= 0);
    if FX_ONE - x > 0 {
        lemma_sqrt_floor_bounds(((FX_ONE - x) * FX_ONE) as nat);
        assert(root * root <= (FX_ONE - x) * FX_ONE <= FX_ONE * FX_ONE) by (nonlinear_arith)
            requires
                root * root <= (FX_ONE - x) * FX_ONE,
                0 <= FX_ONE - x <= FX_ONE,
        ;
        assert(root <= FX_ONE) by (nonlinear_arith)
            requires
                root * root <= FX_ONE * FX_ONE,
                root >= 0,
        ;
    }
    lemma_fx_mul_mono_nonneg(FX_ONE as int, ACOS_C0 as int, root, poly);
    lemma_fx_mul_le_one(ACOS_C0 as int, FX_ONE as int);
    assert(fx_mul_s(FX_ONE as int, ACOS_C0 as int) == fx_mul_s(ACOS_C0 as int, FX_ONE as int));
    assert(fx_mul_s(root, poly) >= 0) by {
        assert(root * poly >= 0) by (nonlinear_arith)
            requires
                root >= 0,
                poly >= 0,
        ;
        vstd::arithmetic::div_mod::lemma_div_pos_is_pos(root * poly, FX_ONE as int);
    };
}

fn acos_unit(x: i64) -> (r: i64)
    requires
        0 <= x <= FX_ONE,
    ensures
        r == acos_unit_s(x as int),
        0 <= r <= FX_HALF_PI,
{
    let root = sqrt_fx(FX_ONE - x);
    let poly = ACOS_C0 - fx_mul(ACOS_C1, x);
    proof {
        lemma_acos_unit_bounds(x as int);
        lemma_fx_mul_le_one(ACOS_C1 as int, x as int);
    }
    fx_mul(root, poly)
}

/// Fixed-point arccosine; the input is clamped into `[-FX_ONE, FX_ONE]`.
pub fn acos_fx(x: i64) -> (r: i64)
    ensures
        r == acos_s(x as int),
        0 <= r <= FX_PI,
{
    let c = fx_clamp(x, -FX_ONE, FX_ONE);
    if c >= 0 {
        acos_unit(c)
    } else {
        let u = acos_unit(-c);
        FX_PI - u
    }
}

/// Fixed-point arcsine; the input is clamped into `[-FX_ONE, FX_ONE]`.
pub fn asin_fx(x: i64) -> (r: i64)
    ensures
        r == asin_s(x as int),
        -FX_HALF_PI <= r <= FX_HALF_PI,
{
    let c = fx_clamp(x, -FX_ONE, FX_ONE);
    if c >= 0 {
        let u = acos_unit(c);
        FX_HALF_PI - u
    } else {
        let u = acos_unit(-c);
        -(FX_HALF_PI - u)
    }
}

/// The arcsine approximation is monotone on `[0, FX_ONE]`: a larger ratio
/// never narrows the frustum's allowance cone.
pub proof fn lemma_asin_unit_mono(x: int, y: int)
    requires
        0 <= x <= y <= FX_ONE,
    ensures
        asin_s(x) <= asin_s(y),
{
    lemma_fx_mul_le_one(ACOS_C1 as int, x);
    lemma_fx_mul_le_one(ACOS_C1 as int, y);
    let px = ACOS_C0 - fx_mul_s(ACOS_C1 as int, x);
    let py = ACOS_C0 - fx_mul_s(ACOS_C1 as int, y);
    assert(py <= px) by {
        lemma_fx_mul_mono_nonneg(ACOS_C1 as int, y, ACOS_C1 as int, x);
    };
    let rx = sqrt_fx_s(FX_ONE - x);
    let ry = sqrt_fx_s(FX_ONE - y);
    assert(ry <= rx) by {
        if FX_ONE - y > 0 {
            lemma_sqrt_floor_mono(((FX_ONE - y) * FX_ONE) as nat, ((FX_ONE - x) * FX_ONE) as nat);
        } else {
            assert(ry == 0);
            assert(rx >= 0);
        }
    };
    assert(0 <= py && 0 <= ry);
    lemma_fx_mul_mono_nonneg(rx, px, ry, py);
    lemma_acos_unit_bounds(x);
    lemma_acos_unit_bounds(y);
}

/// Ratio `small * FX_ONE / large` of two non-negative magnitudes; 0 when
/// `large` is 0.
pub open spec fn ratio_unit_s(small: int, large: int) -> int {
    if large == 0 {
        0
    } else {
        small * FX_ONE / large
    }
}

fn ratio_unit(small: u64, large: u64) -> (r: i64)
    requires
        small <= large,
    ensures
        r == ratio_unit_s(small as int, large as int),
        0 <= r <= FX_ONE,
{
    if large == 0 {
        return 0;
    }
    proof {
        assert((small as int) * (FX_ONE as int) <= (u64::MAX as int) * (FX_ONE as int))
            by (nonlinear_arith)
            requires
                small <= u64::MAX,
        ;
    }
    let wide: u128 = (small as u128) * (FX_ONE as u128);
    let q: u128 = wide / (large as u128);
    proof {
        assert((small as int) * (FX_ONE as int) <= (large as int) * (FX_ONE as int))
            by (nonlinear_arith)
            requires
                small <= large,
        ;
        lemma_div_is_ordered(wide as int, (large as int) * (FX_ONE as int), large as int);
        vstd::arithmetic::div_mod::lemma_div_multiples_vanish(FX_ONE as int, large as int);
        vstd::arithmetic::div_mod::lemma_div_pos_is_pos(wide as int, large as int);
    }
    q as i64
}

/// The arctangent approximation `z*pi/4 + 0.273*z*(1-z)` on `[0, 1]`.
pub open spec fn atan_unit_s(z: int) -> int {
    fx_add_s(fx_mul_s(z, FX_QUARTER_PI as int), fx_mul_s(fx_mul_s(z, FX_ONE - z), ATAN_C as int))
}

proof fn lemma_atan_unit_bounds(z: int)
    requires
        0 <= z <= FX_ONE,
    ensures
        0 <= atan_unit_s(z) <= FX_HALF_PI,
{
    lemma_fx_mul_le_one(FX_QUARTER_PI as int, z);
    assert(fx_mul_s(z, FX_QUARTER_PI as int) == fx_mul_s(FX_QUARTER_PI as int, z));
    lemma_fx_mul_le_one(z, FX_ONE - z);
    assert(fx_mul_s(z, FX_ONE - z) <= z <= FX_ONE);
    lemma_fx_mul_le_one(ATAN_C as int, fx_mul_s(z, FX_ONE - z));
    assert(fx_mul_s(fx_mul_s(z, FX_ONE - z), ATAN_C as int) == fx_mul_s(
        ATAN_C as int,
        fx_mul_s(z, FX_ONE - z),
    ));
}

fn atan_unit(z: i64) -> (r: i64)
    requires
        0 <= z <= FX_ONE,
    ensures
        r == atan_unit_s(z as int),
        0 <= r <= FX_HALF_PI,
{
    proof {
        lemma_atan_unit_bounds(z as int);
    }
    let linear = fx_mul(z, FX_QUARTER_PI);
    let correction = fx_mul(fx_mul(z, FX_ONE - z), ATAN_C);
    fx_add(linear, correction)
}

/// Quadrant-folded arctangent of `y/x` over non-negative magnitudes.
pub open spec fn atan2_base_s(ay: int, ax: int) -> int {
    if ay <= ax {
        atan_unit_s(ratio_unit_s(ay, ax))
    } else {
        FX_HALF_PI - atan_unit_s(ratio_unit_s(ax, ay))
    }
}

/// Fixed-point two-argument arctangent, in `[-FX_PI, FX_PI]`.
pub open spec fn atan2_s(y: int, x: int) -> int {
    let base = atan2_base_s(abs_s(y), abs_s(x));
    let folded = if x >= 0 {
        base
    } else {
        FX_PI - base
    };
    if y < 0 {
        -folded
    } else {
        folded
    }
}

/// Fixed-point two-argument arctangent.
pub fn atan2_fx(y: i64, x: i64) -> (r: i64)
    ensures
        r == atan2_s(y as int, x as int),
        -FX_PI <= r <= FX_PI,
{
    let ay: u64 = if y >= 0 {
        y as u64
    } else {
        (-(y as i128)) as u64
    };
    let ax: u64 = if x >= 0 {
        x as u64
    } else {
        (-(x as i128)) as u64
    };
    let base: i64 = if ay <= ax {
        let z = ratio_unit(ay, ax);
        atan_unit(z)
    } else {
        let z = ratio_unit(ax, ay);
        let u = atan_unit(z);
        FX_HALF_PI - u
    };
    proof {
        assert(base == atan2_base_s(ay as int, ax as int));
        assert(0 <= base <= FX_HALF_PI);
    }
    let folded: i64 = if x >= 0 {
        base
    } else {
        FX_PI - base
    };
    if y < 0 {
        -folded
    } else {
        folded
    }
}

} // verus!
