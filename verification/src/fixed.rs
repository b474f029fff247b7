//! Fixed-point scalar arithmetic.
//!
//! A scalar is an `i64` holding a real value scaled by [`FP_ONE`]
//! (so the raw value `1_500_000` stands for `1.5`). Every operation
//! clips its result into `[-FP_MAX, FP_MAX]`, so all operations are
//! total over well-formed scalars and no verified function can panic
//! or overflow.

use vstd::prelude::*;

verus! {

/// One unit of the fixed-point scale: raw values count millionths.
pub const FP_ONE: i64 = 1_000_000;

/// Half of one unit.
pub const FP_HALF: i64 = 500_000;

/// Largest raw magnitude a scalar may take; every operation clips to it.
pub const FP_MAX: i64 = 2_000_000_000_000_000_000;

/// Mathematical absolute value.
pub open spec fn iabs(x: int) -> int {
    if x < 0 { -x } else { x }
}

/// A raw value within the representable range.
pub open spec fn fp_in_range(x: int) -> bool {
    -(FP_MAX as int) <= x <= FP_MAX as int
}

/// Saturate a mathematical integer into the representable range.
pub open spec fn fp_clip(x: int) -> int {
    if x > FP_MAX as int {
        FP_MAX as int
    } else if x < -(FP_MAX as int) {
        -(FP_MAX as int)
    } else {
        x
    }
}

/// Saturating fixed-point addition.
pub open spec fn fp_add(a: int, b: int) -> int {
    fp_clip(a + b)
}

/// Saturating fixed-point subtraction.
pub open spec fn fp_sub(a: int, b: int) -> int {
    fp_clip(a - b)
}

/// Fixed-point product: magnitudes are multiplied, descaled with
/// truncation toward zero, and the sign is reattached.
pub open spec fn fp_mul(a: int, b: int) -> int {
    let m = (iabs(a) * iabs(b)) / (FP_ONE as int);
    if (a < 0) != (b < 0) {
        fp_clip(-m)
    } else {
        fp_clip(m)
    }
}

/// Fixed-point quotient, truncated toward zero; division by zero
/// yields zero by policy (callers guard degenerate geometry).
pub open spec fn fp_div(a: int, b: int) -> int {
    if b == 0 {
        0
    } else {
        let q = (iabs(a) * (FP_ONE as int)) / iabs(b);
        if (a < 0) != (b < 0) {
            fp_clip(-q)
        } else {
            fp_clip(q)
        }
    }
}

/// `r` is the integer square root of `n`.
pub open spec fn is_sqrt(n: int, r: int) -> bool {
    0 <= r && r * r <= n && n < (r + 1) * (r + 1)
}

/// The integer square root, as a function.
pub open spec fn sqrt_of(n: int) -> int {
    choose|r: int| is_sqrt(n, r)
}

/// Fixed-point square root of a nonnegative raw value
/// (`sqrt(x / S)` scaled back by `S` is `sqrt(x * S)` on raw values).
pub open spec fn fp_sqrt(x: int) -> int {
    sqrt_of(x * (FP_ONE as int))
}

/// The integer square root is unique, so any witness equals `sqrt_of`.
pub proof fn lemma_sqrt_unique(n: int, r: int)
    requires
        is_sqrt(n, r),
    ensures
        r == sqrt_of(n),
{
    assert(exists|q: int| is_sqrt(n, q));
    let s = sqrt_of(n);
    assert(is_sqrt(n, s));
    if r < s {
        assert((r + 1) * (r + 1) <= s * s) by (nonlinear_arith)
            requires
                0 <= r,
                r < s,
        ;
    }
    if s < r {
        assert((s + 1) * (s + 1) <= r * r) by (nonlinear_arith)
            requires
                0 <= s,
                s < r,
        ;
    }
}

/// Every nonnegative integer has an integer square root, so `sqrt_of`
/// satisfies its defining bracket.
pub proof fn lemma_sqrt_exists(n: int)
    requires
        0 <= n,
    ensures
        is_sqrt(n, sqrt_of(n)),
        0 <= sqrt_of(n),
    decreases n,
{
    if n == 0 {
        assert(is_sqrt(0, 0));
    } else {
        lemma_sqrt_exists(n - 1);
        let r = sqrt_of(n - 1);
        if (r + 1) * (r + 1) <= n {
            assert(is_sqrt(n, r + 1)) by (nonlinear_arith)
                requires
                    is_sqrt(n - 1, r),
                    (r + 1) * (r + 1) <= n,
            ;
        } else {
            assert(is_sqrt(n, r));
        }
        assert(exists|q: int| is_sqrt(n, q));
    }
}

/// The fixed-point square root of a nonnegative value satisfies the
/// integer-square-root bracket on the rescaled value.
pub proof fn lemma_fp_sqrt_bracket(x: int)
    requires
        0 <= x,
    ensures
        is_sqrt(x * (FP_ONE as int), fp_sqrt(x)),
        0 <= fp_sqrt(x),
{
    assert(0 <= x * (FP_ONE as int)) by (nonlinear_arith)
        requires
            0 <= x,
    ;
    lemma_sqrt_exists(x * (FP_ONE as int));
}

/// A square is never negative, so neither is a fixed-point square.
pub proof fn lemma_fp_square_nonneg(x: int)
    ensures
        0 <= fp_mul(x, x) <= FP_MAX as int,
{
    assert(0 <= iabs(x) * iabs(x)) by (nonlinear_arith)
        requires
            0 <= iabs(x),
    ;
}

/// Truncating division by a nonnegative scalar preserves order.
pub proof fn lemma_fp_div_ordered(x: int, y: int, d: int)
    requires
        x <= y,
        0 <= d,
    ensures
        fp_div(x, d) <= fp_div(y, d),
{
    if d != 0 {
        if 0 <= x {
            assert(iabs(x) * (FP_ONE as int) <= iabs(y) * (FP_ONE as int));
            vstd::arithmetic::div_mod::lemma_div_is_ordered(
                iabs(x) * (FP_ONE as int),
                iabs(y) * (FP_ONE as int),
                iabs(d),
            );
        } else if y < 0 {
            assert(iabs(y) * (FP_ONE as int) <= iabs(x) * (FP_ONE as int));
            vstd::arithmetic::div_mod::lemma_div_is_ordered(
                iabs(y) * (FP_ONE as int),
                iabs(x) * (FP_ONE as int),
                iabs(d),
            );
        } else {
            // x < 0 <= y: the left quotient is nonpositive, the right nonnegative.
            vstd::arithmetic::div_mod::lemma_div_pos_is_pos(iabs(x) * (FP_ONE as int), iabs(d));
            vstd::arithmetic::div_mod::lemma_div_pos_is_pos(iabs(y) * (FP_ONE as int), iabs(d));
        }
    }
}

/// Clip a double-width intermediate back into the scalar range.
pub fn clip_i128(x: i128) -> (r: i64)
    ensures
        r as int == fp_clip(x as int),
        fp_in_range(r as int),
{
    if x > FP_MAX as i128 {
        FP_MAX
    } else if x < -(FP_MAX as i128) {
        -FP_MAX
    } else {
        x as i64
    }
}

/// Saturating addition of two scalars.
pub fn add_fp(a: i64, b: i64) -> (r: i64)
    requires
        fp_in_range(a as int),
        fp_in_range(b as int),
    ensures
        r as int == fp_add(a as int, b as int),
        fp_in_range(r as int),
{
    clip_i128(a as i128 + b as i128)
}

/// Saturating subtraction of two scalars.
pub fn sub_fp(a: i64, b: i64) -> (r: i64)
    requires
        fp_in_range(a as int),
        fp_in_range(b as int),
    ensures
        r as int == fp_sub(a as int, b as int),
        fp_in_range(r as int),
{
    clip_i128(a as i128 - b as i128)
}

/// Negation of a scalar.
pub fn neg_fp(a: i64) -> (r: i64)
    requires
        fp_in_range(a as int),
    ensures
        r as int == -(a as int),
        fp_in_range(r as int),
{
    -a
}

/// Magnitude of a scalar as a double-width unsigned value.
fn abs_u128(a: i64) -> (r: u128)
    requires
        fp_in_range(a as int),
    ensures
        r as int == iabs(a as int),
        r <= FP_MAX as u128,
{
    if a < 0 {
        (-(a as i128)) as u128
    } else {
        a as u128
    }
}

/// Saturating fixed-point multiplication.
pub fn mul_fp(a: i64, b: i64) -> (r: i64)
    requires
        fp_in_range(a as int),
        fp_in_range(b as int),
    ensures
        r as int == fp_mul(a as int, b as int),
        fp_in_range(r as int),
{
    let neg = (a < 0) != (b < 0);
    let aa = abs_u128(a);
    let bb = abs_u128(b);
    assert(aa * bb <= 4_000_000_000_000_000_000_000_000_000_000_000_000u128) by (nonlinear_arith)
        requires
            aa <= 2_000_000_000_000_000_000u128,
            bb <= 2_000_000_000_000_000_000u128,
    ;
    let m: u128 = (aa * bb) / (FP_ONE as u128);
    let mc: i64 = if m > FP_MAX as u128 {
        FP_MAX
    } else {
        m as i64
    };
    if neg {
        -mc
    } else {
        mc
    }
}

/// Saturating fixed-point division; a zero divisor yields zero.
pub fn div_fp(a: i64, b: i64) -> (r: i64)
    requires
        fp_in_range(a as int),
        fp_in_range(b as int),
    ensures
        r as int == fp_div(a as int, b as int),
        fp_in_range(r as int),
{
    if b == 0 {
        return 0;
    }
    let neg = (a < 0) != (b < 0);
    let aa = abs_u128(a);
    let bb = abs_u128(b);
    assert(aa * (FP_ONE as u128) <= 2_000_000_000_000_000_000_000_000u128) by (nonlinear_arith)
        requires
            aa <= 2_000_000_000_000_000_000u128,
    ;
    let q: u128 = (aa * (FP_ONE as u128)) / bb;
    let qc: i64 = if q > FP_MAX as u128 {
        FP_MAX
    } else {
        q as i64
    };
    if neg {
        -qc
    } else {
        qc
    }
}

/// Integer square root by bisection.
fn isqrt(n: u128) -> (r: u64)
    requires
        n <= 4_000_000_000_000_000_000_000_000u128,
    ensures
        is_sqrt(n as int, r as int),
{
    if n == 0 {
        return 0;
    }
    let mut lo: u128 = 0;
    let mut hi: u128 = 2_000_000_000_001;
    assert(n < hi * hi) by (nonlinear_arith)
        requires
            n <= 4_000_000_000_000_000_000_000_000u128,
            hi == 2_000_000_000_001u128,
    ;
    while lo + 1 < hi
        invariant
            lo * lo <= n,
            n < hi * hi,
            lo < hi,
            hi <= 2_000_000_000_001,
        decreases hi - lo,
    {
        let mid = lo + (hi - lo) / 2;
        assert(lo < mid < hi);
        assert(mid * mid <= 8_000_000_000_008_000_000_000_002u128) by (nonlinear_arith)
            requires
                mid <= 2_000_000_000_001u128,
        ;
        if mid * mid <= n {
            lo = mid;
        } else {
            hi = mid;
        }
    }
    assert(hi == lo + 1);
    assert(lo <= 2_000_000_000_001u128);
    lo as u64
}

/// Fixed-point square root of a nonnegative scalar.
pub fn sqrt_fp(x: i64) -> (r: i64)
    requires
        0 <= x,
        fp_in_range(x as int),
    ensures
        r as int == fp_sqrt(x as int),
        is_sqrt(x as int * (FP_ONE as int), r as int),
        0 <= r,
        fp_in_range(r as int),
{
    let n: u128 = (x as u128) * (FP_ONE as u128);
    let r = isqrt(n);
    proof {
        lemma_sqrt_unique(n as int, r as int);
        assert(r as int <= 2_000_000_000_000i64 as int) by (nonlinear_arith)
            requires
                is_sqrt(n as int, r as int),
                n <= 2_000_000_000_000_000_000_000_000u128,
        ;
    }
    r as i64
}

} // verus!
