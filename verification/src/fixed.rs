//! Fixed-point arithmetic shared by the filter curve and the block processor.
//!
//! Gains and magnitudes are unsigned numbers with sixteen fractional bits:
//! the integer `UNITY` stands for the multiplier one. Signed quantities
//! (samples, spectral coefficients) are scaled by such a magnitude with
//! rounding toward zero, so that a value and its negation are treated alike.

use vstd::prelude::*;

verus! {

/// The multiplier one.
pub const UNITY: u64 = 65536;

/// The product of two magnitudes, rounded down.
pub open spec fn mul_fixed(a: int, b: int) -> int {
    (a * b) / (UNITY as int)
}

/// The quotient `num / den` as a magnitude, rounded down; zero where `den` is zero.
pub open spec fn ratio_fixed(num: int, den: int) -> int {
    if den == 0 {
        0
    } else {
        (num * UNITY) / den
    }
}

/// The absolute value of `x`.
pub open spec fn magnitude(x: int) -> int {
    if x < 0 {
        -x
    } else {
        x
    }
}

/// `x` confined to the interval from `lo` to `hi`.
pub open spec fn clamp(x: int, lo: int, hi: int) -> int {
    if x < lo {
        lo
    } else if x > hi {
        hi
    } else {
        x
    }
}

/// `x` divided by a positive `n`, rounded toward zero.
pub open spec fn div_toward_zero(x: int, n: int) -> int {
    if x < 0 {
        -((-x) / n)
    } else {
        x / n
    }
}

/// A signed value times a magnitude, rounded toward zero.
pub open spec fn scale_fixed(x: int, m: int) -> int {
    div_toward_zero(x * m, UNITY as int)
}

/// `scale_fixed`, confined to what an `i64` holds.
pub open spec fn scale_saturating(x: int, m: int) -> int {
    clamp(scale_fixed(x, m), i64::MIN as int, i64::MAX as int)
}

/// Multiplying by `UNITY` changes nothing.
pub proof fn lemma_mul_fixed_unity(a: int)
    ensures
        mul_fixed(a, UNITY as int) == a,
        mul_fixed(UNITY as int, a) == a,
{
    assert((a * 65536) / 65536 == a) by (nonlinear_arith);
    assert((65536 * a) / 65536 == a) by (nonlinear_arith);
}

/// A product of magnitudes is a magnitude, and grows with both factors.
pub proof fn lemma_mul_fixed_bound(a: int, b: int, a_max: int, b_max: int)
    requires
        0 <= a <= a_max,
        0 <= b <= b_max,
    ensures
        0 <= a * b <= a_max * b_max,
        0 <= mul_fixed(a, b) <= mul_fixed(a_max, b_max),
{
    assert(0 <= a * b <= a_max * b_max) by (nonlinear_arith)
        requires
            0 <= a <= a_max,
            0 <= b <= b_max,
    ;
    let p = a * b;
    let q = a_max * b_max;
    assert(0 <= p / 65536 <= q / 65536) by (nonlinear_arith)
        requires
            0 <= p <= q,
    ;
}

/// A part of a whole is at most one.
pub proof fn lemma_ratio_fixed_bound(num: int, den: int)
    requires
        0 <= num <= den,
    ensures
        0 <= ratio_fixed(num, den) <= UNITY,
{
    if den != 0 {
        assert(0 <= (num * 65536) / den <= 65536) by (nonlinear_arith)
            requires
                0 <= num <= den,
                den > 0,
        ;
    }
}

/// A larger fraction has the larger fixed-point quotient.
pub proof fn lemma_ratio_fixed_ordered(a: int, b: int, c: int, d: int)
    requires
        0 <= a,
        0 <= c,
        0 < b,
        0 < d,
        a * d <= c * b,
    ensures
        ratio_fixed(a, b) <= ratio_fixed(c, d),
{
    let p = (a * 65536) / b;
    let q = (c * 65536) / d;
    assert(p * b <= a * 65536) by (nonlinear_arith)
        requires
            p == (a * 65536) / b,
            0 < b,
    ;
    assert(c * 65536 < (q + 1) * d) by (nonlinear_arith)
        requires
            q == (c * 65536) / d,
            0 < d,
    ;
    assert(p <= q) by (nonlinear_arith)
        requires
            p * b <= a * 65536,
            c * 65536 < (q + 1) * d,
            a * d <= c * b,
            0 < b,
            0 < d,
    ;
}

/// Scaling by `UNITY` changes nothing, and zero stays zero under any scaling.
pub proof fn lemma_scale_fixed_unity(x: int, m: int)
    ensures
        scale_fixed(x, UNITY as int) == x,
        scale_fixed(0, m) == 0,
{
    if x < 0 {
        assert((-(x * 65536)) / 65536 == -x) by (nonlinear_arith);
    } else {
        assert((x * 65536) / 65536 == x) by (nonlinear_arith);
    }
    assert(0 * m == 0) by (nonlinear_arith);
}

/// Scaling commutes with negation.
pub proof fn lemma_scale_fixed_odd(x: int, m: int)
    ensures
        scale_fixed(-x, m) == -scale_fixed(x, m),
{
    assert((-x) * m == -(x * m)) by (nonlinear_arith);
}

/// The product of two magnitudes, where it fits.
pub fn multiply(a: u64, b: u64) -> (r: u64)
    requires
        a * b <= u64::MAX,
    ensures
        r == mul_fixed(a as int, b as int),
{
    (a * b) / UNITY
}

/// The magnitude that stands for `num / den`; zero where `den` is zero.
pub fn ratio(num: u32, den: u64) -> (r: u64)
    ensures
        r == ratio_fixed(num as int, den as int),
        num <= den ==> r <= UNITY,
{
    proof {
        if num <= den {
            lemma_ratio_fixed_bound(num as int, den as int);
        }
    }
    if den == 0 {
        0
    } else {
        (num as u64 * UNITY) / den
    }
}

/// The absolute value of a signed number.
pub fn magnitude_of(x: i64) -> (r: u64)
    ensures
        r == magnitude(x as int),
{
    if x < 0 {
        let below: i64 = -(x + 1);
        below as u64 + 1
    } else {
        x as u64
    }
}

/// A signed value times a magnitude, rounded toward zero and saturated.
pub fn scale(x: i64, m: u64) -> (r: i64)
    ensures
        r == scale_saturating(x as int, m as int),
{
    let mag: u64 = magnitude_of(x);
    assert(mag as int * m as int <= 0x8000_0000_0000_0000 * 0xffff_ffff_ffff_ffff) by (nonlinear_arith)
        requires
            0 <= mag <= 0x8000_0000_0000_0000,
            0 <= m <= 0xffff_ffff_ffff_ffff,
    ;
    let product: u128 = mag as u128 * m as u128;
    let quotient: u128 = product / (UNITY as u128);
    proof {
        let xi = x as int;
        let mi = m as int;
        assert(magnitude(xi) * mi == magnitude(xi * mi) && (xi < 0 ==> xi * mi <= 0) && (xi >= 0
            ==> xi * mi >= 0)) by (nonlinear_arith)
            requires
                mi >= 0,
        ;
    }
    if x < 0 {
        if quotient >= 0x8000_0000_0000_0000 {
            i64::MIN
        } else {
            -(quotient as i64)
        }
    } else {
        if quotient > 0x7fff_ffff_ffff_ffff {
            i64::MAX
        } else {
            quotient as i64
        }
    }
}

} // verus!
