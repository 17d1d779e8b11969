//! How far the fixed-point curve is from the curve in exact arithmetic.
//!
//! The exact curve at a frequency is a fraction: the product of the two
//! shelf fractions and the five band gains. The fixed-point curve rounds
//! down after every product, so it never exceeds the exact curve, and it
//! falls short of it by less than a slack that is counted here in units
//! of the last fractional bit.

use vstd::prelude::*;
use crate::curve::{lemma_partial_bounded, lemma_shelf_bounded, Filter, FiveBandEQ, BANDS};
use crate::fixed::{mul_fixed, UNITY};

verus! {

/// The number of whole units it takes to cover the gain `g`.
pub open spec fn whole_units(g: int) -> int {
    (g + UNITY - 1) / (UNITY as int)
}

impl Filter {
    /// The numerator of the exact response at frequency `f`.
    pub open spec fn numerator(&self, f: int) -> int {
        if !self.enabled {
            1
        } else if self.low {
            self.cutoff as int
        } else {
            f
        }
    }

    /// The denominator of the exact response at frequency `f`.
    pub open spec fn denominator(&self, f: int) -> int {
        if !self.enabled {
            1
        } else {
            self.cutoff + f
        }
    }
}

impl FiveBandEQ {
    /// The numerator of the exact curve after the shelves and `k` bands,
    /// counted in units of `1 / UNITY`.
    pub open spec fn exact_numerator(&self, f: int, k: nat) -> int
        decreases k,
    {
        if k == 0 {
            UNITY * (self.highpass.numerator(f) * self.lowpass.numerator(f))
        } else {
            self.exact_numerator(f, (k - 1) as nat) * self.bands@[k - 1].response(f)
        }
    }

    /// The denominator that goes with `exact_numerator`.
    pub open spec fn exact_denominator(&self, f: int, k: nat) -> int
        decreases k,
    {
        if k == 0 {
            self.highpass.denominator(f) * self.lowpass.denominator(f)
        } else {
            self.exact_denominator(f, (k - 1) as nat) * UNITY
        }
    }

    /// The bound on what rounding has cost after the shelves and `k`
    /// bands: four units for the shelves, then for every band the slack so
    /// far times the whole units of its gain, and one unit more.
    pub open spec fn slack(&self, f: int, k: nat) -> int
        decreases k,
    {
        if k == 0 {
            4
        } else {
            self.slack(f, (k - 1) as nat) * whole_units(self.bands@[k - 1].response(f)) + 1
        }
    }
}

/// The fixed-point response of a shelf is its exact response rounded down.
pub proof fn lemma_shelf_rounds_down(filter: Filter, f: int)
    requires
        filter.valid(),
        0 <= f,
    ensures
        0 <= filter.numerator(f),
        0 < filter.denominator(f),
        filter.response(f) * filter.denominator(f) <= filter.numerator(f) * UNITY,
        filter.numerator(f) * UNITY < (filter.response(f) + 1) * filter.denominator(f),
{
    if filter.enabled {
        let n = filter.numerator(f);
        let d = filter.denominator(f);
        let x = (n * 65536) / d;
        assert(x * d <= n * 65536 < (x + 1) * d) by (nonlinear_arith)
            requires
                x == (n * 65536) / d,
                0 < d,
        ;
    }
}

/// The product of two rounded-down factors, rounded down once more, is
/// within four units of the exact product.
proof fn lemma_shelves_accuracy(x: int, y: int, hn: int, hd: int, ln: int, ld: int)
    requires
        0 <= x <= UNITY,
        0 <= y <= UNITY,
        0 <= hn,
        0 <= ln,
        0 < hd,
        0 < ld,
        x * hd <= hn * UNITY < (x + 1) * hd,
        y * ld <= ln * UNITY < (y + 1) * ld,
    ensures
        0 < hd * ld,
        mul_fixed(x, y) * (hd * ld) <= UNITY * (hn * ln),
        UNITY * (hn * ln) < (mul_fixed(x, y) + 4) * (hd * ld),
{
    let s = (x * y) / 65536;
    let a = hn * 65536;
    let b = ln * 65536;
    assert(0 <= s && s * 65536 <= x * y < (s + 1) * 65536) by (nonlinear_arith)
        requires
            s == (x * y) / 65536,
            0 <= x,
            0 <= y,
    ;
    assert(0 < hd * ld) by (nonlinear_arith)
        requires
            0 < hd,
            0 < ld,
    ;
    // never above
    assert((x * hd) * (y * ld) <= a * b) by (nonlinear_arith)
        requires
            0 <= x * hd <= a,
            0 <= y * ld <= b,
    ;
    assert(0 <= x * hd && 0 <= y * ld) by (nonlinear_arith)
        requires
            0 <= x,
            0 <= y,
            0 < hd,
            0 < ld,
    ;
    assert((s * 65536) * (hd * ld) <= (x * y) * (hd * ld)) by (nonlinear_arith)
        requires
            s * 65536 <= x * y,
            0 < hd * ld,
    ;
    assert((x * y) * (hd * ld) == (x * hd) * (y * ld)) by (nonlinear_arith);
    assert(a * b == 65536 * (65536 * (hn * ln))) by (nonlinear_arith)
        requires
            a == hn * 65536,
            b == ln * 65536,
    ;
    assert((s * 65536) * (hd * ld) == 65536 * (s * (hd * ld))) by (nonlinear_arith);
    // less than four units below
    assert(a * b < ((x + 1) * hd) * ((y + 1) * ld)) by (nonlinear_arith)
        requires
            0 <= a < (x + 1) * hd,
            0 <= b < (y + 1) * ld,
    ;
    assert(((x + 1) * hd) * ((y + 1) * ld) == (x * y + x + y + 1) * (hd * ld)) by (nonlinear_arith);
    assert((x * y + x + y + 1) * (hd * ld) <= ((s + 4) * 65536) * (hd * ld)) by (nonlinear_arith)
        requires
            x * y + x + y + 1 <= (s + 4) * 65536,
            0 < hd * ld,
    ;
    assert(((s + 4) * 65536) * (hd * ld) == 65536 * ((s + 4) * (hd * ld))) by (nonlinear_arith);
}

/// One more band: a product that is rounded down stays at or below the
/// exact product, and the slack grows as `slack` says.
proof fn lemma_band_accuracy(p: int, e: int, g: int, num: int, den: int)
    requires
        0 <= p,
        0 <= e,
        0 <= g,
        0 < den,
        p * den <= num < (p + e) * den,
    ensures
        0 < den * UNITY,
        mul_fixed(p, g) * (den * UNITY) <= num * g,
        num * g < (mul_fixed(p, g) + e * whole_units(g) + 1) * (den * UNITY),
{
    let q = (p * g) / 65536;
    let c = (g + 65535) / 65536;
    assert(0 <= q && q * 65536 <= p * g < (q + 1) * 65536) by (nonlinear_arith)
        requires
            q == (p * g) / 65536,
            0 <= p,
            0 <= g,
    ;
    assert(0 <= c && g <= c * 65536) by (nonlinear_arith)
        requires
            c == (g + 65535) / 65536,
            0 <= g,
    ;
    // never above
    assert((q * 65536) * den <= (p * g) * den) by (nonlinear_arith)
        requires
            q * 65536 <= p * g,
            0 < den,
    ;
    assert((p * g) * den == (p * den) * g) by (nonlinear_arith);
    assert((p * den) * g <= num * g) by (nonlinear_arith)
        requires
            p * den <= num,
            0 <= g,
    ;
    assert((q * 65536) * den == q * (den * 65536)) by (nonlinear_arith);
    // the slack
    assert(num * g <= ((p + e) * den) * g) by (nonlinear_arith)
        requires
            num < (p + e) * den,
            0 <= g,
    ;
    assert(((p + e) * den) * g == (p * g + e * g) * den) by (nonlinear_arith);
    assert(e * g <= e * (c * 65536)) by (nonlinear_arith)
        requires
            0 <= e,
            g <= c * 65536,
    ;
    assert(e * (c * 65536) == (e * c) * 65536) by (nonlinear_arith);
    assert((p * g + e * g) * den < ((q + e * c + 1) * 65536) * den) by (nonlinear_arith)
        requires
            p * g + e * g < (q + e * c + 1) * 65536,
            0 < den,
    ;
    assert(((q + e * c + 1) * 65536) * den == (q + e * c + 1) * (den * 65536)) by (nonlinear_arith);
}

/// The slack is never negative.
pub proof fn lemma_slack_not_negative(eq: FiveBandEQ, f: int, k: nat)
    requires
        k <= BANDS,
    ensures
        0 <= eq.slack(f, k),
    decreases k,
{
    if k > 0 {
        lemma_slack_not_negative(eq, f, (k - 1) as nat);
        let e = eq.slack(f, (k - 1) as nat);
        let g = eq.bands@[k - 1].response(f);
        let c = whole_units(g);
        assert(0 <= c) by (nonlinear_arith)
            requires
                c == (g + 65535) / 65536,
                0 <= g,
        ;
        assert(0 <= e * c) by (nonlinear_arith)
            requires
                0 <= e,
                0 <= c,
        ;
    }
}

/// After the shelves and `k` bands, the fixed-point curve is at most the
/// exact curve and less than `slack` units below it.
pub proof fn lemma_partial_accuracy(eq: FiveBandEQ, f: int, k: nat)
    requires
        eq.valid(),
        0 <= f,
        k <= BANDS,
    ensures
        0 < eq.exact_denominator(f, k),
        eq.partial(f, k) * eq.exact_denominator(f, k) <= eq.exact_numerator(f, k),
        eq.exact_numerator(f, k) < (eq.partial(f, k) + eq.slack(f, k)) * eq.exact_denominator(f, k),
    decreases k,
{
    if k == 0 {
        lemma_shelf_rounds_down(eq.highpass, f);
        lemma_shelf_rounds_down(eq.lowpass, f);
        lemma_shelf_bounded(eq.highpass, f);
        lemma_shelf_bounded(eq.lowpass, f);
        lemma_shelves_accuracy(
            eq.highpass.response(f),
            eq.lowpass.response(f),
            eq.highpass.numerator(f),
            eq.highpass.denominator(f),
            eq.lowpass.numerator(f),
            eq.lowpass.denominator(f),
        );
    } else {
        let before = (k - 1) as nat;
        lemma_partial_accuracy(eq, f, before);
        lemma_partial_bounded(eq, f, before);
        lemma_slack_not_negative(eq, f, before);
        assert(eq.bands@[k - 1].valid());
        lemma_band_accuracy(
            eq.partial(f, before),
            eq.slack(f, before),
            eq.bands@[k - 1].response(f),
            eq.exact_numerator(f, before),
            eq.exact_denominator(f, before),
        );
    }
}

/// The whole curve: at every frequency the fixed-point response is at
/// most the exact curve and less than `slack` units below it.
pub proof fn lemma_curve_accuracy(eq: FiveBandEQ, f: int)
    requires
        eq.valid(),
        0 <= f,
    ensures
        0 < eq.exact_denominator(f, BANDS as nat),
        eq.response(f) * eq.exact_denominator(f, BANDS as nat) <= eq.exact_numerator(
            f,
            BANDS as nat,
        ),
        eq.exact_numerator(f, BANDS as nat) < (eq.response(f) + eq.slack(f, BANDS as nat))
            * eq.exact_denominator(f, BANDS as nat),
{
    lemma_partial_accuracy(eq, f, BANDS as nat);
}

/// Where no band boosts, rounding costs less than nine units in all.
pub proof fn lemma_slack_without_boost(eq: FiveBandEQ, f: int, k: nat)
    requires
        k <= BANDS,
        forall|i: int| 0 <= i < BANDS ==> (#[trigger] eq.bands@[i]).gain <= UNITY,
    ensures
        0 <= eq.slack(f, k) <= 4 + k,
    decreases k,
{
    if k > 0 {
        lemma_slack_without_boost(eq, f, (k - 1) as nat);
        let e = eq.slack(f, (k - 1) as nat);
        let g = eq.bands@[k - 1].response(f);
        let c = whole_units(g);
        assert(eq.bands@[k - 1].gain <= UNITY);
        assert(0 <= c <= 1) by (nonlinear_arith)
            requires
                c == (g + 65535) / 65536,
                0 <= g <= 65536,
        ;
        assert(0 <= e * c <= e) by (nonlinear_arith)
            requires
                0 <= e,
                0 <= c <= 1,
        ;
    }
}

} // verus!
