//! The filter curve: a high-pass shelf, a low-pass shelf and five
//! band-reject/boost filters, combined into one magnitude per frequency.
//!
//! Frequencies are whole millihertz. Gains and magnitudes are fixed-point
//! numbers in which `UNITY` stands for one (see `fixed`).

use vstd::prelude::*;
use crate::fixed::{lemma_mul_fixed_bound, lemma_mul_fixed_unity, lemma_ratio_fixed_bound,
    lemma_ratio_fixed_ordered, mul_fixed, multiply, ratio, ratio_fixed, UNITY};

verus! {

/// Millihertz in one hertz.
pub const MILLIHERTZ: u32 = 1000;

/// The number of band filters in an equalizer.
pub const BANDS: usize = 5;

/// The largest gain a band may have: sixty-four times `UNITY`. With it the
/// product of both shelves and all five bands still fits in 64 bits.
pub const MAX_GAIN: u32 = 4_194_304;

/// The largest magnitude a valid curve can reach: `UNITY` times `64` to the fifth.
pub const MAX_MAGNITUDE: u64 = 70_368_744_177_664;

/// A hard-edged band filter: inside the band the signal is multiplied by
/// `gain`, outside it is left alone.
#[derive(Clone, Copy, Debug, PartialEq, Eq)]
pub struct BandReject {
    /// Center frequency, in millihertz.
    pub center: u32,
    /// Full width of the band, in millihertz.
    pub bandwidth: u32,
    /// Multiplier inside the band; `UNITY` leaves the signal unchanged.
    pub gain: u32,
}

impl BandReject {
    /// A band that may be published: it has a place, a width and a bounded gain.
    pub open spec fn valid(&self) -> bool {
        &&& self.center > 0
        &&& self.bandwidth > 0
        &&& self.gain <= MAX_GAIN
    }

    /// Whether `f` lies within half the bandwidth of the center, edges included.
    pub open spec fn contains(&self, f: int) -> bool {
        2 * self.center - self.bandwidth <= 2 * f <= 2 * self.center + self.bandwidth
    }

    /// The multiplier this band applies at frequency `f`.
    pub open spec fn response(&self, f: int) -> int {
        if self.contains(f) {
            self.gain as int
        } else {
            UNITY as int
        }
    }

    /// A band around `center` that is `bandwidth` wide, both in
    /// millihertz, with the given gain.
    pub fn new(center: u32, bandwidth: u32, gain: u32) -> (band: Self)
        ensures
            band.center == center,
            band.bandwidth == bandwidth,
            band.gain == gain,
    {
        Self { center, bandwidth, gain }
    }

    /// The multiplier this band applies at `f` millihertz.
    pub fn curve_at_index(&self, f: u32) -> (r: u64)
        ensures
            r == self.response(f as int),
    {
        let twice_f: u64 = 2 * (f as u64);
        let twice_center: u64 = 2 * (self.center as u64);
        let width: u64 = self.bandwidth as u64;
        if twice_f + width >= twice_center && twice_f <= twice_center + width {
            self.gain as u64
        } else {
            UNITY
        }
    }
}

/// A first-order shelf: low-pass or high-pass around `cutoff`.
#[derive(Clone, Copy, Debug, PartialEq, Eq)]
pub struct Filter {
    /// `true` for a low-pass filter, `false` for a high-pass filter.
    pub low: bool,
    /// Cutoff frequency, in millihertz.
    pub cutoff: u32,
    /// A filter that is switched off passes everything unchanged.
    pub enabled: bool,
}

impl Filter {
    /// A filter that may be published: its cutoff is positive.
    pub open spec fn valid(&self) -> bool {
        self.cutoff > 0
    }

    /// The multiplier this filter applies at frequency `f`:
    /// `cutoff / (cutoff + f)` for a low-pass, `f / (cutoff + f)` for a
    /// high-pass, one where it is switched off.
    pub open spec fn response(&self, f: int) -> int {
        if !self.enabled {
            UNITY as int
        } else if self.low {
            ratio_fixed(self.cutoff as int, self.cutoff + f)
        } else {
            ratio_fixed(f, self.cutoff + f)
        }
    }

    /// A low-pass (`low`) or high-pass filter with its cutoff in
    /// millihertz, switched on or off.
    pub fn new(low: bool, cutoff: u32, enabled: bool) -> (filter: Self)
        ensures
            filter.low == low,
            filter.cutoff == cutoff,
            filter.enabled == enabled,
    {
        Self { low, cutoff, enabled }
    }

    /// The multiplier this filter applies at `f` millihertz. It never exceeds one.
    pub fn curve_at_index(&self, f: u32) -> (r: u64)
        ensures
            r == self.response(f as int),
            r <= UNITY,
    {
        if !self.enabled {
            UNITY
        } else {
            let den: u64 = self.cutoff as u64 + f as u64;
            if self.low {
                ratio(self.cutoff, den)
            } else {
                ratio(f, den)
            }
        }
    }
}

/// One complete set of equalizer parameters.
#[derive(Clone, Copy, Debug, PartialEq, Eq)]
pub struct FiveBandEQ {
    /// The low-pass shelf.
    pub lowpass: Filter,
    /// The high-pass shelf.
    pub highpass: Filter,
    /// The five bands, in the order of their controls.
    pub bands: [BandReject; 5],
}

/// The bound on the curve after the shelves and the first `k` bands.
pub open spec fn headroom(k: nat) -> int
    decreases k,
{
    if k == 0 {
        UNITY as int
    } else {
        64 * headroom((k - 1) as nat)
    }
}

impl FiveBandEQ {
    /// A parameter set that may be published: each shelf sits in its own
    /// slot with a positive cutoff, and every band is valid.
    pub open spec fn valid(&self) -> bool {
        &&& self.lowpass.low
        &&& !self.highpass.low
        &&& self.lowpass.valid()
        &&& self.highpass.valid()
        &&& forall|i: int| 0 <= i < BANDS ==> (#[trigger] self.bands@[i]).valid()
    }

    /// The parameter set whose curve is one everywhere: both shelves are
    /// switched off and every band has unit gain.
    pub open spec fn identity(&self) -> bool {
        &&& !self.lowpass.enabled
        &&& !self.highpass.enabled
        &&& forall|i: int| 0 <= i < BANDS ==> (#[trigger] self.bands@[i]).gain == UNITY
    }

    /// The two shelves combined.
    pub open spec fn shelves(&self, f: int) -> int {
        mul_fixed(self.highpass.response(f), self.lowpass.response(f))
    }

    /// The shelves combined with the first `k` bands, one fixed-point
    /// product after another.
    pub open spec fn partial(&self, f: int, k: nat) -> int
        decreases k,
    {
        if k == 0 {
            self.shelves(f)
        } else {
            mul_fixed(self.partial(f, (k - 1) as nat), self.bands@[k - 1].response(f))
        }
    }

    /// The magnitude of the whole curve at frequency `f`.
    pub open spec fn response(&self, f: int) -> int {
        self.partial(f, BANDS as nat)
    }

    /// The parameters an equalizer starts with: both shelves switched off
    /// (high-pass at 4 kHz, low-pass at 20 kHz) and five unit-gain bands
    /// centered at 60 Hz, 250 Hz, 1 kHz, 4 kHz and 12 kHz.
    pub open spec fn initial() -> Self {
        FiveBandEQ {
            lowpass: Filter { low: true, cutoff: 20_000_000, enabled: false },
            highpass: Filter { low: false, cutoff: 4_000_000, enabled: false },
            bands: [
                BandReject { center: 60_000, bandwidth: 60_000, gain: 65536 },
                BandReject { center: 250_000, bandwidth: 250_000, gain: 65536 },
                BandReject { center: 1_000_000, bandwidth: 1_000_000, gain: 65536 },
                BandReject { center: 4_000_000, bandwidth: 4_000_000, gain: 65536 },
                BandReject { center: 12_000_000, bandwidth: 12_000_000, gain: 65536 },
            ],
        }
    }

    /// The initial parameters. They are valid and their curve is the identity.
    pub fn new() -> (eq: Self)
        ensures
            eq == Self::initial(),
            eq.valid(),
            eq.identity(),
    {
        let eq = Self {
            lowpass: Filter::new(true, 20_000_000, false),
            highpass: Filter::new(false, 4_000_000, false),
            bands: [
                BandReject::new(60_000, 60_000, 65536),
                BandReject::new(250_000, 250_000, 65536),
                BandReject::new(1_000_000, 1_000_000, 65536),
                BandReject::new(4_000_000, 4_000_000, 65536),
                BandReject::new(12_000_000, 12_000_000, 65536),
            ],
        };
        assert(eq.bands@ =~= Self::initial().bands@);
        eq
    }

    /// The magnitude of the curve at `f` millihertz: the high-pass, the
    /// low-pass and the five bands multiplied together.
    pub fn evaluate(&self, f: u32) -> (m: u64)
        requires
            self.valid(),
        ensures
            m == self.response(f as int),
            m <= MAX_MAGNITUDE,
            self.identity() ==> m == UNITY,
    {
        proof {
            if self.identity() {
                lemma_identity_curve(*self, f as int);
            }
        }
        let high: u64 = self.highpass.curve_at_index(f);
        let low: u64 = self.lowpass.curve_at_index(f);
        proof {
            lemma_mul_fixed_bound(high as int, low as int, UNITY as int, UNITY as int);
            lemma_mul_fixed_unity(UNITY as int);
        }
        let mut acc: u64 = multiply(high, low);
        let mut i: usize = 0;
        while i < BANDS
            invariant
                i <= BANDS,
                self.valid(),
                acc == self.partial(f as int, i as nat),
                acc <= headroom(i as nat),
            decreases BANDS - i,
        {
            let g: u64 = self.bands[i].curve_at_index(f);
            proof {
                reveal_with_fuel(headroom, 6);
                assert(self.bands@[i as int].valid());
                lemma_mul_fixed_bound(acc as int, g as int, acc as int, MAX_GAIN as int);
            }
            acc = multiply(acc, g);
            i = i + 1;
        }
        proof {
            reveal_with_fuel(headroom, 6);
        }
        acc
    }
}

/// The curve of a valid parameter set is never negative and never exceeds
/// `MAX_MAGNITUDE`, at any frequency from zero up.
pub proof fn lemma_response_bounded(eq: FiveBandEQ, f: int)
    requires
        eq.valid(),
        0 <= f,
    ensures
        0 <= eq.response(f) <= MAX_MAGNITUDE,
{
    lemma_partial_bounded(eq, f, BANDS as nat);
    reveal_with_fuel(headroom, 6);
}

/// After the shelves and `k` bands the curve lies between zero and `headroom(k)`.
pub proof fn lemma_partial_bounded(eq: FiveBandEQ, f: int, k: nat)
    requires
        eq.valid(),
        0 <= f,
        k <= BANDS,
    ensures
        0 <= eq.partial(f, k) <= headroom(k),
    decreases k,
{
    if k == 0 {
        lemma_shelf_bounded(eq.highpass, f);
        lemma_shelf_bounded(eq.lowpass, f);
        lemma_mul_fixed_bound(
            eq.highpass.response(f),
            eq.lowpass.response(f),
            UNITY as int,
            UNITY as int,
        );
        lemma_mul_fixed_unity(UNITY as int);
    } else {
        let before = eq.partial(f, (k - 1) as nat);
        let g = eq.bands@[k - 1].response(f);
        lemma_partial_bounded(eq, f, (k - 1) as nat);
        assert(eq.bands@[k - 1].valid());
        lemma_mul_fixed_bound(before, g, headroom((k - 1) as nat), MAX_GAIN as int);
    }
}

/// A shelf never amplifies: its response lies between zero and one.
pub proof fn lemma_shelf_bounded(filter: Filter, f: int)
    requires
        0 <= f,
    ensures
        0 <= filter.response(f) <= UNITY,
{
    if filter.enabled {
        if filter.low {
            lemma_ratio_fixed_bound(filter.cutoff as int, filter.cutoff + f);
        } else {
            lemma_ratio_fixed_bound(f, filter.cutoff + f);
        }
    }
}

/// A high-pass filter lets nothing through at zero, exactly half at its
/// cutoff, and never less as the frequency rises.
pub proof fn lemma_high_pass_rises(filter: Filter, f: int, g: int)
    requires
        filter.valid(),
        filter.enabled,
        !filter.low,
        0 <= f <= g,
    ensures
        filter.response(0) == 0,
        filter.response(filter.cutoff as int) == UNITY / 2,
        filter.response(f) <= filter.response(g),
{
    let c = filter.cutoff as int;
    assert(f * (c + g) <= g * (c + f)) by (nonlinear_arith)
        requires
            0 <= f <= g,
            0 < c,
    ;
    lemma_ratio_fixed_ordered(f, c + f, g, c + g);
    assert((c * 65536) / (c + c) == 32768) by (nonlinear_arith)
        requires
            0 < c,
    ;
}

/// A low-pass filter lets everything through at zero, exactly half at its
/// cutoff, and never more as the frequency rises.
pub proof fn lemma_low_pass_falls(filter: Filter, f: int, g: int)
    requires
        filter.valid(),
        filter.enabled,
        filter.low,
        0 <= f <= g,
    ensures
        filter.response(0) == UNITY,
        filter.response(filter.cutoff as int) == UNITY / 2,
        filter.response(g) <= filter.response(f),
{
    let c = filter.cutoff as int;
    assert(c * (c + f) <= c * (c + g)) by (nonlinear_arith)
        requires
            0 <= f <= g,
            0 < c,
    ;
    lemma_ratio_fixed_ordered(c, c + g, c, c + f);
    assert((c * 65536) / (c + c) == 32768) by (nonlinear_arith)
        requires
            0 < c,
    ;
    assert((c * 65536) / c == 65536) by (nonlinear_arith)
        requires
            0 < c,
    ;
}

/// With both shelves switched off and every band at unit gain, the curve
/// is exactly one at every frequency.
pub proof fn lemma_identity_curve(eq: FiveBandEQ, f: int)
    requires
        eq.identity(),
    ensures
        eq.response(f) == UNITY,
{
    lemma_identity_partial(eq, f, BANDS as nat);
}

/// With both shelves switched off and every band at unit gain, the curve
/// is one after any number of bands.
pub proof fn lemma_identity_partial(eq: FiveBandEQ, f: int, k: nat)
    requires
        eq.identity(),
        k <= BANDS,
    ensures
        eq.partial(f, k) == UNITY,
    decreases k,
{
    lemma_mul_fixed_unity(UNITY as int);
    if k > 0 {
        lemma_identity_partial(eq, f, (k - 1) as nat);
        assert(eq.bands@[k - 1].gain == UNITY);
    }
}

/// Bands that do not contain `f`, or have unit gain, leave the curve at `f` alone.
pub proof fn lemma_idle_bands(eq: FiveBandEQ, f: int, from: nat, to: nat)
    requires
        from <= to <= BANDS,
        forall|i: int| from <= i < to ==> (#[trigger] eq.bands@[i]).response(f) == UNITY,
    ensures
        eq.partial(f, to) == eq.partial(f, from),
    decreases to,
{
    if from < to {
        lemma_idle_bands(eq, f, from, (to - 1) as nat);
        assert(eq.bands@[to - 1].response(f) == UNITY);
        lemma_mul_fixed_unity(eq.partial(f, (to - 1) as nat));
    }
}

/// With both shelves switched off, a frequency inside band `k`, and inside
/// no other band that changes anything, meets exactly the gain of band `k`.
pub proof fn lemma_single_band(eq: FiveBandEQ, f: int, k: int)
    requires
        0 <= k < BANDS,
        !eq.lowpass.enabled,
        !eq.highpass.enabled,
        eq.bands@[k].contains(f),
        forall|i: int| 0 <= i < BANDS && i != k ==> (#[trigger] eq.bands@[i]).response(f) == UNITY,
    ensures
        eq.response(f) == eq.bands@[k].gain,
{
    lemma_mul_fixed_unity(UNITY as int);
    lemma_idle_bands(eq, f, 0, k as nat);
    lemma_mul_fixed_unity(eq.bands@[k].gain as int);
    lemma_idle_bands(eq, f, (k + 1) as nat, BANDS as nat);
}

} // verus!
