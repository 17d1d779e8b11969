//! The block processor: everything that happens to one block of samples
//! between the two spectral transforms.
//!
//! Samples are signed 32-bit fixed-point numbers; spectral coefficients hold
//! their real and imaginary parts in 64 bits, which leaves room for the
//! growth of an unnormalized transform. The transforms themselves are
//! handed in by the caller.

use vstd::prelude::*;
use crate::curve::{lemma_identity_curve, lemma_response_bounded, FiveBandEQ, MAX_MAGNITUDE,
    MILLIHERTZ};
use crate::fixed::{clamp, div_toward_zero, lemma_scale_fixed_odd, lemma_scale_fixed_unity, magnitude,
    magnitude_of, scale, scale_fixed, scale_saturating};

verus! {

/// The highest sample rate, in hertz, whose Nyquist frequency in
/// millihertz still fits in 32 bits.
pub const MAX_SAMPLE_RATE: u32 = 8_589_934;

/// The overshoot limiter lets an output sample reach `LIMIT_NUMERATOR /
/// LIMIT_DENOMINATOR` times the magnitude of the input sample.
pub const LIMIT_NUMERATOR: u64 = 3;

pub const LIMIT_DENOMINATOR: u64 = 2;

/// One complex frequency-domain coefficient.
#[derive(Clone, Copy, Debug, PartialEq, Eq)]
pub struct Coefficient {
    pub re: i64,
    pub im: i64,
}

/// Why a processor could not be set up or a block could not be processed.
#[derive(Clone, Copy, Debug, PartialEq, Eq)]
pub enum ConfigError {
    /// The block size is zero.
    ZeroBlockSize,
    /// The sample rate is zero or above `MAX_SAMPLE_RATE`.
    InvalidSampleRate,
    /// A block or buffer does not have the length the processor was set up for.
    BlockSizeMismatch,
}

/// The bin whose frequency bin `i` of `n` shares: bins past the middle
/// mirror the ones before it.
pub open spec fn mirrored(i: int, n: int) -> int {
    if 2 * i > n {
        n - i
    } else {
        i
    }
}

/// The frequency of bin `i` of `n`, in millihertz rounded down, at a sample
/// rate of `rate` hertz.
pub open spec fn bin_frequency_at(i: int, n: int, rate: int) -> int {
    (mirrored(i, n) * (rate * MILLIHERTZ)) / n
}

/// The largest magnitude the limiter allows for an output sample, given
/// the input sample at the same position.
pub open spec fn limit(sample: int) -> int {
    (LIMIT_NUMERATOR * magnitude(sample)) / (LIMIT_DENOMINATOR as int)
}

/// `value` held within the limit that `sample` sets.
pub open spec fn limited(value: int, sample: int) -> int {
    clamp(value, -limit(sample), limit(sample))
}

/// The output sample for the real part `t` of an inverse-transformed
/// coefficient: normalized by the block size `n`, limited against the
/// input sample, and saturated to 32 bits.
pub open spec fn restored(t: int, sample: int, n: int) -> int {
    clamp(limited(div_toward_zero(t, n), sample), i32::MIN as int, i32::MAX as int)
}

/// A block as it enters the forward transform: the samples as real parts,
/// all imaginary parts zero.
pub open spec fn staged(input: Seq<i32>) -> Seq<Coefficient> {
    Seq::new(input.len(), |i: int| Coefficient { re: input[i] as i64, im: 0 })
}

/// A coefficient with both parts scaled by the magnitude `m`.
pub open spec fn scaled(c: Coefficient, m: int) -> Coefficient {
    Coefficient {
        re: scale_saturating(c.re as int, m) as i64,
        im: scale_saturating(c.im as int, m) as i64,
    }
}

/// Whether `transform` may be called on every buffer.
pub open spec fn accepts_all<F: Fn(Vec<Coefficient>) -> Vec<Coefficient>>(transform: F) -> bool {
    forall|buffer: Vec<Coefficient>| transform.requires((buffer,))
}

/// Whether `transform` always returns as many coefficients as it was given.
pub open spec fn keeps_length<F: Fn(Vec<Coefficient>) -> Vec<Coefficient>>(transform: F) -> bool {
    forall|given: Vec<Coefficient>, returned: Vec<Coefficient>| #[trigger]
        transform.ensures((given,), returned) ==> returned@.len() == given@.len()
}

/// Whether `inverse` undoes `forward` exactly, up to the factor `n` that
/// an unnormalized pair of transforms over `n` points leaves on the real
/// parts.
pub open spec fn exact_pair<
    F: Fn(Vec<Coefficient>) -> Vec<Coefficient>,
    G: Fn(Vec<Coefficient>) -> Vec<Coefficient>,
>(forward: F, inverse: G, n: int) -> bool {
    forall|
        given: Vec<Coefficient>,
        spectrum: Vec<Coefficient>,
        again: Vec<Coefficient>,
        time: Vec<Coefficient>,
    |
        {
            &&& given@.len() == n
            &&& #[trigger] forward.ensures((given,), spectrum)
            &&& again@ == spectrum@
            &&& #[trigger] inverse.ensures((again,), time)
        } ==> {
            &&& time@.len() == n
            &&& forall|i: int| 0 <= i < n ==> (#[trigger] time@[i]).re == n * given@[i].re
        }
}

/// Whether every output sample is within the limit that the input sample
/// at the same position sets.
pub open spec fn within_limits(input: Seq<i32>, output: Seq<i32>) -> bool {
    &&& output.len() == input.len()
    &&& forall|i: int|
        0 <= i < input.len() ==> magnitude(#[trigger] output[i] as int) <= limit(input[i] as int)
}

/// Whether every sample of a block is zero.
pub open spec fn silent(block: Seq<i32>) -> bool {
    forall|i: int| 0 <= i < block.len() ==> block[i] == 0
}

/// A processor for blocks of one fixed size at one sample rate.
#[derive(Debug)]
pub struct BlockProcessor {
    block_size: usize,
    sample_rate: u32,
}

impl BlockProcessor {
    #[verifier::type_invariant]
    spec fn well_formed(&self) -> bool {
        &&& self.block_size > 0
        &&& 0 < self.sample_rate <= MAX_SAMPLE_RATE
    }

    /// The number of samples in a block.
    pub closed spec fn size(&self) -> int {
        self.block_size as int
    }

    /// The sample rate, in hertz.
    pub closed spec fn rate(&self) -> int {
        self.sample_rate as int
    }

    /// The frequency of bin `i`, in millihertz.
    pub open spec fn frequency(&self, i: int) -> int {
        bin_frequency_at(i, self.size(), self.rate())
    }

    /// The magnitude by which `params` scales bin `i`.
    pub open spec fn multiplier(&self, params: FiveBandEQ, i: int) -> int {
        params.response(self.frequency(i))
    }

    /// A spectrum with every bin scaled by the curve of `params`.
    pub open spec fn shaped(&self, spectrum: Seq<Coefficient>, params: FiveBandEQ) -> Seq<
        Coefficient,
    > {
        Seq::new(spectrum.len(), |i: int| scaled(spectrum[i], self.multiplier(params, i)))
    }

    /// The output block for an inverse-transformed block `time` and the
    /// input block it came from.
    pub open spec fn finished(&self, time: Seq<Coefficient>, input: Seq<i32>) -> Seq<i32> {
        Seq::new(input.len(), |i: int| restored(time[i].re as int, input[i] as int, self.size()) as i32)
    }

    /// Whether `output` is what processing `input` under `params` gives
    /// for some pair of results that the two transforms may return.
    pub open spec fn explains<
        F: Fn(Vec<Coefficient>) -> Vec<Coefficient>,
        G: Fn(Vec<Coefficient>) -> Vec<Coefficient>,
    >(&self, input: Seq<i32>, params: FiveBandEQ, forward: F, inverse: G, output: Seq<i32>) -> bool {
        exists|
            staging: Vec<Coefficient>,
            spectrum: Vec<Coefficient>,
            shaped: Vec<Coefficient>,
            time: Vec<Coefficient>,
        |
            {
                &&& input.len() == self.size()
                &&& staging@ == staged(input)
                &&& #[trigger] forward.ensures((staging,), spectrum)
                &&& spectrum@.len() == self.size()
                &&& shaped@ == self.shaped(spectrum@, params)
                &&& #[trigger] inverse.ensures((shaped,), time)
                &&& time@.len() == self.size()
                &&& output == self.finished(time@, input)
            }
    }

    /// The calls on which processing must succeed: both blocks have the
    /// processor's size and neither transform changes a buffer's length.
    pub open spec fn owes_success<
        F: Fn(Vec<Coefficient>) -> Vec<Coefficient>,
        G: Fn(Vec<Coefficient>) -> Vec<Coefficient>,
    >(&self, input: Seq<i32>, output: Seq<i32>, forward: F, inverse: G) -> bool {
        &&& input.len() == self.size()
        &&& output.len() == self.size()
        &&& keeps_length(forward)
        &&& keeps_length(inverse)
    }

    /// A processor for blocks of `block_size` samples at `sample_rate` hertz.
    pub fn new(block_size: usize, sample_rate: u32) -> (r: Result<Self, ConfigError>)
        ensures
            r is Ok <==> block_size > 0 && 0 < sample_rate <= MAX_SAMPLE_RATE,
            r is Ok ==> r->Ok_0.size() == block_size && r->Ok_0.rate() == sample_rate,
            r is Err ==> r->Err_0 == (if block_size == 0 {
                ConfigError::ZeroBlockSize
            } else {
                ConfigError::InvalidSampleRate
            }),
    {
        if block_size == 0 {
            Err(ConfigError::ZeroBlockSize)
        } else if sample_rate == 0 || sample_rate > MAX_SAMPLE_RATE {
            Err(ConfigError::InvalidSampleRate)
        } else {
            Ok(Self { block_size, sample_rate })
        }
    }

    /// The number of samples in a block; never zero.
    pub fn block_size(&self) -> (n: usize)
        ensures
            n == self.size(),
            n > 0,
    {
        proof {
            use_type_invariant(self);
        }
        self.block_size
    }

    /// The sample rate, in hertz; positive and at most `MAX_SAMPLE_RATE`.
    pub fn sample_rate(&self) -> (rate: u32)
        ensures
            rate == self.rate(),
            0 < rate <= MAX_SAMPLE_RATE,
    {
        proof {
            use_type_invariant(self);
        }
        self.sample_rate
    }

    /// The frequency of bin `i`, in millihertz. It never exceeds the
    /// Nyquist frequency, half the sample rate.
    pub fn bin_frequency(&self, i: usize) -> (f: u32)
        requires
            i < self.size(),
        ensures
            f == self.frequency(i as int),
            2 * f <= self.rate() * MILLIHERTZ,
    {
        proof {
            use_type_invariant(self);
        }
        let n: usize = self.block_size;
        let k: usize = if i > n - i {
            n - i
        } else {
            i
        };
        let scale: u64 = self.sample_rate as u64 * (MILLIHERTZ as u64);
        proof {
            lemma_half_share(k as int, n as int, scale as int);
            assert(n * scale <= 0xffff_ffff_ffff_ffff * 8_589_934_000) by (nonlinear_arith)
                requires
                    0 <= n <= 0xffff_ffff_ffff_ffff,
                    0 <= scale <= 8_589_934_000,
            ;
        }
        let product: u128 = k as u128 * (scale as u128);
        let f: u128 = product / (n as u128);
        f as u32
    }

    /// Loads a block into `staging` for the forward transform: the samples
    /// become the real parts and every imaginary part is zero. A block of
    /// the wrong length is refused and `staging` is left as it was.
    pub fn stage(&self, input: &[i32], staging: &mut Vec<Coefficient>) -> (r: Result<
        (),
        ConfigError,
    >)
        ensures
            r is Ok <==> input@.len() == self.size(),
            r is Err ==> {
                &&& r == Err::<(), ConfigError>(ConfigError::BlockSizeMismatch)
                &&& final(staging)@ == old(staging)@
            },
            r is Ok ==> final(staging)@ == staged(input@),
    {
        if input.len() != self.block_size {
            return Err(ConfigError::BlockSizeMismatch);
        }
        staging.clear();
        let mut i: usize = 0;
        while i < input.len()
            invariant
                i <= input@.len(),
                staging@.len() == i,
                forall|j: int| 0 <= j < i ==> staging@[j] == staged(input@)[j],
            decreases input@.len() - i,
        {
            staging.push(Coefficient { re: input[i] as i64, im: 0 });
            i = i + 1;
        }
        assert(staging@ =~= staged(input@));
        Ok(())
    }

    /// Scales every bin of `spectrum` by the curve of `params` at the
    /// bin's frequency. A spectrum of the wrong length is refused and left
    /// as it was.
    pub fn shape(&self, spectrum: &mut Vec<Coefficient>, params: &FiveBandEQ) -> (r: Result<
        (),
        ConfigError,
    >)
        requires
            params.valid(),
        ensures
            r is Ok <==> old(spectrum)@.len() == self.size(),
            r is Err ==> {
                &&& r == Err::<(), ConfigError>(ConfigError::BlockSizeMismatch)
                &&& final(spectrum)@ == old(spectrum)@
            },
            r is Ok ==> final(spectrum)@ == self.shaped(old(spectrum)@, *params),
    {
        if spectrum.len() != self.block_size {
            return Err(ConfigError::BlockSizeMismatch);
        }
        let n: usize = self.block_size;
        let mut i: usize = 0;
        while i < n
            invariant
                i <= n,
                n == self.size(),
                params.valid(),
                spectrum@.len() == n,
                old(spectrum)@.len() == n,
                forall|j: int| 0 <= j < i ==> spectrum@[j] == self.shaped(old(spectrum)@, *params)[j],
                forall|j: int| i <= j < n ==> spectrum@[j] == old(spectrum)@[j],
            decreases n - i,
        {
            let m: u64 = params.evaluate(self.bin_frequency(i));
            let c: Coefficient = spectrum[i];
            spectrum[i] = Coefficient { re: scale(c.re, m), im: scale(c.im, m) };
            i = i + 1;
        }
        assert(spectrum@ =~= self.shaped(old(spectrum)@, *params));
        Ok(())
    }

    /// Turns an inverse-transformed block into the output block: every
    /// real part is divided by the block size, limited against the input
    /// sample at the same position and written to `output`. If any of the
    /// three blocks has the wrong length, nothing is written.
    pub fn finish(&self, input: &[i32], time: &[Coefficient], output: &mut Vec<i32>) -> (r: Result<
        (),
        ConfigError,
    >)
        ensures
            r is Ok <==> {
                &&& input@.len() == self.size()
                &&& time@.len() == self.size()
                &&& old(output)@.len() == self.size()
            },
            r is Err ==> {
                &&& r == Err::<(), ConfigError>(ConfigError::BlockSizeMismatch)
                &&& final(output)@ == old(output)@
            },
            r is Ok ==> final(output)@ == self.finished(time@, input@),
            r is Ok ==> within_limits(input@, final(output)@),
            r is Ok && silent(input@) ==> silent(final(output)@),
    {
        let n: usize = self.block_size;
        if input.len() != n || time.len() != n || output.len() != n {
            return Err(ConfigError::BlockSizeMismatch);
        }
        proof {
            use_type_invariant(self);
        }
        let mut i: usize = 0;
        while i < n
            invariant
                i <= n,
                0 < n == self.size(),
                input@.len() == n,
                time@.len() == n,
                output@.len() == n,
                forall|j: int| 0 <= j < i ==> output@[j] == self.finished(time@, input@)[j],
            decreases n - i,
        {
            output[i] = restore(time[i].re, input[i], n);
            i = i + 1;
        }
        assert(output@ =~= self.finished(time@, input@));
        proof {
            lemma_finished_within_limits(*self, time@, input@);
            if silent(input@) {
                lemma_limits_keep_silence(input@, output@);
            }
        }
        Ok(())
    }

    /// Processes one block: loads `input`, runs `forward`, scales every bin
    /// by the curve of `params`, runs `inverse`, then normalizes, limits
    /// and writes the result to `output`.
    ///
    /// `scratch` is storage that is reused from block to block; what it
    /// holds before and after the call is of no account. Whatever the two
    /// transforms return, no output sample exceeds the limit that its
    /// input sample sets. If a block has the wrong length, or a transform
    /// returns a buffer of the wrong length, nothing is written.
    pub fn process<
        F: Fn(Vec<Coefficient>) -> Vec<Coefficient>,
        G: Fn(Vec<Coefficient>) -> Vec<Coefficient>,
    >(
        &self,
        input: &[i32],
        output: &mut Vec<i32>,
        params: &FiveBandEQ,
        scratch: &mut Vec<Coefficient>,
        forward: F,
        inverse: G,
    ) -> (r: Result<(), ConfigError>)
        requires
            params.valid(),
            accepts_all(forward),
            accepts_all(inverse),
        ensures
            input@.len() != self.size() || old(output)@.len() != self.size() ==> r is Err,
            r is Err ==> r == Err::<(), ConfigError>(ConfigError::BlockSizeMismatch),
            r is Err ==> final(output)@ == old(output)@,
            r is Ok ==> self.explains(input@, *params, forward, inverse, final(output)@),
            r is Ok ==> within_limits(input@, final(output)@),
            r is Ok && silent(input@) ==> silent(final(output)@),
            self.owes_success(input@, old(output)@, forward, inverse) ==> r is Ok,
    {
        proof {
            use_type_invariant(self);
        }
        let n: usize = self.block_size;
        if input.len() != n || output.len() != n {
            return Err(ConfigError::BlockSizeMismatch);
        }
        if self.stage(input, scratch).is_err() {
            return Err(ConfigError::BlockSizeMismatch);
        }
        let mut staging: Vec<Coefficient> = Vec::new();
        core::mem::swap(scratch, &mut staging);
        let ghost staging_before = staging;
        let mut spectrum: Vec<Coefficient> = forward(staging);
        let ghost spectrum_before = spectrum;
        if self.shape(&mut spectrum, params).is_err() {
            core::mem::swap(scratch, &mut spectrum);
            return Err(ConfigError::BlockSizeMismatch);
        }
        let ghost shaped_before = spectrum;
        let mut time: Vec<Coefficient> = inverse(spectrum);
        let finished = self.finish(input, time.as_slice(), output);
        proof {
            assert(forward.ensures((staging_before,), spectrum_before));
            assert(inverse.ensures((shaped_before,), time));
        }
        core::mem::swap(scratch, &mut time);
        finished
    }
}

/// The output sample for the real part `t` of an inverse-transformed
/// coefficient and the input sample at the same position, in a block of
/// `n` samples.
pub fn restore(t: i64, sample: i32, n: usize) -> (out: i32)
    requires
        n > 0,
    ensures
        out == restored(t as int, sample as int, n as int),
        magnitude(out as int) <= limit(sample as int),
{
    let quotient: u64 = magnitude_of(t) / (n as u64);
    let ceiling: u64 = (LIMIT_NUMERATOR * magnitude_of(sample as i64)) / LIMIT_DENOMINATOR;
    let bounded: u64 = if quotient > ceiling {
        ceiling
    } else {
        quotient
    };
    if t < 0 {
        if bounded >= 0x8000_0000 {
            i32::MIN
        } else {
            -(bounded as i32)
        }
    } else {
        if bounded > 0x7fff_ffff {
            i32::MAX
        } else {
            bounded as i32
        }
    }
}

/// A share `k` of `n` that is at most half of it takes at most half of `whole`.
proof fn lemma_half_share(k: int, n: int, whole: int)
    requires
        0 <= k,
        2 * k <= n,
        0 < n,
        0 <= whole,
    ensures
        0 <= k * whole,
        k * whole <= n * whole,
        0 <= 2 * ((k * whole) / n) <= whole,
{
    assert(0 <= k * whole <= n * whole) by (nonlinear_arith)
        requires
            0 <= k <= n,
            0 <= whole,
    ;
    let q = (k * whole) / n;
    assert(0 <= q && q * n <= k * whole) by (nonlinear_arith)
        requires
            q == (k * whole) / n,
            0 <= k * whole,
            0 < n,
    ;
    assert(2 * q <= whole) by (nonlinear_arith)
        requires
            q * n <= k * whole,
            2 * k <= n,
            0 < n,
            0 <= whole,
            0 <= k,
            0 <= q,
    ;
}

/// No bin has a negative frequency.
pub proof fn lemma_frequency_not_negative(processor: BlockProcessor, i: int)
    requires
        0 <= i <= processor.size(),
        0 < processor.size(),
    ensures
        0 <= processor.frequency(i),
{
    let k = mirrored(i, processor.size());
    let whole = processor.rate() * MILLIHERTZ;
    let n = processor.size();
    assert(0 <= (k * whole) / n) by (nonlinear_arith)
        requires
            0 <= k,
            0 <= whole,
            0 < n,
    ;
}

/// Shaping keeps the symmetry that the spectrum of a real signal has:
/// two mirrored bins that are conjugates of each other before are
/// conjugates after, so long as the imaginary part does not saturate.
pub proof fn lemma_shape_keeps_symmetry(
    processor: BlockProcessor,
    params: FiveBandEQ,
    spectrum: Seq<Coefficient>,
    i: int,
)
    requires
        0 < i < processor.size(),
        spectrum.len() == processor.size(),
        spectrum[processor.size() - i].re == spectrum[i].re,
        spectrum[processor.size() - i].im == -spectrum[i].im,
        magnitude(scale_fixed(spectrum[i].im as int, processor.multiplier(params, i))) <= i64::MAX,
    ensures
        processor.shaped(spectrum, params)[processor.size() - i].re == processor.shaped(
            spectrum,
            params,
        )[i].re,
        processor.shaped(spectrum, params)[processor.size() - i].im == -processor.shaped(
            spectrum,
            params,
        )[i].im,
{
    lemma_mirror_symmetry(processor, params, i);
    lemma_scale_fixed_odd(spectrum[i].im as int, processor.multiplier(params, i));
}

/// Under valid parameters the multiplier of every bin lies between zero
/// and `MAX_MAGNITUDE`.
pub proof fn lemma_multiplier_bounded(processor: BlockProcessor, params: FiveBandEQ, i: int)
    requires
        params.valid(),
        0 < processor.size(),
        0 <= i < processor.size(),
    ensures
        0 <= processor.multiplier(params, i) <= MAX_MAGNITUDE,
{
    lemma_frequency_not_negative(processor, i);
    lemma_response_bounded(params, processor.frequency(i));
}

/// Bins that mirror each other have the same frequency, and so the same
/// multiplier under any parameters.
pub proof fn lemma_mirror_symmetry(processor: BlockProcessor, params: FiveBandEQ, i: int)
    requires
        0 < i < processor.size(),
    ensures
        processor.frequency(i) == processor.frequency(processor.size() - i),
        processor.multiplier(params, i) == processor.multiplier(params, processor.size() - i),
{
}

/// The limiter holds: whatever the inverse transform returned, the output
/// sample is no larger in magnitude than the limit its input sample sets.
pub proof fn lemma_limiter_holds(t: int, sample: int, n: int)
    requires
        n > 0,
    ensures
        magnitude(restored(t, sample, n)) <= limit(sample),
{
}

/// Silence stays silence: where the input sample is zero the output
/// sample is zero, whatever the inverse transform returned.
pub proof fn lemma_silence_stays_silent(t: int, n: int)
    requires
        n > 0,
    ensures
        restored(t, 0, n) == 0,
{
}

/// A finished block is within the limits that its input block sets,
/// whatever the inverse transform returned.
pub proof fn lemma_finished_within_limits(
    processor: BlockProcessor,
    time: Seq<Coefficient>,
    input: Seq<i32>,
)
    requires
        processor.size() > 0,
    ensures
        within_limits(input, processor.finished(time, input)),
{
    let output = processor.finished(time, input);
    assert forall|i: int| 0 <= i < input.len() implies magnitude(#[trigger] output[i] as int)
        <= limit(input[i] as int) by {
        lemma_limiter_holds(time[i].re as int, input[i] as int, processor.size());
    }
}

/// Within the limits, a silent input block leaves only a silent output block.
pub proof fn lemma_limits_keep_silence(input: Seq<i32>, output: Seq<i32>)
    requires
        within_limits(input, output),
        silent(input),
    ensures
        silent(output),
{
    assert forall|i: int| 0 <= i < output.len() implies output[i] == 0 by {
        assert(magnitude(output[i] as int) <= limit(input[i] as int));
    }
}

/// Under the identity curve every bin keeps the value the forward
/// transform gave it.
pub proof fn lemma_identity_shapes_nothing(
    processor: BlockProcessor,
    spectrum: Seq<Coefficient>,
    params: FiveBandEQ,
)
    requires
        params.identity(),
    ensures
        processor.shaped(spectrum, params) == spectrum,
{
    let shaped = processor.shaped(spectrum, params);
    assert forall|i: int| 0 <= i < spectrum.len() implies shaped[i] == spectrum[i] by {
        lemma_identity_curve(params, processor.frequency(i));
        lemma_scale_fixed_unity(spectrum[i].re as int, 0);
        lemma_scale_fixed_unity(spectrum[i].im as int, 0);
    }
    assert(shaped =~= spectrum);
}

/// Where the inverse transform returns exactly `n` times a sample, the
/// output sample is that sample: the limiter leaves it alone.
pub proof fn lemma_exact_round_trip(sample: i32, n: int)
    requires
        n > 0,
    ensures
        restored(n * sample, sample as int, n) == sample,
{
    let s = sample as int;
    if s < 0 {
        assert(n * s < 0) by (nonlinear_arith)
            requires
                n > 0,
                s < 0,
        ;
        assert((-(n * s)) / n == -s) by (nonlinear_arith)
            requires
                n > 0,
        ;
    } else {
        assert(n * s >= 0) by (nonlinear_arith)
            requires
                n > 0,
                s >= 0,
        ;
        assert((n * s) / n == s) by (nonlinear_arith)
            requires
                n > 0,
        ;
    }
}

/// Bypass: where the inverse transform returns exactly the block size
/// times the input block, the finished block is the input block.
pub proof fn lemma_bypass(processor: BlockProcessor, time: Seq<Coefficient>, input: Seq<i32>)
    requires
        processor.size() > 0,
        time.len() == input.len(),
        forall|i: int| 0 <= i < input.len() ==> time[i].re == processor.size() * input[i],
    ensures
        processor.finished(time, input) == input,
{
    let output = processor.finished(time, input);
    assert forall|i: int| 0 <= i < input.len() implies output[i] == input[i] by {
        lemma_exact_round_trip(input[i], processor.size());
    }
    assert(output =~= input);
}

/// Bypass through the whole processor: under the identity curve, and with
/// transforms that undo each other exactly, a processed block is the
/// input block.
pub proof fn lemma_process_bypass<
    F: Fn(Vec<Coefficient>) -> Vec<Coefficient>,
    G: Fn(Vec<Coefficient>) -> Vec<Coefficient>,
>(
    processor: BlockProcessor,
    input: Seq<i32>,
    params: FiveBandEQ,
    forward: F,
    inverse: G,
    output: Seq<i32>,
)
    requires
        processor.size() > 0,
        params.identity(),
        exact_pair(forward, inverse, processor.size()),
        processor.explains(input, params, forward, inverse, output),
    ensures
        output == input,
{
    let (staging, spectrum, shaped, time) = choose|
        staging: Vec<Coefficient>,
        spectrum: Vec<Coefficient>,
        shaped: Vec<Coefficient>,
        time: Vec<Coefficient>,
    |
        {
            &&& input.len() == processor.size()
            &&& staging@ == staged(input)
            &&& #[trigger] forward.ensures((staging,), spectrum)
            &&& spectrum@.len() == processor.size()
            &&& shaped@ == processor.shaped(spectrum@, params)
            &&& #[trigger] inverse.ensures((shaped,), time)
            &&& time@.len() == processor.size()
            &&& output == processor.finished(time@, input)
        };
    lemma_identity_shapes_nothing(processor, spectrum@, params);
    assert forall|i: int| 0 <= i < input.len() implies time@[i].re == processor.size()
        * input[i] by {
        assert(time@[i].re == processor.size() * staging@[i].re);
    }
    lemma_bypass(processor, time@, input);
}

} // verus!

