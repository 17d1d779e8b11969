//! A five-band stereo equalizer that works in the frequency domain.
//!
//! One block of samples at a time is transformed into a spectrum, every
//! bin is scaled by a filter curve, and the spectrum is transformed back.
//! The curve is the product of a high-pass shelf, a low-pass shelf and
//! five hard-edged bands whose gains a listener sets while audio runs.
//!
//! All arithmetic is fixed point: frequencies are whole millihertz, gains
//! and magnitudes carry sixteen fractional bits, samples are signed 32-bit
//! numbers. The spectral transforms themselves work in floating point and
//! are handed in by the caller.
//!
//! - `fixed`: the fixed-point arithmetic.
//! - `curve`: the parameters and the filter curve they describe.
//! - `accuracy`: how close that curve is to the curve in exact arithmetic.
//! - `control`: control events and what each does to the parameters.
//! - `channel`: the checked hand-over of parameters to the audio side.
//! - `processor`: what happens to a block around the two transforms.

pub mod fixed;
pub mod curve;
pub mod accuracy;
pub mod control;
pub mod channel;
pub mod processor;
