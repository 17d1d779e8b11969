//! The parameter channel: the place where the control side hands complete
//! parameter sets to the audio side.
//!
//! A set is checked before it is accepted. The channel always holds one
//! whole, valid set: the initial one, or the last one that was accepted.

use vstd::prelude::*;
use crate::control::Message;
use crate::curve::{FiveBandEQ, BANDS, MAX_GAIN};

verus! {

/// Why a parameter set was refused.
#[derive(Clone, Copy, Debug, PartialEq, Eq)]
pub enum ParameterError {
    /// The low-pass slot holds a high-pass filter or a cutoff of zero.
    Lowpass,
    /// The high-pass slot holds a low-pass filter or a cutoff of zero.
    Highpass,
    /// The band with this index has a center or a bandwidth of zero, or a
    /// gain above `MAX_GAIN`; all bands before it are valid.
    Band(usize),
}

impl FiveBandEQ {
    /// The first invalid band at index `from` or later, if there is one.
    pub open spec fn invalid_band(&self, from: int) -> Option<ParameterError>
        decreases BANDS - from,
    {
        if from < 0 || from >= BANDS {
            None
        } else if !self.bands@[from].valid() {
            Some(ParameterError::Band(from as usize))
        } else {
            self.invalid_band(from + 1)
        }
    }

    /// What is wrong with these parameters: the low-pass slot is looked at
    /// first, then the high-pass slot, then the bands in order. `None`
    /// where nothing is wrong.
    pub open spec fn violation(&self) -> Option<ParameterError> {
        if !(self.lowpass.low && self.lowpass.valid()) {
            Some(ParameterError::Lowpass)
        } else if !(!self.highpass.low && self.highpass.valid()) {
            Some(ParameterError::Highpass)
        } else {
            self.invalid_band(0)
        }
    }

    /// Checks these parameters: `Ok` exactly when they are valid, else the
    /// first thing that is wrong with them.
    pub fn validate(&self) -> (r: Result<(), ParameterError>)
        ensures
            r is Ok <==> self.valid(),
            r is Ok <==> self.violation() is None,
            r is Err ==> self.violation() == Some(r->Err_0),
    {
        if !self.lowpass.low || self.lowpass.cutoff == 0 {
            return Err(ParameterError::Lowpass);
        }
        if self.highpass.low || self.highpass.cutoff == 0 {
            return Err(ParameterError::Highpass);
        }
        let mut i: usize = 0;
        while i < BANDS
            invariant
                i <= BANDS,
                self.violation() == self.invalid_band(i as int),
                forall|j: int| 0 <= j < i ==> (#[trigger] self.bands@[j]).valid(),
            decreases BANDS - i,
        {
            let band = self.bands[i];
            if band.center == 0 || band.bandwidth == 0 || band.gain > MAX_GAIN {
                return Err(ParameterError::Band(i));
            }
            i = i + 1;
        }
        Ok(())
    }
}

/// Parameters are valid exactly when nothing is wrong with them.
pub proof fn lemma_valid_iff_no_violation(params: FiveBandEQ)
    ensures
        params.valid() <==> params.violation() is None,
{
    lemma_invalid_band(params, 0);
}

/// From index `from` on, no band is reported exactly when every band is valid.
pub proof fn lemma_invalid_band(params: FiveBandEQ, from: int)
    requires
        0 <= from <= BANDS,
    ensures
        params.invalid_band(from) is None <==> forall|j: int|
            from <= j < BANDS ==> (#[trigger] params.bands@[j]).valid(),
    decreases BANDS - from,
{
    if from < BANDS {
        lemma_invalid_band(params, from + 1);
    }
}

/// What a channel holds after `candidate` was offered to one that held
/// `current`: the candidate if it is valid, else what it held before.
pub open spec fn published(current: FiveBandEQ, candidate: FiveBandEQ) -> FiveBandEQ {
    if candidate.valid() {
        candidate
    } else {
        current
    }
}

/// Holds the parameter set that the audio side works with.
#[derive(Debug)]
pub struct ParameterChannel {
    current: FiveBandEQ,
}

impl ParameterChannel {
    #[verifier::type_invariant]
    spec fn well_formed(&self) -> bool {
        self.current.valid()
    }

    /// The parameter set that the channel holds.
    pub closed spec fn snapshot(&self) -> FiveBandEQ {
        self.current
    }

    /// A channel that holds the initial parameters.
    pub fn new() -> (channel: Self)
        ensures
            channel.snapshot() == FiveBandEQ::initial(),
    {
        Self { current: FiveBandEQ::new() }
    }

    /// Offers a parameter set. A valid one replaces what the channel held;
    /// an invalid one is refused with the reason, and the channel keeps
    /// what it held.
    pub fn publish(&mut self, params: FiveBandEQ) -> (r: Result<(), ParameterError>)
        ensures
            final(self).snapshot() == published(old(self).snapshot(), params),
            r is Ok <==> params.valid(),
            r is Err ==> params.violation() == Some(r->Err_0),
    {
        let checked = params.validate();
        if checked.is_ok() {
            self.current = params;
        }
        checked
    }

    /// Applies one control event to what the channel holds and offers the
    /// result: read, modify, publish. If the result is not valid it is
    /// refused and the channel keeps what it held.
    pub fn apply(&mut self, message: Message) -> (r: Result<(), ParameterError>)
        ensures
            final(self).snapshot() == published(
                old(self).snapshot(),
                old(self).snapshot().updated(message),
            ),
            r is Ok <==> old(self).snapshot().updated(message).valid(),
            r is Err ==> old(self).snapshot().updated(message).violation() == Some(r->Err_0),
    {
        let mut next = self.latest();
        next.update(message);
        self.publish(next)
    }

    /// The parameter set that was accepted last, or the initial one if
    /// none was. It is always valid.
    pub fn latest(&self) -> (params: FiveBandEQ)
        ensures
            params == self.snapshot(),
            params.valid(),
    {
        proof {
            use_type_invariant(self);
        }
        self.current
    }
}

/// After two valid parameter sets were published one after the other, the
/// channel holds the second, whole: never a mixture of the two.
pub proof fn lemma_latest_wins(current: FiveBandEQ, first: FiveBandEQ, second: FiveBandEQ)
    requires
        first.valid(),
        second.valid(),
    ensures
        published(published(current, first), second) == second,
{
}

/// Whatever is offered, the channel afterwards holds one of the offered
/// sets or what it held before, whole; and if what it held was valid, so
/// is what it holds.
pub proof fn lemma_snapshots_stay_whole(current: FiveBandEQ, first: FiveBandEQ, second: FiveBandEQ)
    ensures
        ({
            let after = published(published(current, first), second);
            after == second || after == first || after == current
        }),
        current.valid() ==> published(published(current, first), second).valid(),
{
}

} // verus!
