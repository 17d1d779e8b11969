//! Control events: each one names a single control and carries its new
//! value. Applying an event to a parameter set changes that control and
//! nothing else.

use vstd::prelude::*;
use vstd::array::spec_array_update;
use crate::curve::{BandReject, Filter, FiveBandEQ, BANDS};

verus! {

/// A change to one control of the equalizer.
#[derive(Clone, Copy, Debug, PartialEq, Eq)]
pub enum Message {
    /// The gain of the first band was set.
    Band0Changed(u32),
    /// The gain of the second band was set.
    Band1Changed(u32),
    /// The gain of the third band was set.
    Band2Changed(u32),
    /// The gain of the fourth band was set.
    Band3Changed(u32),
    /// The gain of the fifth band was set.
    Band4Changed(u32),
    /// The high-pass filter was given a cutoff, in millihertz, and
    /// switched on or off.
    HighPassChanged(u32, bool),
    /// The low-pass filter was given a cutoff, in millihertz, and
    /// switched on or off.
    LowPassChanged(u32, bool),
}

impl Message {
    /// The band whose gain this message sets, with the new gain; `None`
    /// for a message that addresses a shelf.
    pub open spec fn band(self) -> Option<(int, u32)> {
        match self {
            Message::Band0Changed(gain) => Some((0, gain)),
            Message::Band1Changed(gain) => Some((1, gain)),
            Message::Band2Changed(gain) => Some((2, gain)),
            Message::Band3Changed(gain) => Some((3, gain)),
            Message::Band4Changed(gain) => Some((4, gain)),
            Message::HighPassChanged(_, _) => None,
            Message::LowPassChanged(_, _) => None,
        }
    }

    /// The message that sets the gain of band `index`.
    pub fn for_band(index: usize, gain: u32) -> (message: Option<Message>)
        ensures
            index >= BANDS ==> message is None,
            index < BANDS ==> message is Some && message->Some_0.band() == Some(
                (index as int, gain),
            ),
    {
        if index == 0 {
            Some(Message::Band0Changed(gain))
        } else if index == 1 {
            Some(Message::Band1Changed(gain))
        } else if index == 2 {
            Some(Message::Band2Changed(gain))
        } else if index == 3 {
            Some(Message::Band3Changed(gain))
        } else if index == 4 {
            Some(Message::Band4Changed(gain))
        } else {
            None
        }
    }
}

impl FiveBandEQ {
    /// These parameters with the gain of band `index` replaced.
    pub open spec fn with_gain(self, index: int, gain: u32) -> Self {
        FiveBandEQ {
            bands: spec_array_update(
                self.bands,
                index,
                BandReject { gain, ..self.bands@[index] },
            ),
            ..self
        }
    }

    /// These parameters after `message` was applied.
    pub open spec fn updated(self, message: Message) -> Self {
        match message {
            Message::HighPassChanged(cutoff, enabled) => FiveBandEQ {
                highpass: Filter { low: false, cutoff, enabled },
                ..self
            },
            Message::LowPassChanged(cutoff, enabled) => FiveBandEQ {
                lowpass: Filter { low: true, cutoff, enabled },
                ..self
            },
            _ => self.with_gain(message.band()->Some_0.0, message.band()->Some_0.1),
        }
    }

    /// Sets the gain of band `index` and leaves everything else as it was.
    pub fn set_gain(&mut self, index: usize, gain: u32)
        requires
            index < BANDS,
        ensures
            *final(self) == old(self).with_gain(index as int, gain),
    {
        let mut band: BandReject = self.bands[index];
        band.gain = gain;
        self.bands[index] = band;
        proof {
            assert(self.bands@ =~= old(self).with_gain(index as int, gain).bands@);
            assert(self.bands =~= old(self).with_gain(index as int, gain).bands);
        }
    }

    /// Applies one control event: the control it names takes the value it
    /// carries, and nothing else changes.
    pub fn update(&mut self, message: Message)
        ensures
            *final(self) == old(self).updated(message),
    {
        match message {
            Message::Band0Changed(gain) => self.set_gain(0, gain),
            Message::Band1Changed(gain) => self.set_gain(1, gain),
            Message::Band2Changed(gain) => self.set_gain(2, gain),
            Message::Band3Changed(gain) => self.set_gain(3, gain),
            Message::Band4Changed(gain) => self.set_gain(4, gain),
            Message::HighPassChanged(cutoff, enabled) => {
                self.highpass = Filter::new(false, cutoff, enabled);
            },
            Message::LowPassChanged(cutoff, enabled) => {
                self.lowpass = Filter::new(true, cutoff, enabled);
            },
        }
    }
}

/// A gain message changes the gain of the band it names and no other
/// field of the parameters.
pub proof fn lemma_gain_message_is_local(eq: FiveBandEQ, message: Message, i: int)
    requires
        message.band() is Some,
        0 <= i < BANDS,
    ensures
        eq.updated(message).lowpass == eq.lowpass,
        eq.updated(message).highpass == eq.highpass,
        eq.updated(message).bands@[i].center == eq.bands@[i].center,
        eq.updated(message).bands@[i].bandwidth == eq.bands@[i].bandwidth,
        i == message.band()->Some_0.0 ==> eq.updated(message).bands@[i].gain
            == message.band()->Some_0.1,
        i != message.band()->Some_0.0 ==> eq.updated(message).bands@[i] == eq.bands@[i],
{
    broadcast use vstd::array::axiom_spec_array_update;

}

} // verus!
