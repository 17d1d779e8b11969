use rreq::channel::{ParameterChannel, ParameterError};
use rreq::control::Message;
use rreq::curve::{BandReject, Filter, FiveBandEQ, BANDS, MAX_GAIN};

fn sample_one() -> FiveBandEQ {
    let mut eq = FiveBandEQ::new();
    eq.update(Message::Band0Changed(32_768));
    eq.update(Message::HighPassChanged(100_000, true));
    eq
}

fn sample_two() -> FiveBandEQ {
    let mut eq = FiveBandEQ::new();
    eq.update(Message::Band4Changed(131_072));
    eq.update(Message::LowPassChanged(8_000_000, true));
    eq
}

#[test]
fn new_channel_holds_the_initial_parameters() {
    let channel = ParameterChannel::new();
    assert_eq!(channel.latest(), FiveBandEQ::new());
}

#[test]
fn initial_parameters_are_valid() {
    assert_eq!(FiveBandEQ::new().validate(), Ok(()));
}

#[test]
fn published_snapshot_is_the_latest() {
    let mut channel = ParameterChannel::new();
    assert_eq!(channel.publish(sample_one()), Ok(()));
    assert_eq!(channel.latest(), sample_one());
    assert_eq!(channel.latest(), sample_one());
}

#[test]
fn two_publishes_leave_the_second_whole() {
    let mut channel = ParameterChannel::new();
    assert_eq!(channel.publish(sample_one()), Ok(()));
    assert_eq!(channel.publish(sample_two()), Ok(()));
    let seen = channel.latest();
    assert_eq!(seen, sample_two());
    assert_ne!(seen, sample_one());
}

#[test]
fn refused_snapshot_leaves_the_previous_one() {
    let mut channel = ParameterChannel::new();
    assert_eq!(channel.publish(sample_one()), Ok(()));
    let mut bad = sample_two();
    bad.bands[2].bandwidth = 0;
    assert_eq!(channel.publish(bad), Err(ParameterError::Band(2)));
    assert_eq!(channel.latest(), sample_one());
}

#[test]
fn refused_snapshot_on_a_new_channel_leaves_the_initial_one() {
    let mut channel = ParameterChannel::new();
    let mut bad = FiveBandEQ::new();
    bad.highpass.cutoff = 0;
    assert_eq!(channel.publish(bad), Err(ParameterError::Highpass));
    assert_eq!(channel.latest(), FiveBandEQ::new());
}

#[test]
fn low_pass_slot_is_checked() {
    let mut eq = FiveBandEQ::new();
    eq.lowpass.cutoff = 0;
    assert_eq!(eq.validate(), Err(ParameterError::Lowpass));
    let mut eq = FiveBandEQ::new();
    eq.lowpass = Filter::new(false, 1000, true);
    assert_eq!(eq.validate(), Err(ParameterError::Lowpass));
}

#[test]
fn high_pass_slot_is_checked() {
    let mut eq = FiveBandEQ::new();
    eq.highpass.cutoff = 0;
    assert_eq!(eq.validate(), Err(ParameterError::Highpass));
    let mut eq = FiveBandEQ::new();
    eq.highpass = Filter::new(true, 1000, true);
    assert_eq!(eq.validate(), Err(ParameterError::Highpass));
}

#[test]
fn every_band_is_checked() {
    for i in 0..BANDS {
        let mut eq = FiveBandEQ::new();
        eq.bands[i].center = 0;
        assert_eq!(eq.validate(), Err(ParameterError::Band(i)));
        let mut eq = FiveBandEQ::new();
        eq.bands[i].bandwidth = 0;
        assert_eq!(eq.validate(), Err(ParameterError::Band(i)));
        let mut eq = FiveBandEQ::new();
        eq.bands[i].gain = MAX_GAIN + 1;
        assert_eq!(eq.validate(), Err(ParameterError::Band(i)));
    }
}

#[test]
fn gain_limits_are_inclusive() {
    let mut eq = FiveBandEQ::new();
    eq.bands[0].gain = 0;
    eq.bands[1].gain = MAX_GAIN;
    assert_eq!(eq.validate(), Ok(()));
    eq.bands[1].gain = u32::MAX;
    assert_eq!(eq.validate(), Err(ParameterError::Band(1)));
}

#[test]
fn first_fault_is_reported() {
    let mut eq = FiveBandEQ::new();
    eq.bands[4] = BandReject::new(0, 0, u32::MAX);
    eq.bands[1].center = 0;
    assert_eq!(eq.validate(), Err(ParameterError::Band(1)));
    eq.highpass.cutoff = 0;
    assert_eq!(eq.validate(), Err(ParameterError::Highpass));
    eq.lowpass.cutoff = 0;
    assert_eq!(eq.validate(), Err(ParameterError::Lowpass));
}

#[test]
fn disabled_filter_still_needs_a_cutoff() {
    let mut eq = FiveBandEQ::new();
    eq.update(Message::LowPassChanged(0, false));
    assert_eq!(eq.validate(), Err(ParameterError::Lowpass));
}

#[test]
fn publish_and_validate_agree() {
    let mut candidates = vec![FiveBandEQ::new(), sample_one(), sample_two()];
    let mut bad = sample_one();
    bad.bands[3].gain = MAX_GAIN + 7;
    candidates.push(bad);
    let mut worse = sample_two();
    worse.lowpass.low = false;
    candidates.push(worse);
    let mut channel = ParameterChannel::new();
    let mut expected = FiveBandEQ::new();
    for candidate in candidates {
        let verdict = candidate.validate();
        assert_eq!(channel.publish(candidate), verdict);
        if verdict.is_ok() {
            expected = candidate;
        }
        assert_eq!(channel.latest(), expected);
        assert_eq!(channel.latest().validate(), Ok(()));
    }
}

#[test]
fn apply_reads_modifies_and_publishes() {
    let mut channel = ParameterChannel::new();
    assert_eq!(channel.apply(Message::Band2Changed(98_304)), Ok(()));
    assert_eq!(channel.apply(Message::HighPassChanged(60_000, true)), Ok(()));
    let mut expected = FiveBandEQ::new();
    expected.bands[2].gain = 98_304;
    expected.highpass = Filter::new(false, 60_000, true);
    assert_eq!(channel.latest(), expected);
}

#[test]
fn apply_refuses_what_would_be_invalid() {
    let mut channel = ParameterChannel::new();
    assert_eq!(channel.apply(Message::Band1Changed(7)), Ok(()));
    let before = channel.latest();
    assert_eq!(channel.apply(Message::Band3Changed(MAX_GAIN + 1)), Err(ParameterError::Band(3)));
    assert_eq!(channel.latest(), before);
    assert_eq!(channel.apply(Message::LowPassChanged(0, true)), Err(ParameterError::Lowpass));
    assert_eq!(channel.apply(Message::HighPassChanged(0, false)), Err(ParameterError::Highpass));
    assert_eq!(channel.latest(), before);
    assert_eq!(channel.apply(Message::Band3Changed(MAX_GAIN)), Ok(()));
    assert_eq!(channel.latest().bands[3].gain, MAX_GAIN);
}
