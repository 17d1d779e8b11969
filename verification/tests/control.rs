use rreq::control::Message;
use rreq::curve::{BandReject, Filter, FiveBandEQ, BANDS};

#[test]
fn each_band_message_sets_its_own_band() {
    let messages = [
        Message::Band0Changed(11),
        Message::Band1Changed(22),
        Message::Band2Changed(33),
        Message::Band3Changed(44),
        Message::Band4Changed(55),
    ];
    for (index, message) in messages.iter().enumerate() {
        let before = FiveBandEQ::new();
        let mut eq = before;
        eq.update(*message);
        assert_eq!(eq.lowpass, before.lowpass);
        assert_eq!(eq.highpass, before.highpass);
        for i in 0..BANDS {
            assert_eq!(eq.bands[i].center, before.bands[i].center);
            assert_eq!(eq.bands[i].bandwidth, before.bands[i].bandwidth);
            if i == index {
                assert_eq!(eq.bands[i].gain, 11 * (index as u32 + 1));
            } else {
                assert_eq!(eq.bands[i].gain, before.bands[i].gain);
            }
        }
    }
}

#[test]
fn band_messages_do_not_all_land_on_the_first_band() {
    let mut eq = FiveBandEQ::new();
    eq.update(Message::Band3Changed(98_304));
    assert_eq!(eq.bands[0].gain, 65_536);
    assert_eq!(eq.bands[3].gain, 98_304);
}

#[test]
fn high_pass_message_replaces_the_high_pass_only() {
    let before = FiveBandEQ::new();
    let mut eq = before;
    eq.update(Message::HighPassChanged(80_000, true));
    assert_eq!(eq.highpass, Filter::new(false, 80_000, true));
    assert_eq!(eq.lowpass, before.lowpass);
    assert_eq!(eq.bands, before.bands);
}

#[test]
fn low_pass_message_replaces_the_low_pass_only() {
    let before = FiveBandEQ::new();
    let mut eq = before;
    eq.update(Message::LowPassChanged(15_000_000, true));
    assert_eq!(eq.lowpass, Filter::new(true, 15_000_000, true));
    assert_eq!(eq.highpass, before.highpass);
    assert_eq!(eq.bands, before.bands);
}

#[test]
fn messages_accumulate() {
    let mut eq = FiveBandEQ::new();
    eq.update(Message::Band1Changed(1));
    eq.update(Message::Band4Changed(4));
    eq.update(Message::LowPassChanged(9, false));
    eq.update(Message::Band1Changed(7));
    let mut expected = FiveBandEQ::new();
    expected.bands[1].gain = 7;
    expected.bands[4].gain = 4;
    expected.lowpass = Filter::new(true, 9, false);
    assert_eq!(eq, expected);
}

#[test]
fn set_gain_changes_one_gain() {
    let mut eq = FiveBandEQ::new();
    eq.set_gain(2, 5);
    let mut expected = FiveBandEQ::new();
    expected.bands[2] = BandReject::new(1_000_000, 1_000_000, 5);
    assert_eq!(eq, expected);
}

#[test]
fn for_band_picks_the_message_by_index() {
    assert_eq!(Message::for_band(0, 9), Some(Message::Band0Changed(9)));
    assert_eq!(Message::for_band(1, 9), Some(Message::Band1Changed(9)));
    assert_eq!(Message::for_band(2, 9), Some(Message::Band2Changed(9)));
    assert_eq!(Message::for_band(3, 9), Some(Message::Band3Changed(9)));
    assert_eq!(Message::for_band(4, 9), Some(Message::Band4Changed(9)));
    assert_eq!(Message::for_band(5, 9), None);
    assert_eq!(Message::for_band(usize::MAX, 9), None);
}

#[test]
fn for_band_and_update_agree() {
    for index in 0..BANDS {
        let mut by_message = FiveBandEQ::new();
        by_message.update(Message::for_band(index, 123).unwrap());
        let mut by_index = FiveBandEQ::new();
        by_index.set_gain(index, 123);
        assert_eq!(by_message, by_index);
    }
}
