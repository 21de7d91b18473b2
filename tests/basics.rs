use uline_plugin::atc_signal::AtcSignal;
use uline_plugin::bve::{AtsConstantSpeed, AtsHorn, AtsInit, AtsKey, AtsSound};
use uline_plugin::notch::{to_input_brake, to_output_brake, to_output_power};
use uline_plugin::settings::{Settings, SettingsError};
use uline_plugin::timer::Timer;

#[test]
fn signal_speeds_follow_the_table() {
    let expected = [
        (AtcSignal::Signal02, 0),
        (AtcSignal::Signal01, 0),
        (AtcSignal::Signal15, 15),
        (AtcSignal::Signal25, 25),
        (AtcSignal::Signal45, 45),
        (AtcSignal::Signal60, 60),
        (AtcSignal::Signal75, 75),
        (AtcSignal::Signal90, 90),
        (AtcSignal::Irekae15, 15),
        (AtcSignal::Irekae25, 25),
    ];
    for (sig, kmh) in expected {
        assert_eq!(sig.getSpeed(), kmh);
        assert_eq!(sig.permitted_speed(), kmh * 1000);
    }
}

#[test]
fn permitted_speed_is_the_same_when_asked_twice() {
    for code in 0..10 {
        let sig = AtcSignal::from_code(code).unwrap();
        assert_eq!(sig.getSpeed(), sig.getSpeed());
    }
}

#[test]
fn signal_codes_outside_the_table_decode_to_none() {
    assert_eq!(AtcSignal::from_code(3), Some(AtcSignal::Signal25));
    assert_eq!(AtcSignal::from_code(9), Some(AtcSignal::Irekae25));
    assert_eq!(AtcSignal::from_code(10), None);
    assert_eq!(AtcSignal::from_code(-1), None);
}

#[test]
fn lower_signal_steps_down_one_speed() {
    assert_eq!(AtcSignal::Signal90.getLower(), AtcSignal::Signal75);
    assert_eq!(AtcSignal::Signal15.getLower(), AtcSignal::Signal01);
    assert_eq!(AtcSignal::Signal02.getLower(), AtcSignal::Signal02);
}

#[test]
fn host_codes_decode_exhaustively() {
    assert_eq!(AtsKey::from(0), AtsKey::S);
    assert_eq!(AtsKey::from(15), AtsKey::L);
    assert_eq!(AtsKey::from(16), AtsKey::Unknown);
    assert_eq!(AtsInit::from(2), AtsInit::Removed);
    assert_eq!(AtsInit::from(7), AtsInit::Unknown);
    assert_eq!(AtsSound::from(-10000), AtsSound::Stop);
    assert_eq!(AtsSound::from(5), AtsSound::Unknown);
    assert_eq!(AtsSound::Stop.code(), -10000);
    assert_eq!(AtsSound::PlayLooping.code(), 0);
    assert_eq!(AtsHorn::from(2), AtsHorn::Music);
    assert_eq!(AtsConstantSpeed::from(1), AtsConstantSpeed::Enable);
    assert_eq!(AtsConstantSpeed::default(), AtsConstantSpeed::Continue);
}

#[test]
fn settings_with_zero_notches_are_refused() {
    let mut s = Settings::default();
    assert_eq!(s.validate(), Ok(()));
    s.vehicle.input_brake_notches = 0;
    assert_eq!(s.validate(), Err(SettingsError::NotchCount));
    let mut s = Settings::default();
    s.vehicle.output_power_notches = -3;
    assert_eq!(s.validate(), Err(SettingsError::NotchCount));
    let mut s = Settings::default();
    s.ato.tasc_max_deceleration = 0;
    assert_eq!(s.validate(), Err(SettingsError::Braking));
}

#[test]
fn notch_conversion_rounds_to_nearest() {
    let v = Settings::default().vehicle;
    assert_eq!(to_output_brake(&v, 7), 31);
    assert_eq!(to_output_brake(&v, 1), 4);
    assert_eq!(to_output_brake(&v, 2), 9);
    assert_eq!(to_output_brake(&v, 0), 0);
    assert_eq!(to_output_power(&v, 4), 31);
    assert_eq!(to_output_power(&v, 3), 23);
    assert_eq!(to_output_power(&v, -1), -8);
    assert_eq!(to_input_brake(&v, 31), 7);
    assert_eq!(to_input_brake(&v, 2), 0);
}

#[test]
fn brake_round_trip_stays_within_one_notch() {
    let mut v = Settings::default().vehicle;
    v.input_brake_notches = 8;
    v.output_brake_notches = 12;
    for n in 0..=12 {
        let back = to_output_brake(&v, to_input_brake(&v, n as i32) as i32);
        assert!((back - n).abs() <= 1, "n={} back={}", n, back);
    }
}

#[test]
fn timer_fires_once_per_interval_and_after_rewind() {
    let mut t = Timer::new(200);
    assert!(t.is_ready(200));
    assert!(!t.is_ready(399));
    assert!(t.is_ready(400));
    assert!(t.is_ready(100));
    assert!(!t.is_ready(250));
}
