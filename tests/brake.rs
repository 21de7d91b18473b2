use uline_plugin::atc_signal::AtcSignal;
use uline_plugin::auto_brake::{brake_handles, next_brake_status, shunting_brake, AtcBrakeStatus};
use uline_plugin::bve::AtsHandles;
use uline_plugin::settings::Settings;

fn atc() -> uline_plugin::settings::ATCSettings {
    Settings::default().atc
}

#[test]
fn half_brake_becomes_full_after_the_delay() {
    let a = atc();
    let (st, _, _) = next_brake_status(AtcBrakeStatus::Passing, AtcSignal::Signal25, 40_000, 1_000, &a, false, false);
    assert_eq!(st, AtcBrakeStatus::HalfBraking(1_000));
    let (st, _, _) = next_brake_status(st, AtcSignal::Signal25, 40_000, 1_899, &a, false, false);
    assert_eq!(st, AtcBrakeStatus::HalfBraking(1_000));
    let (st, _, _) = next_brake_status(st, AtcSignal::Signal25, 40_000, 1_900, &a, false, false);
    assert_eq!(st, AtcBrakeStatus::FullBraking);
}

#[test]
fn brake_releases_when_speed_clears() {
    let a = atc();
    let (st, _, _) = next_brake_status(AtcBrakeStatus::FullBraking, AtcSignal::Signal25, 26_500, 5_000, &a, false, false);
    assert_eq!(st, AtcBrakeStatus::Passing);
    let (st, _, _) = next_brake_status(AtcBrakeStatus::HalfBraking(4_900), AtcSignal::Signal25, 20_000, 5_000, &a, false, false);
    assert_eq!(st, AtcBrakeStatus::Passing);
    let (st, _, _) = next_brake_status(AtcBrakeStatus::EmergencyBraking, AtcSignal::Signal45, 0, 5_000, &a, false, false);
    assert_eq!(st, AtcBrakeStatus::Passing);
}

#[test]
fn margin_is_exclusive() {
    let a = atc();
    let (st, _, _) = next_brake_status(AtcBrakeStatus::Passing, AtcSignal::Signal25, 26_500, 0, &a, false, false);
    assert_eq!(st, AtcBrakeStatus::Passing);
    let (st, _, _) = next_brake_status(AtcBrakeStatus::Passing, AtcSignal::Signal25, 26_501, 0, &a, false, false);
    assert_eq!(st, AtcBrakeStatus::HalfBraking(0));
}

#[test]
fn absolute_stop_forces_emergency_at_once() {
    let a = atc();
    for st in [
        AtcBrakeStatus::Passing,
        AtcBrakeStatus::HalfBraking(100),
        AtcBrakeStatus::FullBraking,
        AtcBrakeStatus::EmergencyBraking,
    ] {
        for speed in [0, 10_000, 80_000] {
            let (next, _, _) = next_brake_status(st, AtcSignal::Signal02, speed, 200, &a, false, true);
            assert_eq!(next, AtcBrakeStatus::EmergencyBraking);
        }
    }
}

#[test]
fn non_service_override_creeps_under_absolute_stop() {
    let a = atc();
    let (st, ns, cf) = next_brake_status(AtcBrakeStatus::EmergencyBraking, AtcSignal::Signal02, 10_000, 0, &a, true, false);
    assert_eq!((st, ns, cf), (AtcBrakeStatus::Passing, true, false));
    let (st, ns, _) = next_brake_status(AtcBrakeStatus::EmergencyBraking, AtcSignal::Signal02, 20_000, 0, &a, true, false);
    assert_eq!((st, ns), (AtcBrakeStatus::FullBraking, true));
    let (_, ns, _) = next_brake_status(AtcBrakeStatus::Passing, AtcSignal::Signal45, 0, 0, &a, true, false);
    assert!(!ns);
}

#[test]
fn confirmation_override_creeps_under_conditional_stop() {
    let a = atc();
    let (st, _, cf) = next_brake_status(AtcBrakeStatus::FullBraking, AtcSignal::Signal01, 16_500, 0, &a, false, true);
    assert_eq!((st, cf), (AtcBrakeStatus::Passing, true));
    let (st, _, cf) = next_brake_status(AtcBrakeStatus::Passing, AtcSignal::Signal01, 16_501, 0, &a, false, true);
    assert_eq!((st, cf), (AtcBrakeStatus::FullBraking, true));
    let (_, _, cf) = next_brake_status(AtcBrakeStatus::Passing, AtcSignal::Signal25, 0, 0, &a, false, true);
    assert!(!cf);
}

#[test]
fn rewind_restarts_the_half_brake_delay() {
    let a = atc();
    let (st, _, _) = next_brake_status(AtcBrakeStatus::HalfBraking(10_000), AtcSignal::Signal25, 40_000, 5_000, &a, false, false);
    assert_eq!(st, AtcBrakeStatus::HalfBraking(5_000));
    let (st, _, _) = next_brake_status(st, AtcSignal::Signal25, 40_000, 5_899, &a, false, false);
    assert_eq!(st, AtcBrakeStatus::HalfBraking(5_000));
}

#[test]
fn brake_states_map_to_notches() {
    let h = AtsHandles { brake: 2, power: 5, reverser: 1, constant_speed: 0 };
    assert_eq!(brake_handles(AtcBrakeStatus::Passing, h, 31), h);
    let half = brake_handles(AtcBrakeStatus::HalfBraking(0), h, 31);
    assert_eq!((half.brake, half.power, half.constant_speed, half.reverser), (15, 0, 2, 1));
    let full = brake_handles(AtcBrakeStatus::FullBraking, h, 31);
    assert_eq!((full.brake, full.power), (31, 0));
    let emg = brake_handles(AtcBrakeStatus::EmergencyBraking, h, 31);
    assert_eq!((emg.brake, emg.power), (32, 0));
}

#[test]
fn shunting_check_compares_only() {
    let h = AtsHandles { brake: 0, power: 3, reverser: 1, constant_speed: 0 };
    let r = shunting_brake(AtcSignal::Irekae15, 20_000, 25_000, h, 31);
    assert_eq!((r.brake, r.power), (31, 0));
    let r = shunting_brake(AtcSignal::Irekae15, 14_000, 25_000, h, 31);
    assert_eq!(r, h);
    let r = shunting_brake(AtcSignal::Irekae25, 40_000, 25_000, h, 31);
    assert_eq!(r, h);
}
