use uline_plugin::atc_signal::AtcSignal;
use uline_plugin::bve::{AtsBeaconData, AtsHandles, AtsKey, AtsVehicleState, BveAts, PANEL_SIZE, SOUND_SIZE};
use uline_plugin::settings::Settings;
use uline_plugin::auto_brake::AtcBrakeStatus;
use uline_plugin::speed_control::{acceleration, constant_and_holding_speed, SpeedRegulator};
use uline_plugin::tasc::{integer_sqrt, tasc_command, tasc_target_speed, TascCommand};
use uline_plugin::uline_atc::{AtcStatus, EmgSound, ULineATC};
use uline_plugin::uline_ato::{AtoState, TascPattern, ULineATO};

fn state(time: i32, speed: i32, location: i64) -> AtsVehicleState {
    AtsVehicleState { location, speed, time }
}

fn run(atc: &mut ULineATC, time: i32, speed: i32) -> (AtsHandles, Vec<i32>) {
    let mut panel = vec![0; PANEL_SIZE];
    let mut sound = vec![0; SOUND_SIZE];
    let h = atc.elapse(state(time, speed, 0), &mut panel, &mut sound);
    (h, sound)
}

#[test]
fn signal_enforced_overspeed_escalates_to_full_brake() {
    let mut atc = ULineATC::default();
    atc.set_signal(3);
    assert_eq!(atc.now_signal, AtcSignal::Signal25);
    let (h, sound) = run(&mut atc, 1_000, 40_000);
    assert_eq!(h.brake, 15);
    assert_eq!(h.power, 0);
    assert_eq!(sound[3], 0);
    let (h, _) = run(&mut atc, 1_500, 40_000);
    assert_eq!(h.brake, 15);
    let (h, _) = run(&mut atc, 1_900, 40_000);
    assert_eq!(h.brake, 31);
    assert_eq!(h.power, 0);
}

#[test]
fn absolute_stop_brakes_with_emergency_notch() {
    let mut atc = ULineATC::default();
    let (h, sound) = run(&mut atc, 100, 0);
    assert_eq!(h.brake, 32);
    assert_eq!(sound[3], 0);
}

#[test]
fn manual_handles_pass_under_a_clear_signal() {
    let mut atc = ULineATC::default();
    atc.set_signal(7);
    atc.set_power(2);
    atc.set_brake(1);
    atc.set_reverser(1);
    let (h, sound) = run(&mut atc, 100, 30_000);
    assert_eq!(h.power, 16);
    assert_eq!(h.brake, 4);
    assert_eq!(h.reverser, 1);
    assert_eq!(sound[3], -10000);
    assert_eq!(sound[2], 1);
}

#[test]
fn holding_notch_becomes_half_range_brake() {
    let mut atc = ULineATC::default();
    atc.set_signal(7);
    atc.set_power(-3);
    let (h, _) = run(&mut atc, 100, 30_000);
    assert_eq!(h.power, 0);
    assert_eq!(h.brake, 13);
}

#[test]
fn constant_speed_latch_holds_the_captured_speed() {
    let mut s = Settings::default();
    s.vehicle.constant_start_speed = 15_000;
    let mut atc = ULineATC::new(s);
    atc.set_signal(4);
    run(&mut atc, 1_000, 20_000);
    atc.set_power(4);
    atc.set_power(3);
    assert!(atc.is_constant_control);
    assert_eq!(atc.constant_target_speed, 20_000);
    let (h, _) = run(&mut atc, 2_000, 20_000);
    assert_eq!(h.power, 0);
    assert_eq!(h.brake, 0);
    assert_eq!(h.constant_speed, 1);
    atc.set_power(2);
    assert!(!atc.is_constant_control);
}

#[test]
fn constant_speed_latch_drops_below_start_speed() {
    let mut s = Settings::default();
    s.vehicle.constant_start_speed = 15_000;
    let mut atc = ULineATC::new(s);
    atc.set_signal(4);
    run(&mut atc, 1_000, 20_000);
    atc.set_power(4);
    atc.set_power(3);
    run(&mut atc, 2_000, 10_000);
    assert!(!atc.is_constant_control);
}

#[test]
fn mode_switch_is_clamped_at_both_ends() {
    assert_eq!(AtcStatus::ATC.get_right_status(), AtcStatus::ATO);
    assert_eq!(AtcStatus::ATO.get_right_status(), AtcStatus::ATO);
    assert_eq!(AtcStatus::Hisetsu.get_right_status(), AtcStatus::Irekae);
    assert_eq!(AtcStatus::ATO.get_left_status(), AtcStatus::ATC);
    assert_eq!(AtcStatus::Irekae.get_left_status(), AtcStatus::Hisetsu);
    assert_eq!(AtcStatus::Hisetsu.get_left_status(), AtcStatus::Hisetsu);
    let mut atc = ULineATC::default();
    atc.key_down(AtsKey::C1);
    atc.key_down(AtsKey::C1);
    assert_eq!(atc.atc_status, AtcStatus::Hisetsu);
    let (h, _) = run(&mut atc, 100, 50_000);
    assert_eq!(h.brake, 0);
}

#[test]
fn override_keys_exclude_each_other() {
    let mut atc = ULineATC::default();
    atc.key_down(AtsKey::D);
    assert!(atc.non_service_armed && !atc.confirmation_armed);
    atc.key_down(AtsKey::E);
    assert!(atc.confirmation_armed && !atc.non_service_armed);
}

#[test]
fn rewind_restarts_the_half_brake_on_the_unit() {
    let mut atc = ULineATC::default();
    atc.set_signal(3);
    run(&mut atc, 10_000, 40_000);
    let (h, _) = run(&mut atc, 5_000, 40_000);
    assert_eq!(h.brake, 15);
    let (h, _) = run(&mut atc, 5_800, 40_000);
    assert_eq!(h.brake, 15);
    let (h, _) = run(&mut atc, 5_900, 40_000);
    assert_eq!(h.brake, 31);
}

#[test]
fn invalid_settings_are_refused_by_the_unit() {
    let mut atc = ULineATC::default();
    let mut s = Settings::default();
    s.vehicle.output_brake_notches = 0;
    assert!(atc.set_settings(s).is_err());
    assert_eq!(atc.settings.vehicle.output_brake_notches, 31);
}

#[test]
fn integer_sqrt_is_exact_on_squares_and_between() {
    assert_eq!(integer_sqrt(0), 0);
    assert_eq!(integer_sqrt(624_999_999), 24_999);
    assert_eq!(integer_sqrt(625_000_000), 25_000);
    assert_eq!(tasc_target_speed(2_300, 100_000), 40_693);
}

#[test]
fn distance_braking_defers_while_the_curve_is_above_the_speed() {
    let mut s = Settings::default();
    s.ato.tasc_deceleration = 868;
    s.ato.tasc_brake_margin = 500;
    assert_eq!(tasc_target_speed(868, 100_000), 24_999);
    assert_eq!(tasc_command(24_000, 100_000, &s.vehicle, &s.ato), TascCommand::Cruise);
}

#[test]
fn distance_braking_brakes_when_the_train_is_above_the_curve() {
    let mut s = Settings::default();
    s.ato.tasc_deceleration = 694;
    s.ato.tasc_brake_margin = 500;
    assert_eq!(tasc_target_speed(694, 20_000), 9_996);
    match tasc_command(30_000, 20_000, &s.vehicle, &s.ato) {
        TascCommand::Brake(n) => assert_eq!(n, 31),
        other => panic!("expected braking, got {:?}", other),
    }
}

#[test]
fn distance_braking_holds_past_the_stopping_point() {
    let s = Settings::default();
    assert_eq!(tasc_command(10_000, -1, &s.vehicle, &s.ato), TascCommand::Hold);
    assert_eq!(tasc_command(10_000, -5_000, &s.vehicle, &s.ato), TascCommand::Hold);
}

#[test]
fn distance_brake_never_weakens_as_the_stop_nears() {
    let s = Settings::default();
    for speed in [3_000, 20_000, 45_000] {
        let mut last: Option<i32> = None;
        let mut d: i128 = 400_000;
        while d > 0 {
            if let TascCommand::Brake(n) = tasc_command(speed, d, &s.vehicle, &s.ato) {
                if let Some(prev) = last {
                    assert!(n >= prev, "speed {} distance {}: {} < {}", speed, d, n, prev);
                }
                last = Some(n);
            } else {
                assert!(last.is_none());
            }
            d -= 2_500;
        }
    }
}

#[test]
fn curve_brake_notch_exact_value() {
    let s = Settings::default();
    assert_eq!(tasc_command(20_000, 25_000, &s.vehicle, &s.ato), TascCommand::Brake(19));
}

#[test]
fn acceleration_by_finite_difference() {
    assert_eq!(acceleration(10_000, 11_000, 0, 500), 2_000);
    assert_eq!(acceleration(10_000, 9_000, 0, 1_000), -1_000);
    assert_eq!(acceleration(10_000, 11_000, 1_000, 1_000), 0);
    assert_eq!(acceleration(10_000, 11_000, 2_000, 1_000), 0);
}

#[test]
fn regulator_steps_by_band_and_interval() {
    let v = Settings::default().vehicle;
    let mut reg = SpeedRegulator::new();
    let h = reg.regulate(50_000, 40_000, 0, 1_000, &v);
    assert_eq!((h.power, h.brake, h.constant_speed), (1, 0, 2));
    let h = reg.regulate(50_000, 40_000, 0, 1_100, &v);
    assert_eq!(h.power, 1);
    let h = reg.regulate(50_000, 40_000, 0, 1_250, &v);
    assert_eq!(h.power, 2);
    let h = reg.regulate(30_000, 40_000, 0, 1_500, &v);
    assert_eq!((h.power, h.brake), (1, 0));
    let h = reg.regulate(40_000, 41_000, 0, 1_500, &v);
    assert_eq!((h.power, h.brake, h.constant_speed), (0, 0, 1));
    let h = reg.regulate(30_000, 40_000, 0, 2_000, &v);
    assert_eq!((h.power, h.brake), (0, 1));
}

#[test]
fn regulator_waits_while_acceleration_corrects() {
    let v = Settings::default().vehicle;
    let mut reg = SpeedRegulator::new();
    let h = reg.regulate(40_000, 35_000, 2_000, 1_000, &v);
    assert_eq!(h.power, 0);
    let h = reg.regulate(40_000, 35_000, 0, 2_000, &v);
    assert_eq!(h.power, 1);
}

fn ato_with(signal: i32) -> ULineATO {
    let mut ato = ULineATO::new(Settings::default());
    ato.set_signal(signal);
    ato
}

#[test]
fn stopped_ato_holds_the_brake_and_departs_on_start() {
    let mut ato = ato_with(4);
    let h = ato.tick(state(1_000, 0, 0));
    assert_eq!((h.power, h.brake, h.reverser), (0, 31, 0));
    ato.key_down(AtsKey::S);
    assert_eq!(ato.status, AtoState::Departing);
    let h = ato.tick(state(1_200, 0, 0));
    assert_eq!((h.power, h.brake, h.reverser), (1, 0, 1));
    let h = ato.tick(state(1_300, 1_000, 0));
    assert_eq!(h.power, 1);
    let h = ato.tick(state(1_400, 2_000, 0));
    assert_eq!(h.power, 2);
    ato.tick(state(1_600, 56_000, 0));
    assert_eq!(ato.status, AtoState::Cruising);
}

#[test]
fn start_key_is_ignored_while_moving() {
    let mut ato = ato_with(4);
    ato.tick(state(1_000, 3_000, 0));
    ato.key_down(AtsKey::S);
    assert_eq!(ato.status, AtoState::Stopped);
}

#[test]
fn beacons_enter_the_patterns() {
    let mut ato = ato_with(6);
    ato.set_beacon_data(AtsBeaconData { beacon_type: 1, signal: 0, distance: 0, optional: 0 });
    assert_eq!(ato.status, AtoState::DistanceBraking(TascPattern::First, None, 350_500));
    ato.set_beacon_data(AtsBeaconData { beacon_type: 2, signal: 0, distance: 0, optional: 0 });
    ato.set_beacon_data(AtsBeaconData { beacon_type: 3, signal: 0, distance: 0, optional: 0 });
    assert_eq!(ato.status, AtoState::DistanceBraking(TascPattern::OverspeedGuard, None, 25_500));
    ato.set_beacon_data(AtsBeaconData { beacon_type: 4, signal: 0, distance: 0, optional: 0 });
    assert_eq!(ato.status, AtoState::TimedBraking(None, AtcSignal::Signal75));
    ato.set_beacon_data(AtsBeaconData { beacon_type: 5, signal: 0, distance: 0, optional: 0 });
    assert_eq!(ato.status, AtoState::TimedBraking(None, AtcSignal::Signal75));
    ato.set_beacon_data(AtsBeaconData { beacon_type: 6, signal: 0, distance: 0, optional: 0 });
    assert_eq!(ato.status, AtoState::DistanceBraking(TascPattern::Pattern90, None, 600_500));
    ato.set_beacon_data(AtsBeaconData { beacon_type: 42, signal: 0, distance: 0, optional: 0 });
    assert_eq!(ato.status, AtoState::DistanceBraking(TascPattern::Pattern90, None, 600_500));
}

#[test]
fn distance_braking_latches_the_anchor_and_stops() {
    let mut ato = ato_with(2);
    ato.status = AtoState::DistanceBraking(TascPattern::Second, None, 25_500);
    let h = ato.tick(state(1_000, 22_000, 1_000_000));
    assert_eq!(ato.status, AtoState::DistanceBraking(TascPattern::Second, Some(1_000_000), 25_500));
    assert_eq!(h.power, 0);
    assert!(h.brake > 0);
    ato.tick(state(2_000, 500, 1_025_000));
    assert_eq!(ato.status, AtoState::DistanceBraking(TascPattern::OverspeedGuard, Some(1_000_000), 25_500));
    ato.tick(state(3_000, 0, 1_025_400));
    assert_eq!(ato.status, AtoState::Stopped);
}

#[test]
fn second_pattern_overspeed_brakes_with_emergency() {
    let mut ato = ato_with(6);
    ato.status = AtoState::DistanceBraking(TascPattern::Second, Some(0), 25_500);
    let h = ato.tick(state(1_000, 30_000, 0));
    assert_eq!((h.power, h.brake), (0, 32));
}

#[test]
fn timed_braking_ramps_and_restarts_on_rewind() {
    let mut ato = ato_with(6);
    ato.tick(state(9_800, 70_000, 0));
    ato.now_brake = 0;
    ato.before_ato_notch = AtsHandles { power: 0, brake: 0, reverser: 1, constant_speed: 2 };
    ato.status = AtoState::TimedBraking(None, AtcSignal::Signal75);
    let h = ato.tick(state(10_000, 70_000, 0));
    assert_eq!(ato.status, AtoState::TimedBraking(Some(10_000), AtcSignal::Signal75));
    assert_eq!(h.brake, 1);
    let h = ato.tick(state(10_200, 70_000, 0));
    assert_eq!(h.brake, 2);
    ato.tick(state(5_000, 70_000, 0));
    assert_eq!(ato.status, AtoState::TimedBraking(Some(5_000), AtcSignal::Signal75));
    ato.tick(state(13_000, 70_000, 0));
    assert_eq!(ato.status, AtoState::TimedBraking(Some(5_000), AtcSignal::Signal75));
    ato.tick(state(13_001, 70_000, 0));
    assert_eq!(ato.status, AtoState::Cruising);
}

#[test]
fn coasting_cuts_power_until_the_speed_falls() {
    let mut ato = ato_with(6);
    ato.tick(state(1_000, 60_000, 0));
    ato.set_beacon_data(AtsBeaconData { beacon_type: 5, signal: 0, distance: 0, optional: 0 });
    assert_eq!(ato.status, AtoState::CoastingPowerOff(AtcSignal::Signal75));
    let h = ato.tick(state(2_000, 60_000, 0));
    assert_eq!((h.power, h.brake), (0, 0));
    assert_eq!(ato.status, AtoState::CoastingPowerOff(AtcSignal::Signal75));
    ato.tick(state(3_000, 30_000, 0));
    assert_eq!(ato.status, AtoState::Cruising);
}

#[test]
fn door_chime_sounds_ten_seconds_after_closing() {
    let mut atc = ULineATC::default();
    atc.door_close();
    let (_, sound) = run(&mut atc, 1_000, 0);
    assert_eq!(sound[20], 2);
    let (_, sound) = run(&mut atc, 11_000, 0);
    assert_eq!(sound[20], 2);
    let (_, sound) = run(&mut atc, 11_001, 0);
    assert_eq!(sound[20], 1);
    assert!(!atc.wait_door_close_security);
}

#[test]
fn held_broadcast_key_starts_its_announcement() {
    let mut atc = ULineATC::default();
    run(&mut atc, 1_000, 0);
    atc.key_down(AtsKey::H);
    assert_eq!(atc.emg_sound, EmgSound::Silent);
    run(&mut atc, 2_100, 0);
    atc.key_down(AtsKey::H);
    assert_eq!(atc.emg_sound, EmgSound::SignalWait);
    let (_, sound) = run(&mut atc, 2_200, 0);
    assert_eq!(sound[101], 1);
    assert_eq!(sound[102], 2);
    atc.key_up(AtsKey::H);
    atc.key_down(AtsKey::I);
    assert_eq!(atc.emg_sound, EmgSound::SignalWait);
}

#[test]
fn automatic_mode_takes_the_ato_command() {
    let mut atc = ULineATC::default();
    atc.set_signal(4);
    atc.key_down(AtsKey::C2);
    assert_eq!(atc.atc_status, AtcStatus::ATO);
    let (h, _) = run(&mut atc, 1_000, 0);
    assert_eq!((h.power, h.brake, h.reverser, h.constant_speed), (0, 31, 0, 2));
    atc.key_down(AtsKey::S);
    let (h, _) = run(&mut atc, 1_200, 0);
    assert_eq!((h.power, h.brake, h.reverser), (1, 0, 1));
    atc.set_brake(2);
    let (h, _) = run(&mut atc, 1_300, 0);
    assert_eq!((h.power, h.brake, h.constant_speed), (1, 9, 2));
}

#[test]
fn distance_braking_at_the_stopping_point_brakes_fully() {
    let s = Settings::default();
    assert_eq!(tasc_command(10_000, 0, &s.vehicle, &s.ato), TascCommand::Brake(31));
    let mut ato = ato_with(6);
    ato.before_ato_notch = AtsHandles { power: 5, brake: 0, reverser: 1, constant_speed: 2 };
    let h = ato.ato_tasc_with_distance(state(1_000, 10_000, 0), 0, 0);
    assert_eq!((h.power, h.brake), (0, 31));
    assert_eq!(ato.now_power, 0);
}

#[test]
fn holding_notch_keeps_a_stronger_brake() {
    let mut atc = ULineATC::default();
    let h = AtsHandles { power: -1, brake: 20, reverser: 1, constant_speed: 0 };
    let r = constant_and_holding_speed(&mut atc, h, false, false, false);
    assert_eq!((r.power, r.brake, r.constant_speed), (0, 20, 2));
    let h = AtsHandles { power: -3, brake: 2, reverser: 1, constant_speed: 0 };
    let r = constant_and_holding_speed(&mut atc, h, false, false, false);
    assert_eq!((r.power, r.brake), (0, 13));
}

#[test]
fn enforcement_never_weakens_the_driver_emergency_brake() {
    let mut atc = ULineATC::default();
    atc.set_signal(3);
    atc.set_brake(8);
    let (h, _) = run(&mut atc, 1_000, 40_000);
    assert_eq!(h.brake, 32);
    let (h, _) = run(&mut atc, 1_900, 40_000);
    assert_eq!(h.brake, 32);
    assert_eq!(h.power, 0);
}

#[test]
fn full_brake_cuts_the_driver_power() {
    let mut atc = ULineATC::default();
    atc.set_signal(3);
    atc.set_power(4);
    let (h, _) = run(&mut atc, 1_000, 40_000);
    assert_eq!((h.power, h.brake), (0, 15));
    let (h, _) = run(&mut atc, 1_900, 40_000);
    assert_eq!((h.power, h.brake), (0, 31));
}

#[test]
fn cruise_after_timed_braking_releases_one_notch_at_a_time() {
    let mut ato = ato_with(6);
    ato.tick(state(9_800, 70_000, 0));
    ato.now_brake = 0;
    ato.before_ato_notch = AtsHandles { power: 0, brake: 0, reverser: 1, constant_speed: 2 };
    ato.status = AtoState::TimedBraking(None, AtcSignal::Signal75);
    ato.tick(state(10_000, 70_000, 0));
    ato.tick(state(10_200, 70_000, 0));
    let h = ato.tick(state(10_400, 70_000, 0));
    assert_eq!(h.brake, 3);
    ato.set_signal(7);
    let h = ato.tick(state(10_600, 70_000, 0));
    assert_eq!(h.brake, 4);
    assert_eq!(ato.status, AtoState::Cruising);
    let h = ato.tick(state(10_800, 70_000, 0));
    assert_eq!((h.power, h.brake), (0, 3));
    let h = ato.tick(state(11_050, 70_000, 0));
    assert_eq!((h.power, h.brake), (0, 2));
}

#[test]
fn rewind_in_disabled_mode_restarts_a_pending_half_brake() {
    let mut atc = ULineATC::default();
    atc.set_signal(3);
    run(&mut atc, 10_000, 40_000);
    assert_eq!(atc.atc_brake_status, AtcBrakeStatus::HalfBraking(10_000));
    atc.key_down(AtsKey::C1);
    atc.key_down(AtsKey::C1);
    run(&mut atc, 5_000, 40_000);
    assert_eq!(atc.atc_brake_status, AtcBrakeStatus::HalfBraking(5_000));
}

#[test]
fn timed_braking_cuts_power_and_cruise_steps_one_notch() {
    let mut ato = ato_with(6);
    ato.before_ato_notch = AtsHandles { power: 5, brake: 0, reverser: 1, constant_speed: 2 };
    ato.now_power = 5;
    ato.status = AtoState::TimedBraking(None, AtcSignal::Signal75);
    let h = ato.tick(state(10_000, 70_000, 0));
    assert_eq!((h.power, h.brake), (0, 1));
    ato.set_signal(7);
    ato.tick(state(10_200, 70_000, 0));
    assert_eq!(ato.status, AtoState::Cruising);
    let last = ato.before_ato_notch;
    let h = ato.tick(state(10_450, 70_000, 0));
    assert!(h.power == last.power || h.brake == last.brake);
    assert!((h.power - last.power).abs() <= 1 && (h.brake - last.brake).abs() <= 1);
}

#[test]
fn default_margin_defers_braking_just_above_the_curve() {
    let mut s = Settings::default();
    assert_eq!(s.ato.tasc_brake_margin, 500);
    s.ato.tasc_deceleration = 868;
    assert_eq!(tasc_command(24_000, 100_000, &s.vehicle, &s.ato), TascCommand::Cruise);
}

#[test]
fn timed_braking_cap_above_service_notches_is_refused() {
    let mut s = Settings::default();
    s.ato.braking_max_notch = 32;
    assert_eq!(s.validate(), Err(uline_plugin::settings::SettingsError::Braking));
}
