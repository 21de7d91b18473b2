use uline_plugin::ats::KobeCitySubwayATS;
use uline_plugin::bve::{AtsBeaconData, AtsVehicleSpec, AtsVehicleState, BveAts, EmptyAts, ATS_VERSION};
use uline_plugin::tims::{TimsPosition, ULineStation, ULineTrainType, TIMS};

fn beacon(beacon_type: i32, optional: i32) -> AtsBeaconData {
    AtsBeaconData { beacon_type, signal: 0, distance: 0, optional }
}

#[test]
fn tims_shows_clock_service_data_and_kilometrage() {
    let mut t = TIMS::new();
    t.set_beacon_data(beacon(14, 42));
    t.set_beacon_data(beacon(13, 1));
    t.set_beacon_data(beacon(12, 17));
    t.set_beacon_data(beacon(16, 5_000));
    let mut panel = vec![0; 256];
    let mut sound = vec![0; 256];
    let st = AtsVehicleState { location: 1_234_000, speed: 0, time: 3_723_000 };
    t.elapse(st, &mut panel, &mut sound);
    assert_eq!((panel[101], panel[102]), (4, 2));
    assert_eq!(panel[103], 1);
    assert_eq!(panel[104], 17);
    assert_eq!((panel[107], panel[108], panel[109], panel[110], panel[111], panel[112]), (0, 1, 0, 2, 0, 3));
    assert_eq!(panel[116], 0);
    assert_eq!((panel[117], panel[118], panel[119], panel[120]), (0, 6, 2, 3));
}

#[test]
fn tims_ignores_out_of_range_values() {
    let mut t = TIMS::new();
    t.set_beacon_data(beacon(14, 100));
    assert_eq!(t.operation_number, 0);
    t.set_beacon_data(beacon(13, 9));
    assert_eq!(t.train_type, ULineTrainType::Unset);
    t.set_beacon_data(beacon(15, 2));
    assert_eq!(t.position.get_tims_distance_prefix(), 2);
    t.set_beacon_data(beacon(17, 1));
    assert!(t.is_position_negative);
}

#[test]
fn out_of_service_train_announces_every_ten_seconds() {
    let mut t = TIMS::new();
    t.set_beacon_data(beacon(13, 2));
    let mut sound = vec![0; 256];
    t.elapse_out_of_service_sound(AtsVehicleState { location: 0, speed: 0, time: 10_001 }, &mut sound);
    assert_eq!(sound[100], 1);
    t.elapse_out_of_service_sound(AtsVehicleState { location: 0, speed: 0, time: 15_000 }, &mut sound);
    assert_eq!(sound[100], 2);
}

#[test]
fn station_and_kind_codes() {
    assert_eq!(ULineStation::S01Tanigami.to_i32(), 17);
    assert_eq!(ULineStation::S17SeishinChuo.to_i32(), 1);
    assert_eq!(ULineTrainType::Rapid2.to_i32(), 5);
    let p = TimsPosition::Hokushin(1_000, 10_000);
    assert_eq!(p.get_tims_distance(500, false), 9_500);
    assert_eq!(p.get_tims_distance(500, true), 8_500);
}

#[test]
fn subway_ats_brakes_above_signal_speed() {
    let mut a = KobeCitySubwayATS::new();
    a.set_vehicle_spec(AtsVehicleSpec { brake_notches: 8, power_notches: 4, ats_notch: 1, b67_notch: 6, cars: 6 });
    a.set_signal(1);
    a.set_power(2);
    a.set_brake(0);
    let mut panel = vec![0; 256];
    let mut sound = vec![0; 256];
    let h = a.elapse(AtsVehicleState { location: 0, speed: 20_000, time: 0 }, &mut panel, &mut sound);
    assert_eq!((h.brake, h.power), (8, 0));
    assert_eq!(sound[3], 0);
    assert_eq!(sound[2], 1);
    assert_eq!(panel[33], 1);
    assert_eq!(&panel[11..19], &[0, 0, 0, 0, 1, 1, 0, 0]);
    assert_eq!(&panel[21..30], &[1, 0, 0, 0, 0, 0, 0, 0, 0]);
    let h = a.elapse(AtsVehicleState { location: 0, speed: 10_000, time: 100 }, &mut panel, &mut sound);
    assert_eq!((h.brake, h.power), (0, 2));
    assert_eq!(sound[3], -10000);
    assert_eq!(sound[2], 2);
    assert_eq!(a.get_signal_speed(6), 90);
    assert_eq!(a.get_signal_speed(7), 0);
}

#[test]
fn empty_ats_hands_the_driver_handles_back() {
    let mut a = EmptyAts::new();
    a.set_power(3);
    a.set_brake(2);
    a.set_reverser(-1);
    let mut panel = vec![0; 256];
    let mut sound = vec![0; 256];
    let h = a.elapse(AtsVehicleState::default(), &mut panel, &mut sound);
    assert_eq!((h.power, h.brake, h.reverser, h.constant_speed), (3, 2, -1, 0));
    assert_eq!(a.get_plugin_version(), ATS_VERSION);
}
