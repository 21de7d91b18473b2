//! The train information display: service data set by beacons, the clock,
//! and the distance readout.
use vstd::prelude::*;
use crate::bve::{AtsBeaconData, AtsSound, AtsVehicleState, sound_code};

verus! {

/// Stations of the line, numbered from the far end.
#[derive(Clone, Copy, Debug, PartialEq, Eq, Structural)]
pub enum ULineStation {
    Unset,
    S01Tanigami,
    S02ShinKobe,
    S03Sannomiya,
    S04Kenchomae,
    S05Okurayama,
    S06MinatogawaKoen,
    S07Kamisawa,
    S08Nagata,
    S09ShinNagata,
    S10Itayado,
    S11Myohoji,
    S12Myodani,
    S13SogoundoKoen,
    S14Gakuentoshi,
    S15Ikawadani,
    S16SeishinMinami,
    S17SeishinChuo,
}

pub open spec fn station_code(s: ULineStation) -> int {
    match s {
        ULineStation::Unset => 0,
        ULineStation::S01Tanigami => 17,
        ULineStation::S02ShinKobe => 16,
        ULineStation::S03Sannomiya => 15,
        ULineStation::S04Kenchomae => 14,
        ULineStation::S05Okurayama => 13,
        ULineStation::S06MinatogawaKoen => 12,
        ULineStation::S07Kamisawa => 11,
        ULineStation::S08Nagata => 10,
        ULineStation::S09ShinNagata => 9,
        ULineStation::S10Itayado => 8,
        ULineStation::S11Myohoji => 7,
        ULineStation::S12Myodani => 6,
        ULineStation::S13SogoundoKoen => 5,
        ULineStation::S14Gakuentoshi => 4,
        ULineStation::S15Ikawadani => 3,
        ULineStation::S16SeishinMinami => 2,
        ULineStation::S17SeishinChuo => 1,
    }
}

impl ULineStation {
    /// The station's display code.
    pub fn to_i32(self) -> (r: i32)
        ensures
            r == station_code(self),
    {
        match self {
            ULineStation::Unset => 0,
            ULineStation::S01Tanigami => 17,
            ULineStation::S02ShinKobe => 16,
            ULineStation::S03Sannomiya => 15,
            ULineStation::S04Kenchomae => 14,
            ULineStation::S05Okurayama => 13,
            ULineStation::S06MinatogawaKoen => 12,
            ULineStation::S07Kamisawa => 11,
            ULineStation::S08Nagata => 10,
            ULineStation::S09ShinNagata => 9,
            ULineStation::S10Itayado => 8,
            ULineStation::S11Myohoji => 7,
            ULineStation::S12Myodani => 6,
            ULineStation::S13SogoundoKoen => 5,
            ULineStation::S14Gakuentoshi => 4,
            ULineStation::S15Ikawadani => 3,
            ULineStation::S16SeishinMinami => 2,
            ULineStation::S17SeishinChuo => 1,
        }
    }

    /// The station with a display code in `0..=17`.
    pub fn from_code(code: i32) -> (r: Option<ULineStation>)
        ensures
            r is Some <==> 0 <= code <= 17,
            r matches Some(s) ==> station_code(s) == code,
    {
        match code {
            0 => Some(ULineStation::Unset),
            17 => Some(ULineStation::S01Tanigami),
            16 => Some(ULineStation::S02ShinKobe),
            15 => Some(ULineStation::S03Sannomiya),
            14 => Some(ULineStation::S04Kenchomae),
            13 => Some(ULineStation::S05Okurayama),
            12 => Some(ULineStation::S06MinatogawaKoen),
            11 => Some(ULineStation::S07Kamisawa),
            10 => Some(ULineStation::S08Nagata),
            9 => Some(ULineStation::S09ShinNagata),
            8 => Some(ULineStation::S10Itayado),
            7 => Some(ULineStation::S11Myohoji),
            6 => Some(ULineStation::S12Myodani),
            5 => Some(ULineStation::S13SogoundoKoen),
            4 => Some(ULineStation::S14Gakuentoshi),
            3 => Some(ULineStation::S15Ikawadani),
            2 => Some(ULineStation::S16SeishinMinami),
            1 => Some(ULineStation::S17SeishinChuo),
            _ => None,
        }
    }
}

/// Train kinds.
#[derive(Clone, Copy, Debug, PartialEq, Eq, Structural)]
pub enum ULineTrainType {
    Unset,
    Local,
    OutOfService,
    TestRun,
    Rapid1,
    Rapid2,
}

pub open spec fn train_type_code(t: ULineTrainType) -> int {
    match t {
        ULineTrainType::Unset => 0,
        ULineTrainType::Local => 1,
        ULineTrainType::OutOfService => 2,
        ULineTrainType::TestRun => 3,
        ULineTrainType::Rapid1 => 4,
        ULineTrainType::Rapid2 => 5,
    }
}

impl ULineTrainType {
    /// The kind's display code.
    pub fn to_i32(self) -> (r: i32)
        ensures
            r == train_type_code(self),
    {
        match self {
            ULineTrainType::Unset => 0,
            ULineTrainType::Local => 1,
            ULineTrainType::OutOfService => 2,
            ULineTrainType::TestRun => 3,
            ULineTrainType::Rapid1 => 4,
            ULineTrainType::Rapid2 => 5,
        }
    }

    /// The kind with a display code in `0..=5`.
    pub fn from_code(code: i32) -> (r: Option<ULineTrainType>)
        ensures
            r is Some <==> 0 <= code <= 5,
            r matches Some(t) ==> train_type_code(t) == code,
    {
        match code {
            0 => Some(ULineTrainType::Unset),
            1 => Some(ULineTrainType::Local),
            2 => Some(ULineTrainType::OutOfService),
            3 => Some(ULineTrainType::TestRun),
            4 => Some(ULineTrainType::Rapid1),
            5 => Some(ULineTrainType::Rapid2),
            _ => None,
        }
    }
}

/// The section whose kilometrage the display shows, with the track
/// position (mm) at which the origin was set and the origin's kilometrage
/// (mm).
#[derive(Clone, Copy, Debug, PartialEq, Eq, Structural)]
pub enum TimsPosition {
    SeishinYamate(i64, i64),
    SeishinEnshin(i64, i64),
    Hokushin(i64, i64),
}

pub open spec fn position_parts(p: TimsPosition) -> (i64, i64) {
    match p {
        TimsPosition::SeishinYamate(b, o) => (b, o),
        TimsPosition::SeishinEnshin(b, o) => (b, o),
        TimsPosition::Hokushin(b, o) => (b, o),
    }
}

pub open spec fn prefix_of(p: TimsPosition) -> int {
    match p {
        TimsPosition::SeishinYamate(_, _) => 0,
        TimsPosition::SeishinEnshin(_, _) => 1,
        TimsPosition::Hokushin(_, _) => 2,
    }
}

/// The kilometrage (mm) at track position `distance`: the origin's, less
/// the track position where it was set, then plus or minus the position.
pub open spec fn tims_distance(p: TimsPosition, distance: int, is_negative: bool) -> int {
    let (b, o) = position_parts(p);
    if is_negative { (o - b) - distance } else { (o - b) + distance }
}

impl TimsPosition {
    /// The kilometrage (mm) shown at track position `distance` (mm).
    pub fn get_tims_distance(&self, distance: i64, is_negative: bool) -> (r: i128)
        ensures
            r == tims_distance(*self, distance as int, is_negative),
    {
        let (b, o) = match self {
            TimsPosition::SeishinYamate(b, o) => (*b, *o),
            TimsPosition::SeishinEnshin(b, o) => (*b, *o),
            TimsPosition::Hokushin(b, o) => (*b, *o),
        };
        if is_negative {
            ((o as i128) - (b as i128)) - distance as i128
        } else {
            ((o as i128) - (b as i128)) + distance as i128
        }
    }

    /// Index of the prefix shown before the kilometrage.
    pub fn get_tims_distance_prefix(&self) -> (r: i32)
        ensures
            r == prefix_of(*self),
    {
        match self {
            TimsPosition::SeishinYamate(_, _) => 0,
            TimsPosition::SeishinEnshin(_, _) => 1,
            TimsPosition::Hokushin(_, _) => 2,
        }
    }
}

/// Integer division rounding towards zero, as Rust's `/` does.
pub open spec fn trunc_div(a: int, b: int) -> int {
    if a >= 0 { a / b } else { -((-a) / b) }
}

/// Remainder of `trunc_div`, as Rust's `%` does.
pub open spec fn trunc_rem(a: int, b: int) -> int {
    a - b * trunc_div(a, b)
}

fn div_toward_zero(a: i32, b: i32) -> (r: i32)
    requires
        b > 0,
    ensures
        r == trunc_div(a as int, b as int),
{
    if a >= 0 {
        a / b
    } else {
        let n: i64 = -(a as i64);
        proof {
            vstd::arithmetic::div_mod::lemma_div_is_ordered_by_denominator(n as int, 1, b as int);
            vstd::arithmetic::div_mod::lemma_div_pos_is_pos(n as int, b as int);
        }
        let q: i64 = n / (b as i64);
        (-q) as i32
    }
}

fn rem_toward_zero(a: i32, b: i32) -> (r: i32)
    requires
        b > 0,
    ensures
        r == trunc_rem(a as int, b as int),
        a >= 0 ==> 0 <= r < b,
{
    let q = div_toward_zero(a, b);
    proof {
        let ai = a as int;
        let bi = b as int;
        let qi = q as int;
        if ai >= 0 {
            vstd::arithmetic::div_mod::lemma_fundamental_div_mod(ai, bi);
            assert(0 <= ai - bi * qi < bi);
        } else {
            vstd::arithmetic::div_mod::lemma_fundamental_div_mod(-ai, bi);
            let m = (-ai) / bi;
            let k = (-ai) % bi;
            assert(-bi < ai - bi * qi <= 0) by (nonlinear_arith)
                requires
                    -ai == bi * m + k,
                    0 <= k < bi,
                    qi == -m,
            ;
        }
    }
    let r: i64 = (a as i64) - (b as i64) * (q as i64);
    r as i32
}

/// Speed (thousandths of km/h) at or below which the out-of-service
/// announcement plays.
pub const ANNOUNCE_SPEED: i32 = 5_000;
/// Time (ms) between two out-of-service announcements.
pub const ANNOUNCE_INTERVAL: i32 = 10_000;

/// The train information display unit.
pub struct TIMS {
    pub start_station: ULineStation,
    pub destination: ULineStation,
    pub train_type: ULineTrainType,
    /// Operation number, `0..=99`.
    pub operation_number: i32,
    pub position: TimsPosition,
    /// Whether the kilometrage counts down along the track.
    pub is_position_negative: bool,
    /// Track position (mm) of the last tick.
    pub bve_distance: i64,
    /// When the out-of-service announcement last played (ms).
    pub out_of_service_sound_time: i32,
}

/// The kilometrage shown: whole metres of its magnitude, at most `i32::MAX`.
pub open spec fn shown_metres(p: TimsPosition, location: int, is_negative: bool) -> int {
    let d = tims_distance(p, location, is_negative);
    let m = if d < 0 { (-d) / 1000 } else { d / 1000 };
    if m > i32::MAX { i32::MAX as int } else { m }
}

impl TIMS {
    pub open spec fn valid(&self) -> bool {
        0 <= self.operation_number <= 99
    }

    pub fn new() -> (r: Self)
        ensures
            r.valid(),
            r.train_type == ULineTrainType::Unset,
            r.position == TimsPosition::SeishinYamate(0, 0),
            r.out_of_service_sound_time == 0,
    {
        TIMS {
            start_station: ULineStation::Unset,
            destination: ULineStation::Unset,
            train_type: ULineTrainType::Unset,
            operation_number: 0,
            position: TimsPosition::SeishinYamate(0, 0),
            is_position_negative: false,
            bve_distance: 0,
            out_of_service_sound_time: 0,
        }
    }

    /// Whether the out-of-service announcement is due at this tick.
    pub open spec fn announce_due(&self, state: AtsVehicleState) -> bool {
        (self.train_type == ULineTrainType::OutOfService || self.train_type == ULineTrainType::TestRun)
            && state.speed <= ANNOUNCE_SPEED
    }

    /// Plays the out-of-service announcement every ten seconds while an
    /// out-of-service or test train stands or creeps.
    pub fn elapse_out_of_service_sound(&mut self, state: AtsVehicleState, sound: &mut [i32])
        requires
            old(sound)@.len() > 100,
        ensures
            final(sound)@.len() == old(sound)@.len(),
            !old(self).announce_due(state) ==> final(sound)@ == old(sound)@ && *final(self) == *old(self),
            old(self).announce_due(state) ==> {
                let play = old(self).out_of_service_sound_time + ANNOUNCE_INTERVAL < state.time;
                &&& final(sound)@ == old(sound)@.update(
                    100,
                    (if play { sound_code(AtsSound::Play) } else { sound_code(AtsSound::Continue) }) as i32,
                )
                &&& final(self).out_of_service_sound_time == if play {
                    state.time
                } else {
                    old(self).out_of_service_sound_time
                }
            },
            final(self).train_type == old(self).train_type,
            final(self).operation_number == old(self).operation_number,
            final(self).position == old(self).position,
            final(self).destination == old(self).destination,
            final(self).is_position_negative == old(self).is_position_negative,
            final(self).bve_distance == old(self).bve_distance,
    {
        if !(self.train_type == ULineTrainType::OutOfService) && !(self.train_type == ULineTrainType::TestRun) {
            return;
        }
        if state.speed > ANNOUNCE_SPEED {
            return;
        }
        if (self.out_of_service_sound_time as i64) + (ANNOUNCE_INTERVAL as i64) < state.time as i64 {
            sound[100] = AtsSound::Play.code();
            self.out_of_service_sound_time = state.time;
        } else {
            sound[100] = AtsSound::Continue.code();
        }
    }

    /// The display at one tick: operation number, train kind, destination,
    /// the clock, and the kilometrage in tens of metres.
    pub fn elapse(&mut self, state: AtsVehicleState, panel: &mut [i32], sound: &mut [i32])
        requires
            old(self).valid(),
            old(panel)@.len() > 120,
            old(sound)@.len() > 100,
        ensures
            final(self).valid(),
            final(self).bve_distance == state.location,
            final(self).train_type == old(self).train_type,
            final(self).position == old(self).position,
            final(panel)@.len() == old(panel)@.len(),
            final(sound)@.len() == old(sound)@.len(),
            forall|i: int| 0 <= i < old(sound)@.len() && i != 100 ==> final(sound)@[i] == old(sound)@[i],
            ({
                let secs = trunc_div(state.time as int, 1000);
                let hours = trunc_div(trunc_div(secs, 60), 60);
                let minutes = trunc_rem(trunc_div(secs, 60), 60);
                let seconds = trunc_rem(secs, 60);
                let p = final(panel)@;
                &&& p[101] == old(self).operation_number / 10
                &&& p[102] == old(self).operation_number % 10
                &&& p[103] == train_type_code(old(self).train_type)
                &&& p[104] == station_code(old(self).destination)
                &&& p[107] == trunc_div(hours, 10)
                &&& p[108] == trunc_rem(hours, 10)
                &&& p[109] == trunc_div(minutes, 10)
                &&& p[110] == trunc_rem(minutes, 10)
                &&& p[111] == trunc_div(seconds, 10)
                &&& p[112] == trunc_rem(seconds, 10)
                &&& p[116] == prefix_of(old(self).position)
                &&& p[117] == shown_metres(old(self).position, state.location as int, old(self).is_position_negative) / 10000 % 10
                &&& p[118] == shown_metres(old(self).position, state.location as int, old(self).is_position_negative) / 1000 % 10
                &&& p[119] == shown_metres(old(self).position, state.location as int, old(self).is_position_negative) / 100 % 10
                &&& p[120] == shown_metres(old(self).position, state.location as int, old(self).is_position_negative) / 10 % 10
            }),
            forall|i: int| 0 <= i < old(panel)@.len() && !(101 <= i <= 104 || 107 <= i <= 112 || 116 <= i <= 120)
                ==> final(panel)@[i] == old(panel)@[i],
    {
        self.bve_distance = state.location;
        self.elapse_out_of_service_sound(state, sound);

        let total_second = div_toward_zero(state.time, 1000);
        let hours = div_toward_zero(div_toward_zero(total_second, 60), 60);
        let minutes = rem_toward_zero(div_toward_zero(total_second, 60), 60);
        let seconds = rem_toward_zero(total_second, 60);

        panel[101] = self.operation_number / 10;
        panel[102] = self.operation_number % 10;
        panel[103] = self.train_type.to_i32();
        panel[104] = self.destination.to_i32();
        panel[107] = div_toward_zero(hours, 10);
        panel[108] = rem_toward_zero(hours, 10);
        panel[109] = div_toward_zero(minutes, 10);
        panel[110] = rem_toward_zero(minutes, 10);
        panel[111] = div_toward_zero(seconds, 10);
        panel[112] = rem_toward_zero(seconds, 10);

        panel[116] = self.position.get_tims_distance_prefix();
        let d = self.position.get_tims_distance(state.location, self.is_position_negative);
        let metres: i128 = if d < 0 { (-d) / 1000 } else { d / 1000 };
        let shown: i32 = if metres > i32::MAX as i128 { i32::MAX } else { metres as i32 };
        panel[117] = shown / 10000 % 10;
        panel[118] = shown / 1000 % 10;
        panel[119] = shown / 100 % 10;
        panel[120] = shown / 10 % 10;
    }

    /// Service data from a beacon: start station, destination, train kind,
    /// operation number, kilometrage section, origin, and direction. Values
    /// out of range are ignored.
    pub fn set_beacon_data(&mut self, data: AtsBeaconData)
        requires
            old(self).valid(),
        ensures
            final(self).valid(),
            data.beacon_type == 13 && 0 <= data.optional <= 5
                ==> train_type_code(final(self).train_type) == data.optional,
            data.beacon_type == 12 && 0 <= data.optional <= 17
                ==> station_code(final(self).destination) == data.optional,
            data.beacon_type == 14 && 0 <= data.optional <= 99 ==> final(self).operation_number == data.optional,
            data.beacon_type == 14 && !(0 <= data.optional <= 99)
                ==> final(self).operation_number == old(self).operation_number,
            data.beacon_type == 15 && 0 <= data.optional <= 2 ==> {
                &&& prefix_of(final(self).position) == data.optional
                &&& position_parts(final(self).position) == position_parts(old(self).position)
            },
            data.beacon_type == 16 ==> {
                &&& prefix_of(final(self).position) == prefix_of(old(self).position)
                &&& position_parts(final(self).position) == (old(self).bve_distance, (data.optional * 1000) as i64)
            },
            data.beacon_type == 17 ==> final(self).is_position_negative == (data.optional != 0),
            !(11 <= data.beacon_type <= 17) ==> *final(self) == *old(self),
    {
        match data.beacon_type {
            11 => {
                match ULineStation::from_code(data.optional) {
                    Some(s) => self.start_station = s,
                    None => {},
                }
            },
            12 => {
                match ULineStation::from_code(data.optional) {
                    Some(s) => self.destination = s,
                    None => {},
                }
            },
            13 => {
                match ULineTrainType::from_code(data.optional) {
                    Some(t) => self.train_type = t,
                    None => {},
                }
            },
            14 => {
                if 0 <= data.optional && data.optional <= 99 {
                    self.operation_number = data.optional;
                }
            },
            15 => {
                let (b, o) = match self.position {
                    TimsPosition::SeishinYamate(b, o) => (b, o),
                    TimsPosition::SeishinEnshin(b, o) => (b, o),
                    TimsPosition::Hokushin(b, o) => (b, o),
                };
                match data.optional {
                    0 => self.position = TimsPosition::SeishinYamate(b, o),
                    1 => self.position = TimsPosition::SeishinEnshin(b, o),
                    2 => self.position = TimsPosition::Hokushin(b, o),
                    _ => {},
                }
            },
            16 => {
                let origin = data.optional as i64 * 1000;
                self.position = match self.position {
                    TimsPosition::SeishinYamate(_, _) => TimsPosition::SeishinYamate(self.bve_distance, origin),
                    TimsPosition::SeishinEnshin(_, _) => TimsPosition::SeishinEnshin(self.bve_distance, origin),
                    TimsPosition::Hokushin(_, _) => TimsPosition::Hokushin(self.bve_distance, origin),
                };
            },
            17 => {
                self.is_position_negative = data.optional != 0;
            },
            _ => {},
        }
    }
}

} // verus!
