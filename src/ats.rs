//! A simpler ATS for the city subway: a fixed overspeed check against the
//! signal, the signal and handle lamps, and service data from beacons.
use vstd::prelude::*;
use crate::bve::{
    AtsBeaconData, AtsHandles, AtsHorn, AtsInit, AtsKey, AtsSound, AtsVehicleSpec, AtsVehicleState, BveAts,
    ATS_VERSION, PANEL_SIZE, SOUND_SIZE, sound_code,
};

verus! {

/// Slot of the signal-change chime.
pub const SUBWAY_SOUND_CHIME: usize = 2;
/// Slot of the overspeed bell.
pub const SUBWAY_SOUND_BELL: usize = 3;

/// The permitted speed (km/h) of a signal code of this line.
pub open spec fn subway_signal_speed(signal: int) -> int {
    if signal == 0 { 0 }
    else if signal == 1 { 15 }
    else if signal == 2 { 25 }
    else if signal == 3 { 45 }
    else if signal == 4 { 60 }
    else if signal == 5 { 75 }
    else if signal == 6 { 90 }
    else { 0 }
}

/// Lamp `i` of the power indicator for row `row`: the holding rows light
/// from the row up to the neutral lamp, neutral lights its own lamp, and the
/// power rows light from the first power lamp up to the row.
pub open spec fn power_lamp(row: int, i: int) -> int {
    if row <= 2 {
        if row <= i <= 2 { 1 } else { 0 }
    } else if row == 3 {
        if i == 3 { 1 } else { 0 }
    } else {
        if 4 <= i <= row { 1 } else { 0 }
    }
}

/// Lamp `i` of the brake indicator for row `row`: released lights lamp 0,
/// a brake notch lights lamps 1 up to the notch.
pub open spec fn brake_lamp(row: int, i: int) -> int {
    if row == 0 {
        if i == 0 { 1 } else { 0 }
    } else {
        if 1 <= i <= row { 1 } else { 0 }
    }
}

/// Panel slot of the lamp of a signal code.
pub open spec fn subway_signal_lamp(signal: int) -> int {
    if 0 <= signal <= 6 { 32 + signal } else { 31 }
}

/// The city subway ATS.
pub struct KobeCitySubwayATS {
    pub vehicle_spec: AtsVehicleSpec,
    pub is_changing_signal: bool,
    pub man_power: i32,
    pub man_brake: i32,
    pub man_reverser: i32,
    pub now_signal: i32,
    pub start_station: i32,
    pub destination: i32,
    pub train_type: i32,
    pub operation_number: i32,
}

impl KobeCitySubwayATS {
    pub fn new() -> (r: Self)
        ensures
            r.now_signal == 0,
            r.man_power == 0 && r.man_brake == 0 && r.man_reverser == 0,
            !r.is_changing_signal,
    {
        KobeCitySubwayATS {
            vehicle_spec: AtsVehicleSpec { brake_notches: 0, power_notches: 0, ats_notch: 0, b67_notch: 0, cars: 0 },
            is_changing_signal: false,
            man_power: 0,
            man_brake: 0,
            man_reverser: 0,
            now_signal: 0,
            start_station: 0,
            destination: 0,
            train_type: 0,
            operation_number: 0,
        }
    }

    /// The permitted speed (km/h) of a signal code; unknown codes permit 0.
    pub fn get_signal_speed(&self, signal: i32) -> (r: i32)
        ensures
            r == subway_signal_speed(signal as int),
    {
        match signal {
            0 => 0,
            1 => 15,
            2 => 25,
            3 => 45,
            4 => 60,
            5 => 75,
            6 => 90,
            _ => 0,
        }
    }

    /// Lights the signal lamp and the power and brake indicators; a handle
    /// outside the indicator's rows shows as the nearest row.
    pub fn elapse_display(&mut self, state: AtsVehicleState, panel: &mut [i32], sound: &mut [i32])
        requires
            old(panel)@.len() >= PANEL_SIZE,
        ensures
            final(panel)@.len() == old(panel)@.len(),
            *final(self) == *old(self),
            final(sound)@ == old(sound)@,
            forall|i: int| 31 <= i <= 38 ==> final(panel)@[i] == if i == subway_signal_lamp(old(self).now_signal as int) { 1int } else { 0int },
            ({
                let pr = if old(self).man_power + 3 < 0 { 0 } else if old(self).man_power + 3 > 7 { 7 } else { old(self).man_power + 3 };
                let br = if old(self).man_brake < 0 { 0 } else if old(self).man_brake > 8 { 8 } else { old(self).man_brake as int };
                &&& forall|i: int| 0 <= i < 8 ==> final(panel)@[11 + i] == power_lamp(pr, i)
                &&& forall|i: int| 0 <= i < 9 ==> final(panel)@[21 + i] == brake_lamp(br, i)
            }),
            forall|i: int| 0 <= i < old(panel)@.len() && !(11 <= i <= 18 || 21 <= i <= 29 || 31 <= i <= 38)
                ==> final(panel)@[i] == old(panel)@[i],
    {
        let mut k: usize = 31;
        while k <= 38
            invariant
                31 <= k <= 39,
                panel@.len() == old(panel)@.len(),
                old(panel)@.len() >= PANEL_SIZE,
                forall|j: int| 31 <= j < k ==> panel@[j] == 0,
                forall|j: int| 0 <= j < panel@.len() && !(31 <= j < k) ==> panel@[j] == old(panel)@[j],
            decreases 39 - k,
        {
            panel[k] = 0;
            k = k + 1;
        }
        if 0 <= self.now_signal && self.now_signal <= 6 {
            panel[(32 + self.now_signal) as usize] = 1;
        } else {
            panel[31] = 1;
        }
        assert(forall|i: int| 31 <= i <= 38 ==> panel@[i] == if i == subway_signal_lamp(self.now_signal as int) { 1int } else { 0int });
        assert(forall|i: int| 0 <= i < panel@.len() && !(31 <= i <= 38) ==> panel@[i] == old(panel)@[i]);
        let p: i64 = self.man_power as i64 + 3;
        let pr: i32 = if p < 0 { 0 } else if p > 7 { 7 } else { p as i32 };
        let br: i32 = if self.man_brake < 0 { 0 } else if self.man_brake > 8 { 8 } else { self.man_brake };
        let ghost lamps = panel@;
        let mut i: usize = 0;
        while i < 8
            invariant
                0 <= i <= 8,
                0 <= pr <= 7,
                panel@.len() == old(panel)@.len(),
                old(panel)@.len() >= PANEL_SIZE,
                forall|j: int| 0 <= j < i ==> panel@[11 + j] == power_lamp(pr as int, j),
                forall|j: int| 0 <= j < panel@.len() && !(11 <= j < 11 + i) ==> panel@[j] == lamps[j],
            decreases 8 - i,
        {
            let ii = i as i32;
            let v: i32 = if pr <= 2 {
                if pr <= ii && ii <= 2 { 1 } else { 0 }
            } else if pr == 3 {
                if ii == 3 { 1 } else { 0 }
            } else {
                if 4 <= ii && ii <= pr { 1 } else { 0 }
            };
            panel[11 + i] = v;
            i = i + 1;
        }
        let ghost lamps2 = panel@;
        assert(forall|m: int| 0 <= m < 8 ==> lamps2[11 + m] == power_lamp(pr as int, m));
        let mut j: usize = 0;
        while j < 9
            invariant
                0 <= j <= 9,
                0 <= br <= 8,
                panel@.len() == old(panel)@.len(),
                old(panel)@.len() >= PANEL_SIZE,
                forall|m: int| 0 <= m < j ==> panel@[21 + m] == brake_lamp(br as int, m),
                forall|m: int| 0 <= m < panel@.len() && !(21 <= m < 21 + j) ==> panel@[m] == lamps2[m],
            decreases 9 - j,
        {
            let jj = j as i32;
            let v: i32 = if br == 0 {
                if jj == 0 { 1 } else { 0 }
            } else {
                if 1 <= jj && jj <= br { 1 } else { 0 }
            };
            panel[21 + j] = v;
            j = j + 1;
        }
        assert(forall|m: int| 0 <= m < 8 ==> #[trigger] panel@[11 + m] == lamps2[11 + m]);
        assert(forall|m: int| 0 <= m < panel@.len() && !(11 <= m <= 18 || 21 <= m <= 29 || 31 <= m <= 38)
            ==> #[trigger] panel@[m] == lamps2[m] && lamps2[m] == lamps[m] && lamps[m] == old(panel)@[m]);
        assert(forall|m: int| 31 <= m <= 38 ==> #[trigger] panel@[m] == lamps2[m] && lamps2[m] == lamps[m]);
    }

    /// One tick: the signal chime, the lamps, and the overspeed check,
    /// which applies the vehicle's full brake with power off while the speed
    /// is above the signal's.
    pub fn tick(&mut self, state: AtsVehicleState, panel: &mut [i32], sound: &mut [i32]) -> (r: AtsHandles)
        requires
            old(panel)@.len() >= PANEL_SIZE,
            old(sound)@.len() >= SOUND_SIZE,
        ensures
            final(panel)@.len() == old(panel)@.len(),
            final(sound)@.len() == old(sound)@.len(),
            !final(self).is_changing_signal,
            final(sound)@[2] == if old(self).is_changing_signal {
                sound_code(AtsSound::Play)
            } else {
                sound_code(AtsSound::Continue)
            },
            ({
                let over = subway_signal_speed(old(self).now_signal as int) * 1000 < state.speed;
                &&& final(sound)@[3] == if over { sound_code(AtsSound::PlayLooping) } else { sound_code(AtsSound::Stop) }
                &&& r == if over {
                    AtsHandles { brake: old(self).vehicle_spec.brake_notches, power: 0, reverser: old(self).man_reverser, constant_speed: 0 }
                } else {
                    AtsHandles { brake: old(self).man_brake, power: old(self).man_power, reverser: old(self).man_reverser, constant_speed: 0 }
                }
            }),
    {
        if self.is_changing_signal {
            self.is_changing_signal = false;
            sound[SUBWAY_SOUND_CHIME] = AtsSound::Play.code();
        } else {
            sound[SUBWAY_SOUND_CHIME] = AtsSound::Continue.code();
        }
        self.elapse_display(state, panel, sound);
        let limit = self.get_signal_speed(self.now_signal) as i64 * 1000;
        if limit < state.speed as i64 {
            sound[SUBWAY_SOUND_BELL] = AtsSound::PlayLooping.code();
            AtsHandles {
                brake: self.vehicle_spec.brake_notches,
                power: 0,
                reverser: self.man_reverser,
                constant_speed: 0,
            }
        } else {
            sound[SUBWAY_SOUND_BELL] = AtsSound::Stop.code();
            AtsHandles { brake: self.man_brake, power: self.man_power, reverser: self.man_reverser, constant_speed: 0 }
        }
    }

    /// Service data from a beacon; values out of range are ignored.
    pub fn beacon(&mut self, data: AtsBeaconData)
        ensures
            data.beacon_type == 11 && 0 <= data.optional <= 17 ==> final(self).start_station == data.optional,
            data.beacon_type == 12 && 0 <= data.optional <= 17 ==> final(self).destination == data.optional,
            data.beacon_type == 13 && 0 <= data.optional <= 5 ==> final(self).train_type == data.optional,
            data.beacon_type == 14 && 0 <= data.optional <= 99 ==> final(self).operation_number == data.optional,
            final(self).start_station == old(self).start_station || final(self).start_station == data.optional,
            final(self).destination == old(self).destination || final(self).destination == data.optional,
            final(self).train_type == old(self).train_type || final(self).train_type == data.optional,
            final(self).operation_number == old(self).operation_number || final(self).operation_number == data.optional,
            !(11 <= data.beacon_type <= 14) ==> *final(self) == *old(self),
            final(self).now_signal == old(self).now_signal,
    {
        match data.beacon_type {
            11 => {
                if 0 <= data.optional && data.optional <= 17 {
                    self.start_station = data.optional;
                }
            },
            12 => {
                if 0 <= data.optional && data.optional <= 17 {
                    self.destination = data.optional;
                }
            },
            13 => {
                if 0 <= data.optional && data.optional <= 5 {
                    self.train_type = data.optional;
                }
            },
            14 => {
                if 0 <= data.optional && data.optional <= 99 {
                    self.operation_number = data.optional;
                }
            },
            _ => {},
        }
    }
}

impl BveAts for KobeCitySubwayATS {
    open spec fn wf(&self) -> bool {
        true
    }

    fn load(&mut self) {
    }

    fn dispose(&mut self) {
    }

    fn get_plugin_version(&mut self) -> (r: i32)
        ensures
            r == ATS_VERSION,
    {
        ATS_VERSION
    }

    fn set_vehicle_spec(&mut self, spec: AtsVehicleSpec)
        ensures
            final(self).vehicle_spec == spec,
    {
        self.vehicle_spec = spec;
    }

    fn initialize(&mut self, handle: AtsInit) {
    }

    fn elapse(&mut self, state: AtsVehicleState, panel: &mut [i32], sound: &mut [i32]) -> (r: AtsHandles) {
        self.tick(state, panel, sound)
    }

    fn set_power(&mut self, notch: i32)
        ensures
            final(self).man_power == notch,
    {
        self.man_power = notch;
    }

    fn set_brake(&mut self, notch: i32)
        ensures
            final(self).man_brake == notch,
    {
        self.man_brake = notch;
    }

    fn set_reverser(&mut self, notch: i32)
        ensures
            final(self).man_reverser == notch,
    {
        self.man_reverser = notch;
    }

    fn key_down(&mut self, key: AtsKey) {
    }

    fn key_up(&mut self, key: AtsKey) {
    }

    fn horn_blow(&mut self, horn_type: AtsHorn) {
    }

    fn door_open(&mut self) {
    }

    fn door_close(&mut self) {
    }

    fn set_signal(&mut self, signal: i32)
        ensures
            final(self).now_signal == signal,
            final(self).is_changing_signal,
    {
        self.now_signal = signal;
        self.is_changing_signal = true;
    }

    fn set_beacon_data(&mut self, data: AtsBeaconData) {
        self.beacon(data)
    }
}

impl Default for KobeCitySubwayATS {
    fn default() -> (r: Self)
        ensures
            r.now_signal == 0,
    {
        KobeCitySubwayATS::new()
    }
}

} // verus!
