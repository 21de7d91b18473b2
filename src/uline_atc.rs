//! The ATC unit: operating mode, manual and automatic notch composition,
//! brake enforcement, cab display and announcements.
use vstd::prelude::*;
use crate::atc_signal::{AtcSignal, signal_of_code};
use crate::auto_brake::{AtcBrakeStatus, brake_step, rewound, brake_handles_spec, shunting_brake, shunting_over, elapse_atc_brake,
    elapse_hisetsu_brake};
use crate::bve::{
    AtsBeaconData, AtsHandles, AtsHorn, AtsInit, AtsKey, AtsSound, AtsVehicleSpec, AtsVehicleState, BveAts,
    ATS_VERSION, CONSTANT_CONTINUE, CONSTANT_DISABLE, PANEL_SIZE, SOUND_SIZE, sound_code,
};
use crate::notch::{scale, scale_notch, to_output_brake, to_output_power};
use crate::settings::{Settings, SettingsError, VehicleSettings, default_settings};
use crate::speed_control::{
    SpeedRegulator, acceleration_spec, clamp_int, constant_and_holding_speed, constant_holding_spec,
    constant_arms, holding_arms,
    is_air_holding_speed, is_constant_speed, is_holding_speed, regulated_handles, regulate_spec,
};
use crate::tims::TIMS;
use crate::uline_ato::{ULineATO, ato_tick_post};

verus! {

/// Time (ms) a broadcast key must be held before the announcement starts.
pub const BROADCAST_HOLD: i32 = 1000;
/// Time (ms) after the doors close before the door-interlock chime.
pub const DOOR_CHIME_DELAY: i32 = 10_000;
/// Time (ms) between two copies of the display buffer to the panel.
pub const PANEL_LAG: i32 = 250;
/// Speed (thousandths of km/h) above which an emergency brake by the
/// driver sounds the emergency-brake alarm.
pub const EMERGENCY_SOUND_SPEED: i32 = 5_000;

/// The operating mode, set by a rotary switch.
#[derive(Clone, Copy, Debug, PartialEq, Eq, Structural)]
pub enum AtcStatus {
    /// Automatic operation.
    ATO,
    /// Manual driving under signal enforcement.
    ATC,
    /// Shunting.
    Irekae,
    /// Protection disabled.
    Hisetsu,
}

impl Default for AtcStatus {
    fn default() -> (r: Self)
        ensures
            r == AtcStatus::ATC,
    {
        Self::ATC
    }
}

/// One step of the switch to the right: towards automatic, stopping there.
pub open spec fn status_right(s: AtcStatus) -> AtcStatus {
    match s {
        AtcStatus::ATO => AtcStatus::ATO,
        AtcStatus::ATC => AtcStatus::ATO,
        AtcStatus::Irekae => AtcStatus::ATC,
        AtcStatus::Hisetsu => AtcStatus::Irekae,
    }
}

/// One step of the switch to the left: towards disabled, stopping there.
pub open spec fn status_left(s: AtcStatus) -> AtcStatus {
    match s {
        AtcStatus::ATO => AtcStatus::ATC,
        AtcStatus::ATC => AtcStatus::Irekae,
        AtcStatus::Irekae => AtcStatus::Hisetsu,
        AtcStatus::Hisetsu => AtcStatus::Hisetsu,
    }
}

impl AtcStatus {
    /// The mode after turning the switch right.
    pub fn get_right_status(&self) -> (r: AtcStatus)
        ensures
            r == status_right(*self),
    {
        match self {
            AtcStatus::ATO => AtcStatus::ATO,
            AtcStatus::ATC => AtcStatus::ATO,
            AtcStatus::Irekae => AtcStatus::ATC,
            AtcStatus::Hisetsu => AtcStatus::Irekae,
        }
    }

    /// The mode after turning the switch left.
    pub fn get_left_status(&self) -> (r: AtcStatus)
        ensures
            r == status_left(*self),
    {
        match self {
            AtcStatus::ATO => AtcStatus::ATC,
            AtcStatus::ATC => AtcStatus::Irekae,
            AtcStatus::Irekae => AtcStatus::Hisetsu,
            AtcStatus::Hisetsu => AtcStatus::Hisetsu,
        }
    }
}

/// The emergency announcement playing.
#[derive(Clone, Copy, Debug, PartialEq, Eq, Structural)]
pub enum EmgSound {
    Silent,
    SignalWait,
    EmergencyCase,
    EmergencyStop,
    SeatExchange,
    EmergencyBrake,
}

impl Default for EmgSound {
    fn default() -> (r: Self)
        ensures
            r == EmgSound::Silent,
    {
        Self::Silent
    }
}

/// Which announcement key is held, and since when (ms).
#[derive(Clone, Copy, Debug, PartialEq, Eq, Structural)]
pub enum EmgSoundKeyDown {
    Released,
    H(i32),
    I(i32),
    J(i32),
    K(i32),
    L(i32),
}

impl Default for EmgSoundKeyDown {
    fn default() -> (r: Self)
        ensures
            r == EmgSoundKeyDown::Released,
    {
        Self::Released
    }
}

/// The announcement a key starts.
pub open spec fn broadcast_of(k: AtsKey) -> EmgSound {
    match k {
        AtsKey::H => EmgSound::SignalWait,
        AtsKey::I => EmgSound::EmergencyCase,
        AtsKey::J => EmgSound::EmergencyStop,
        AtsKey::K => EmgSound::SeatExchange,
        AtsKey::L => EmgSound::EmergencyBrake,
        _ => EmgSound::Silent,
    }
}

pub open spec fn is_broadcast_key(k: AtsKey) -> bool {
    k == AtsKey::H || k == AtsKey::I || k == AtsKey::J || k == AtsKey::K || k == AtsKey::L
}

/// Since when `kd` holds key `k`, if it does.
pub open spec fn held_since(kd: EmgSoundKeyDown, k: AtsKey) -> Option<i32> {
    match (kd, k) {
        (EmgSoundKeyDown::H(t), AtsKey::H) => Some(t),
        (EmgSoundKeyDown::I(t), AtsKey::I) => Some(t),
        (EmgSoundKeyDown::J(t), AtsKey::J) => Some(t),
        (EmgSoundKeyDown::K(t), AtsKey::K) => Some(t),
        (EmgSoundKeyDown::L(t), AtsKey::L) => Some(t),
        _ => None,
    }
}

pub open spec fn max_int(a: int, b: int) -> int {
    if a >= b { a } else { b }
}

/// The handles of manual driving: the driver's brake and power scaled to
/// the vehicle, and a negative power notch scaled to a holding brake of at
/// most half the service brake, the stronger brake winning.
pub open spec fn manual_handles(man_power: int, man_brake: int, man_reverser: i32, v: VehicleSettings) -> AtsHandles {
    let ob = v.output_brake_notches as int;
    let op = v.output_power_notches as int;
    let brake = clamp_int(scale_notch(man_brake, v.input_brake_notches as int, ob), 0, ob + 1);
    let power = clamp_int(scale_notch(man_power, v.input_power_notches as int, op), 0, op);
    let holding = clamp_int(scale_notch(-man_power, v.input_brake_notches as int, ob), 0, ob / 2);
    AtsHandles {
        brake: max_int(brake, holding) as i32,
        power: power as i32,
        reverser: man_reverser,
        constant_speed: CONSTANT_CONTINUE,
    }
}

/// The handles of automatic operation: the ATO's command, with the driver's
/// brake winning where it is stronger and clearing the constant-speed flag.
pub open spec fn ato_handles(h: AtsHandles, man_brake: int, v: VehicleSettings) -> AtsHandles {
    let ob = v.output_brake_notches as int;
    let op = v.output_power_notches as int;
    AtsHandles {
        brake: clamp_int(max_int(h.brake as int, scale_notch(man_brake, v.input_brake_notches as int, ob)), 0, ob + 1) as i32,
        power: clamp_int(h.power as int, 0, op) as i32,
        reverser: h.reverser,
        constant_speed: if man_brake != 0 { CONSTANT_DISABLE } else { h.constant_speed },
    }
}

/// What the operating mode's enforcement does to the handles.
pub open spec fn enforced(mode: AtcStatus, st: AtcBrakeStatus, h: AtsHandles, signal: AtcSignal, speed: int, s: Settings) -> AtsHandles {
    match mode {
        AtcStatus::ATO => brake_handles_spec(st, h, s.vehicle.output_brake_notches as int),
        AtcStatus::ATC => brake_handles_spec(st, h, s.vehicle.output_brake_notches as int),
        AtcStatus::Irekae => if shunting_over(signal, speed, s.atc.shunting_cap_speed as int) {
            AtsHandles {
                brake: max_int(s.vehicle.output_brake_notches as int, h.brake as int) as i32,
                power: 0,
                constant_speed: CONSTANT_DISABLE,
                ..h
            }
        } else {
            h
        },
        AtcStatus::Hisetsu => h,
    }
}

/// The constant-speed latch still holds: power notch one below the top and
/// speed at least the start speed.
pub open spec fn constant_latch_holds(man_power: int, speed: int, v: VehicleSettings) -> bool {
    man_power == v.input_power_notches - 1 && speed >= v.constant_start_speed
}

/// The holding-brake latch still holds: power notch at -1 and speed at
/// least the start speed.
pub open spec fn holding_latch_holds(man_power: int, speed: int, v: VehicleSettings) -> bool {
    man_power == -1 && speed >= v.holding_start_speed
}

/// The ATC unit.
pub struct ULineATC {
    pub vehicle_spec: AtsVehicleSpec,
    /// The signal changed since the last tick.
    pub is_changing_signal: bool,
    /// The driver's handles.
    pub man_power: i32,
    pub man_brake: i32,
    pub man_reverser: i32,
    pub now_signal: AtcSignal,
    pub atc_brake_status: AtcBrakeStatus,
    /// Non-service operation (creeping under absolute stop) is armed.
    pub non_service_armed: bool,
    /// Confirmation operation (creeping under conditional stop) is armed.
    pub confirmation_armed: bool,
    /// Time (ms) and speed of the last tick.
    pub time: i32,
    pub speed: i32,
    /// Time and speed of the tick before, for the acceleration.
    pub before_time: i32,
    pub before_speed: i32,
    pub tims: TIMS,
    /// Display buffer, copied to the panel with a lag.
    pub tims_panel: Vec<i32>,
    pub tims_panel_updated_time: i32,
    pub atc_status: AtcStatus,
    pub emg_sound: EmgSound,
    pub emg_sound_keydown: EmgSoundKeyDown,
    pub is_emg_brake_sound: bool,
    /// Constant-speed control is latched, holding `constant_target_speed`.
    pub is_constant_control: bool,
    pub constant_target_speed: i32,
    /// Holding-brake control is latched.
    pub is_holding_control: bool,
    pub regulator: SpeedRegulator,
    pub atc_disable: bool,
    /// Waiting for the door-interlock chime, and when the doors closed.
    pub wait_door_close_security: bool,
    pub door_close_time: i32,
    pub ato: ULineATO,
    pub settings: Settings,
}

impl ULineATC {
    pub open spec fn valid(&self) -> bool {
        &&& self.settings.valid()
        &&& self.ato.valid()
        &&& self.ato.settings == self.settings
        &&& self.tims.valid()
        &&& self.tims_panel@.len() == PANEL_SIZE
        &&& (self.regulator.power == 0 || self.regulator.brake == 0)
        &&& (self.is_constant_control ==> self.man_power == self.settings.vehicle.input_power_notches - 1)
        &&& (self.is_holding_control ==> self.man_power == -1)
    }

    /// A unit in manual mode under the absolute-stop signal.
    pub fn new(settings: Settings) -> (r: Self)
        requires
            settings.valid(),
        ensures
            r.valid(),
            r.settings == settings,
            r.atc_status == AtcStatus::ATC,
            r.atc_brake_status == AtcBrakeStatus::Passing,
            r.now_signal == AtcSignal::Signal02,
            r.man_power == 0 && r.man_brake == 0 && r.man_reverser == 0,
            !r.is_constant_control && !r.is_holding_control,
            !r.non_service_armed && !r.confirmation_armed,
            r.time == 0 && r.speed == 0,
    {
        ULineATC {
            vehicle_spec: AtsVehicleSpec { brake_notches: 0, power_notches: 0, ats_notch: 0, b67_notch: 0, cars: 0 },
            is_changing_signal: false,
            man_power: 0,
            man_brake: 0,
            man_reverser: 0,
            now_signal: AtcSignal::Signal02,
            atc_brake_status: AtcBrakeStatus::Passing,
            non_service_armed: false,
            confirmation_armed: false,
            time: 0,
            speed: 0,
            before_time: 0,
            before_speed: 0,
            tims: TIMS::new(),
            tims_panel: vec![0; PANEL_SIZE],
            tims_panel_updated_time: 0,
            atc_status: AtcStatus::ATC,
            emg_sound: EmgSound::Silent,
            emg_sound_keydown: EmgSoundKeyDown::Released,
            is_emg_brake_sound: false,
            is_constant_control: false,
            constant_target_speed: 0,
            is_holding_control: false,
            regulator: SpeedRegulator::new(),
            atc_disable: false,
            wait_door_close_security: false,
            door_close_time: 0,
            ato: ULineATO::new(settings),
            settings,
        }
    }

    /// Installs a configuration, refusing one the control loop cannot run on;
    /// an installed one restarts the ATO and drops the latches.
    pub fn set_settings(&mut self, settings: Settings) -> (r: Result<(), SettingsError>)
        requires
            old(self).valid(),
        ensures
            final(self).valid(),
            r is Ok <==> settings.valid(),
            r is Ok ==> final(self).settings == settings,
            r is Err ==> final(self).settings == old(self).settings,
    {
        match settings.validate() {
            Ok(()) => {
                self.settings = settings;
                self.ato = ULineATO::new(settings);
                self.is_constant_control = false;
                self.constant_target_speed = 0;
                self.is_holding_control = false;
                Ok(())
            },
            Err(e) => Err(e),
        }
    }

    /// A driver's brake notch scaled to the vehicle.
    pub fn convert_output_notch(&self, notch: i32) -> (r: i128)
        requires
            self.valid(),
        ensures
            r == scale_notch(
                notch as int,
                self.settings.vehicle.input_brake_notches as int,
                self.settings.vehicle.output_brake_notches as int,
            ),
    {
        to_output_brake(&self.settings.vehicle, notch)
    }

    /// The handles of manual driving.
    pub fn manual_default_handles(&self) -> (r: AtsHandles)
        requires
            self.valid(),
        ensures
            r == manual_handles(self.man_power as int, self.man_brake as int, self.man_reverser, self.settings.vehicle),
    {
        let v = &self.settings.vehicle;
        let ob = v.output_brake_notches as i128;
        let op = v.output_power_notches as i128;
        let b = to_output_brake(v, self.man_brake);
        let brake: i128 = if b < 0 { 0 } else if b > ob + 1 { ob + 1 } else { b };
        let p = to_output_power(v, self.man_power);
        let power: i128 = if p < 0 { 0 } else if p > op { op } else { p };
        let y = scale(-(self.man_power as i64), v.input_brake_notches, v.output_brake_notches);
        let holding: i128 = if y < 0 { 0 } else if y > ob / 2 { ob / 2 } else { y };
        AtsHandles {
            brake: if brake >= holding { brake as i32 } else { holding as i32 },
            power: power as i32,
            reverser: self.man_reverser,
            constant_speed: CONSTANT_CONTINUE,
        }
    }

    /// The ATO's command combined with the driver's brake.
    pub fn ato_default_handles(&self, h: AtsHandles) -> (r: AtsHandles)
        requires
            self.valid(),
        ensures
            r == ato_handles(h, self.man_brake as int, self.settings.vehicle),
    {
        let v = &self.settings.vehicle;
        let ob = v.output_brake_notches as i128;
        let op = v.output_power_notches as i128;
        let mb = to_output_brake(v, self.man_brake);
        let b = if (h.brake as i128) >= mb { h.brake as i128 } else { mb };
        let brake: i128 = if b < 0 { 0 } else if b > ob + 1 { ob + 1 } else { b };
        let power: i32 = if h.power < 0 { 0 } else if h.power > v.output_power_notches { v.output_power_notches } else { h.power };
        AtsHandles {
            brake: brake as i32,
            power,
            reverser: h.reverser,
            constant_speed: if self.man_brake != 0 { CONSTANT_DISABLE } else { h.constant_speed },
        }
    }
}

/// Panel slot of the lamp of a signal, if it has one.
pub open spec fn signal_lamp(sig: AtcSignal) -> Option<int> {
    match sig {
        AtcSignal::Signal02 => Some(31),
        AtcSignal::Signal01 => Some(32),
        AtcSignal::Signal15 => Some(33),
        AtcSignal::Signal25 => Some(34),
        AtcSignal::Signal45 => Some(35),
        AtcSignal::Signal60 => Some(36),
        AtcSignal::Signal75 => Some(37),
        AtcSignal::Signal90 => Some(38),
        _ => None,
    }
}

/// Panel slot of the lamp of an operating mode.
pub open spec fn status_lamp(s: AtcStatus) -> int {
    match s {
        AtcStatus::Hisetsu => 42,
        AtcStatus::Irekae => 43,
        AtcStatus::ATC => 44,
        AtcStatus::ATO => 45,
    }
}

/// Sound slot of an announcement, if it has one.
pub open spec fn broadcast_slot(e: EmgSound) -> Option<int> {
    match e {
        EmgSound::SignalWait => Some(101),
        EmgSound::EmergencyCase => Some(102),
        EmgSound::EmergencyStop => Some(103),
        EmgSound::SeatExchange => Some(104),
        EmgSound::EmergencyBrake => Some(105),
        EmgSound::Silent => None,
    }
}

/// The door-interlock chime sounds: the unit waits for it and the delay
/// has passed since the doors closed, the closing time being taken as now
/// when not yet recorded.
pub open spec fn door_chimes(waiting: bool, closed_at: i32, now: i32) -> bool {
    let t = if closed_at == 0 { now } else { closed_at };
    waiting && t + DOOR_CHIME_DELAY < now
}

/// Handles within the vehicle's ranges: power up to the top notch, brake up
/// to the emergency notch, and a known constant-speed code.
pub open spec fn handles_in_range(h: AtsHandles, v: VehicleSettings) -> bool {
    &&& 0 <= h.power <= v.output_power_notches
    &&& 0 <= h.brake <= v.output_brake_notches + 1
    &&& 0 <= h.constant_speed <= 2
}

pub open spec fn flag(b: bool) -> int {
    if b { 1 } else { 0 }
}

impl ULineATC {
    /// Lights the lamp of the operating mode.
    fn show_atc_status(&mut self)
        requires
            old(self).valid(),
        ensures
            final(self).valid(),
            *final(self) == (ULineATC { tims_panel: final(self).tims_panel, ..*old(self) }),
            forall|i: int| 42 <= i <= 45 ==> final(self).tims_panel@[i] == if i == status_lamp(old(self).atc_status) { 1int } else { 0int },
            forall|i: int| 0 <= i < PANEL_SIZE && !(42 <= i <= 45) ==> final(self).tims_panel@[i] == old(self).tims_panel@[i],
    {
        self.tims_panel.set(42, 0);
        self.tims_panel.set(43, 0);
        self.tims_panel.set(44, 0);
        self.tims_panel.set(45, 0);
        match self.atc_status {
            AtcStatus::Hisetsu => self.tims_panel.set(42, 1),
            AtcStatus::Irekae => self.tims_panel.set(43, 1),
            AtcStatus::ATC => self.tims_panel.set(44, 1),
            AtcStatus::ATO => self.tims_panel.set(45, 1),
        }
    }

    /// Plays the announcement chosen and, once, the emergency-brake alarm.
    fn elapse_emg_sound(&mut self, sound: &mut [i32])
        requires
            old(sound)@.len() > 106,
        ensures
            final(sound)@.len() == old(sound)@.len(),
            forall|i: int| 101 <= i <= 105 ==> final(sound)@[i] == if broadcast_slot(old(self).emg_sound) == Some(i) {
                sound_code(AtsSound::Play)
            } else {
                sound_code(AtsSound::Continue)
            },
            final(sound)@[106] == if old(self).is_emg_brake_sound {
                sound_code(AtsSound::Play)
            } else {
                sound_code(AtsSound::Continue)
            },
            forall|i: int| 0 <= i < old(sound)@.len() && !(101 <= i <= 106) ==> final(sound)@[i] == old(sound)@[i],
            *final(self) == (ULineATC { is_emg_brake_sound: false, ..*old(self) }),
    {
        let cont = AtsSound::Continue.code();
        let play = AtsSound::Play.code();
        sound[101] = cont;
        sound[102] = cont;
        sound[103] = cont;
        sound[104] = cont;
        sound[105] = cont;
        match self.emg_sound {
            EmgSound::SignalWait => sound[101] = play,
            EmgSound::EmergencyCase => sound[102] = play,
            EmgSound::EmergencyStop => sound[103] = play,
            EmgSound::SeatExchange => sound[104] = play,
            EmgSound::EmergencyBrake => sound[105] = play,
            EmgSound::Silent => {},
        }
        if self.is_emg_brake_sound {
            sound[106] = play;
            self.is_emg_brake_sound = false;
        } else {
            sound[106] = cont;
        }
    }

    /// Lights the lamp of the current signal.
    fn draw_signal_lamps(&mut self)
        requires
            old(self).valid(),
        ensures
            final(self).valid(),
            *final(self) == (ULineATC { tims_panel: final(self).tims_panel, ..*old(self) }),
            forall|i: int| 31 <= i <= 38 ==> final(self).tims_panel@[i] == if signal_lamp(old(self).now_signal) == Some(i) { 1int } else { 0int },
            forall|i: int| 0 <= i < PANEL_SIZE && !(31 <= i <= 38) ==> final(self).tims_panel@[i] == old(self).tims_panel@[i],
    {
        let mut i: usize = 31;
        while i <= 38
            invariant
                31 <= i <= 39,
                self.tims_panel@.len() == PANEL_SIZE,
                *self == (ULineATC { tims_panel: self.tims_panel, ..*old(self) }),
                forall|j: int| 31 <= j < i ==> self.tims_panel@[j] == 0,
                forall|j: int| 0 <= j < PANEL_SIZE && !(31 <= j < i) ==> self.tims_panel@[j] == old(self).tims_panel@[j],
            decreases 39 - i,
        {
            self.tims_panel.set(i, 0);
            i = i + 1;
        }
        match self.now_signal {
            AtcSignal::Signal02 => self.tims_panel.set(31, 1),
            AtcSignal::Signal01 => self.tims_panel.set(32, 1),
            AtcSignal::Signal15 => self.tims_panel.set(33, 1),
            AtcSignal::Signal25 => self.tims_panel.set(34, 1),
            AtcSignal::Signal45 => self.tims_panel.set(35, 1),
            AtcSignal::Signal60 => self.tims_panel.set(36, 1),
            AtcSignal::Signal75 => self.tims_panel.set(37, 1),
            AtcSignal::Signal90 => self.tims_panel.set(38, 1),
            _ => {},
        }
    }

    /// Draws the driver's notches, the override lamps and the control lamps.
    fn draw_state_lamps(&mut self)
        requires
            old(self).valid(),
        ensures
            final(self).valid(),
            *final(self) == (ULineATC { tims_panel: final(self).tims_panel, ..*old(self) }),
            final(self).tims_panel@ == old(self).tims_panel@
                .update(9, (if old(self).man_power + 3 <= 7 { old(self).man_power + 3 } else { 7 }) as i32)
                .update(10, (if old(self).man_brake <= 8 { old(self).man_brake as int } else { 8 }) as i32)
                .update(40, flag(old(self).non_service_armed) as i32)
                .update(41, flag(old(self).confirmation_armed) as i32)
                .update(19, flag(old(self).is_constant_control) as i32)
                .update(20, flag(old(self).is_holding_control) as i32)
                .update(46, flag(old(self).atc_disable) as i32),
    {
        let p: i64 = self.man_power as i64 + 3;
        self.tims_panel.set(9, if p <= 7 { p as i32 } else { 7 });
        self.tims_panel.set(10, if self.man_brake <= 8 { self.man_brake } else { 8 });
        self.tims_panel.set(40, if self.non_service_armed { 1 } else { 0 });
        self.tims_panel.set(41, if self.confirmation_armed { 1 } else { 0 });
        self.tims_panel.set(19, if self.is_constant_control { 1 } else { 0 });
        self.tims_panel.set(20, if self.is_holding_control { 1 } else { 0 });
        self.tims_panel.set(46, if self.atc_disable { 1 } else { 0 });
    }

    /// Draws the unit's state into the display buffer.
    fn elapse_display(&mut self)
        requires
            old(self).valid(),
        ensures
            final(self).valid(),
            *final(self) == (ULineATC { tims_panel: final(self).tims_panel, ..*old(self) }),
    {
        self.draw_signal_lamps();
        self.draw_state_lamps();
    }

    /// Drops a latch whose condition no longer holds.
    fn update_latches(&mut self)
        ensures
            final(self).is_constant_control == (old(self).is_constant_control
                && constant_latch_holds(old(self).man_power as int, old(self).speed as int, old(self).settings.vehicle)),
            final(self).constant_target_speed == if final(self).is_constant_control { old(self).constant_target_speed } else {
                if old(self).is_constant_control { 0 } else { old(self).constant_target_speed }
            },
            final(self).is_holding_control == (old(self).is_holding_control
                && holding_latch_holds(old(self).man_power as int, old(self).speed as int, old(self).settings.vehicle)),
            *final(self) == (ULineATC {
                is_constant_control: final(self).is_constant_control,
                constant_target_speed: final(self).constant_target_speed,
                is_holding_control: final(self).is_holding_control,
                ..*old(self)
            }),
    {
        let v = &self.settings.vehicle;
        if self.is_constant_control
            && !((self.man_power as i64) == (v.input_power_notches as i64) - 1 && self.speed >= v.constant_start_speed) {
            self.is_constant_control = false;
            self.constant_target_speed = 0;
        }
        if self.is_holding_control && !(self.man_power == -1 && self.speed >= self.settings.vehicle.holding_start_speed) {
            self.is_holding_control = false;
        }
    }

    /// Copies the display buffer to the panel once the lag has passed.
    fn copy_panel(&mut self, now: i32, panel: &mut [i32])
        requires
            old(self).valid(),
            old(panel)@.len() >= PANEL_SIZE,
        ensures
            final(self).valid(),
            final(panel)@.len() == old(panel)@.len(),
            ({
                let due = old(self).tims_panel_updated_time as int + PANEL_LAG < now;
                &&& due ==> (forall|i: int| 0 <= i < PANEL_SIZE ==> final(panel)@[i] == old(self).tims_panel@[i])
                &&& due ==> (forall|i: int| PANEL_SIZE <= i < old(panel)@.len() ==> final(panel)@[i] == old(panel)@[i])
                &&& !due ==> final(panel)@ == old(panel)@
                &&& *final(self) == (ULineATC {
                    tims_panel_updated_time: if due { now } else { old(self).tims_panel_updated_time },
                    ..*old(self)
                })
            }),
    {
        if (self.tims_panel_updated_time as i64) + (PANEL_LAG as i64) < now as i64 {
            self.tims_panel_updated_time = now;
            let mut i: usize = 0;
            while i < PANEL_SIZE
                invariant
                    0 <= i <= PANEL_SIZE,
                    panel@.len() == old(panel)@.len(),
                    old(panel)@.len() >= PANEL_SIZE,
                    self.tims_panel@.len() == PANEL_SIZE,
                    *self == (ULineATC { tims_panel_updated_time: now, ..*old(self) }),
                    forall|j: int| 0 <= j < i ==> panel@[j] == self.tims_panel@[j],
                    forall|j: int| i <= j < panel@.len() ==> panel@[j] == old(panel)@[j],
                decreases PANEL_SIZE - i,
            {
                panel[i] = self.tims_panel[i];
                i = i + 1;
            }
        }
    }
}

/// What one tick of the unit does: from `pre` to `post` with sound slots
/// `pre_sound` to `post_sound`, commanding `r`.
pub open spec fn atc_tick_post(
    pre: ULineATC,
    post: ULineATC,
    state: AtsVehicleState,
    r: AtsHandles,
    pre_sound: Seq<i32>,
    post_sound: Seq<i32>,
) -> bool {
    &&& (post.valid())
    &&& (post_sound.len() == pre_sound.len())
    &&& (post.time == state.time)
    &&& (post.speed == state.speed)
    &&& (post.before_time == state.time)
    &&& (post.before_speed == state.speed)
    &&& (post.settings == pre.settings)
    &&& (post.atc_status == pre.atc_status)
    &&& (post.now_signal == pre.now_signal)
    &&& (post.man_power == pre.man_power)
    &&& (post.man_brake == pre.man_brake)
    &&& (post.is_constant_control == (pre.is_constant_control
                && constant_latch_holds(pre.man_power as int, state.speed as int, pre.settings.vehicle)))
    &&& (post.is_holding_control == (pre.is_holding_control
                && holding_latch_holds(pre.man_power as int, state.speed as int, pre.settings.vehicle)))
    &&& (pre.atc_status == AtcStatus::ATO || pre.atc_status == AtcStatus::ATC ==> {
                let (st, ns, cf) = brake_step(
                    rewound(pre.atc_brake_status, state.time as int),
                    pre.now_signal,
                    state.speed as int,
                    state.time as int,
                    pre.settings.atc,
                    pre.non_service_armed,
                    pre.confirmation_armed,
                );
                &&& post.atc_brake_status == st
                &&& post.non_service_armed == ns
                &&& post.confirmation_armed == cf
                &&& post_sound[3] == if st == AtcBrakeStatus::Passing {
                    sound_code(AtsSound::Stop)
                } else {
                    sound_code(AtsSound::PlayLooping)
                }
            })
    &&& (pre.atc_status == AtcStatus::Irekae || pre.atc_status == AtcStatus::Hisetsu ==> {
                &&& post.atc_brake_status == rewound(pre.atc_brake_status, state.time as int)
                &&& post.non_service_armed == pre.non_service_armed
                &&& post.confirmation_armed == pre.confirmation_armed
            })
    &&& (r == enforced(
                pre.atc_status,
                post.atc_brake_status,
                pre.control_spec(post, state.speed as int),
                pre.now_signal,
                state.speed as int,
                pre.settings,
            ))
    &&& (post_sound[2] == if pre.is_changing_signal {
                sound_code(AtsSound::Play)
            } else {
                sound_code(AtsSound::Continue)
            })
    &&& (!post.is_changing_signal)
    &&& (pre.atc_status != AtcStatus::ATO ==> post.ato == pre.ato)
    &&& (pre.atc_status == AtcStatus::ATO ==> ato_tick_post(pre.ato, post.ato, state, post.ato.before_ato_notch))
    &&& (pre.atc_status == AtcStatus::ATO || !post.is_constant_control ==> post.regulator == pre.regulator)
    &&& (pre.atc_status != AtcStatus::ATO && post.is_constant_control ==> post.regulator == regulate_spec(
                pre.regulator,
                pre.constant_target_speed as int,
                state.speed as int,
                acceleration_spec(pre.before_speed as int, state.speed as int, pre.before_time as int, state.time as int),
                state.time as int,
                pre.settings.vehicle,
            ))
    &&& (handles_in_range(r, pre.settings.vehicle))
    &&& (-1 <= pre.man_reverser <= 1 ==> -1 <= r.reverser <= 1)
    &&& (({
                let t0 = if pre.time > state.time { 0 } else { pre.door_close_time };
                let chime = door_chimes(pre.wait_door_close_security, t0, state.time);
                &&& post_sound[20] == if chime { sound_code(AtsSound::Play) } else { sound_code(AtsSound::Continue) }
                &&& post.wait_door_close_security == (pre.wait_door_close_security && !chime)
            }))
}

impl ULineATC {
    /// Start of a tick: timers reset on a rewind, the new sample, the mode
    /// lamp, the announcements and the latches.
    #[verifier::rlimit(50)]
    fn begin_tick(&mut self, state: AtsVehicleState, sound: &mut [i32])
        requires
            old(self).valid(),
            old(sound)@.len() >= SOUND_SIZE,
        ensures
            final(self).valid(),
            final(sound)@.len() == old(sound)@.len(),
            final(self).time == state.time,
            final(self).speed == state.speed,
            final(self).is_constant_control == (old(self).is_constant_control
                && constant_latch_holds(old(self).man_power as int, state.speed as int, old(self).settings.vehicle)),
            final(self).constant_target_speed == if final(self).is_constant_control { old(self).constant_target_speed } else {
                if old(self).is_constant_control { 0 } else { old(self).constant_target_speed }
            },
            final(self).is_holding_control == (old(self).is_holding_control
                && holding_latch_holds(old(self).man_power as int, state.speed as int, old(self).settings.vehicle)),
            final(self).settings == old(self).settings,
            final(self).atc_status == old(self).atc_status,
            final(self).now_signal == old(self).now_signal,
            final(self).man_power == old(self).man_power,
            final(self).man_brake == old(self).man_brake,
            final(self).man_reverser == old(self).man_reverser,
            final(self).atc_brake_status == rewound(old(self).atc_brake_status, state.time as int),
            final(self).non_service_armed == old(self).non_service_armed,
            final(self).confirmation_armed == old(self).confirmation_armed,
            final(self).is_changing_signal == old(self).is_changing_signal,
            final(self).before_time == old(self).before_time,
            final(self).before_speed == old(self).before_speed,
            final(self).regulator == old(self).regulator,
            final(self).ato == old(self).ato,
            final(self).wait_door_close_security == old(self).wait_door_close_security,
            final(self).door_close_time == if old(self).time > state.time { 0 } else { old(self).door_close_time },
    {
        if let AtcBrakeStatus::HalfBraking(t) = self.atc_brake_status {
            if state.time < t {
                self.atc_brake_status = AtcBrakeStatus::HalfBraking(state.time);
            }
        }
        if self.time > state.time {
            self.tims_panel_updated_time = 0;
            self.tims.out_of_service_sound_time = 0;
            self.door_close_time = 0;
        }
        self.time = state.time;
        self.speed = state.speed;
        self.show_atc_status();
        self.elapse_emg_sound(sound);
        self.update_latches();
    }

    /// The handles of a tick before enforcement, in their ranges.
    fn control_handles(&mut self, state: AtsVehicleState) -> (c: AtsHandles)
        requires
            old(self).valid(),
            old(self).speed == state.speed,
            old(self).time == state.time,
        ensures
            final(self).valid(),
            c == old(self).control_spec(*final(self), state.speed as int),
            *final(self) == (ULineATC { ato: final(self).ato, regulator: final(self).regulator, ..*old(self) }),
            old(self).atc_status != AtcStatus::ATO ==> final(self).ato == old(self).ato,
            old(self).atc_status == AtcStatus::ATO ==> ato_tick_post(old(self).ato, final(self).ato, state, final(self).ato.before_ato_notch),
            old(self).atc_status == AtcStatus::ATO || !old(self).is_constant_control ==> final(self).regulator == old(self).regulator,
            old(self).atc_status != AtcStatus::ATO && old(self).is_constant_control ==> final(self).regulator == regulate_spec(
                old(self).regulator,
                old(self).constant_target_speed as int,
                state.speed as int,
                acceleration_spec(old(self).before_speed as int, state.speed as int, old(self).before_time as int, state.time as int),
                state.time as int,
                old(self).settings.vehicle,
            ),
            handles_in_range(c, old(self).settings.vehicle),
            -1 <= old(self).man_reverser <= 1 ==> -1 <= c.reverser <= 1,
    {
        if self.atc_status == AtcStatus::ATO {
            let h = self.ato.tick(state);
            self.ato_default_handles(h)
        } else {
            let base = self.manual_default_handles();
            let air = is_air_holding_speed(self, self.speed, self.man_power);
            let c = self.is_constant_control;
            let hd = self.is_holding_control;
            constant_and_holding_speed(self, base, c, hd, air)
        }
    }

    /// The commanded handles of a tick: the mode's control handles under
    /// the mode's enforcement.
    fn command(&mut self, state: AtsVehicleState, sound: &mut [i32]) -> (r: AtsHandles)
        requires
            old(self).valid(),
            old(sound)@.len() >= SOUND_SIZE,
            old(self).speed == state.speed,
            old(self).time == state.time,
        ensures
            final(self).valid(),
            final(sound)@.len() == old(sound)@.len(),
            forall|i: int| 0 <= i < old(sound)@.len() && i != 3 ==> final(sound)@[i] == old(sound)@[i],
            old(self).atc_status == AtcStatus::ATO || old(self).atc_status == AtcStatus::ATC ==> {
                let (st, ns, cf) = brake_step(
                    old(self).atc_brake_status,
                    old(self).now_signal,
                    state.speed as int,
                    state.time as int,
                    old(self).settings.atc,
                    old(self).non_service_armed,
                    old(self).confirmation_armed,
                );
                &&& final(self).atc_brake_status == st
                &&& final(self).non_service_armed == ns
                &&& final(self).confirmation_armed == cf
                &&& final(sound)@[3] == if st == AtcBrakeStatus::Passing {
                    sound_code(AtsSound::Stop)
                } else {
                    sound_code(AtsSound::PlayLooping)
                }
            },
            old(self).atc_status == AtcStatus::Irekae || old(self).atc_status == AtcStatus::Hisetsu ==> {
                &&& final(self).atc_brake_status == old(self).atc_brake_status
                &&& final(self).non_service_armed == old(self).non_service_armed
                &&& final(self).confirmation_armed == old(self).confirmation_armed
                &&& final(sound)@ == old(sound)@
            },
            r == enforced(
                old(self).atc_status,
                final(self).atc_brake_status,
                old(self).control_spec(*final(self), state.speed as int),
                old(self).now_signal,
                state.speed as int,
                old(self).settings,
            ),
            final(self).settings == old(self).settings,
            final(self).atc_status == old(self).atc_status,
            final(self).now_signal == old(self).now_signal,
            final(self).man_power == old(self).man_power,
            final(self).man_brake == old(self).man_brake,
            final(self).is_constant_control == old(self).is_constant_control,
            final(self).is_holding_control == old(self).is_holding_control,
            final(self).constant_target_speed == old(self).constant_target_speed,
            final(self).is_changing_signal == old(self).is_changing_signal,
            final(self).time == old(self).time,
            final(self).speed == old(self).speed,
            final(self).before_time == old(self).before_time,
            final(self).before_speed == old(self).before_speed,
            final(self).wait_door_close_security == old(self).wait_door_close_security,
            final(self).door_close_time == old(self).door_close_time,
            old(self).atc_status != AtcStatus::ATO ==> final(self).ato == old(self).ato,
            old(self).atc_status == AtcStatus::ATO ==> ato_tick_post(old(self).ato, final(self).ato, state, final(self).ato.before_ato_notch),
            old(self).atc_status == AtcStatus::ATO || !old(self).is_constant_control ==> final(self).regulator == old(self).regulator,
            old(self).atc_status != AtcStatus::ATO && old(self).is_constant_control ==> final(self).regulator == regulate_spec(
                old(self).regulator,
                old(self).constant_target_speed as int,
                state.speed as int,
                acceleration_spec(old(self).before_speed as int, state.speed as int, old(self).before_time as int, state.time as int),
                state.time as int,
                old(self).settings.vehicle,
            ),
            handles_in_range(r, old(self).settings.vehicle),
            -1 <= old(self).man_reverser <= 1 ==> -1 <= r.reverser <= 1,
    {
        let control = self.control_handles(state);
        match self.atc_status {
            AtcStatus::ATO => elapse_atc_brake(self, control, state, sound),
            AtcStatus::ATC => elapse_atc_brake(self, control, state, sound),
            AtcStatus::Irekae => shunting_brake(
                self.now_signal,
                state.speed,
                self.settings.atc.shunting_cap_speed,
                control,
                self.settings.vehicle.output_brake_notches,
            ),
            AtcStatus::Hisetsu => elapse_hisetsu_brake(self, control),
        }
    }

    /// End of a tick: the signal chime, the door-interlock chime, the
    /// display, and the new previous sample.
    fn finish_tick(&mut self, state: AtsVehicleState, panel: &mut [i32], sound: &mut [i32])
        requires
            old(self).valid(),
            old(panel)@.len() >= PANEL_SIZE,
            old(sound)@.len() >= SOUND_SIZE,
        ensures
            final(self).valid(),
            final(panel)@.len() == old(panel)@.len(),
            final(sound)@.len() == old(sound)@.len(),
            final(sound)@[3] == old(sound)@[3],
            final(sound)@[2] == if old(self).is_changing_signal {
                sound_code(AtsSound::Play)
            } else {
                sound_code(AtsSound::Continue)
            },
            !final(self).is_changing_signal,
            door_chimes(old(self).wait_door_close_security, old(self).door_close_time, state.time)
                ==> final(sound)@[20] == sound_code(AtsSound::Play) && !final(self).wait_door_close_security,
            !door_chimes(old(self).wait_door_close_security, old(self).door_close_time, state.time)
                ==> final(sound)@[20] == sound_code(AtsSound::Continue)
                && final(self).wait_door_close_security == old(self).wait_door_close_security,
            final(self).before_time == state.time,
            final(self).before_speed == state.speed,
            final(self).settings == old(self).settings,
            final(self).atc_status == old(self).atc_status,
            final(self).now_signal == old(self).now_signal,
            final(self).man_power == old(self).man_power,
            final(self).man_brake == old(self).man_brake,
            final(self).is_constant_control == old(self).is_constant_control,
            final(self).is_holding_control == old(self).is_holding_control,
            final(self).constant_target_speed == old(self).constant_target_speed,
            final(self).atc_brake_status == old(self).atc_brake_status,
            final(self).non_service_armed == old(self).non_service_armed,
            final(self).confirmation_armed == old(self).confirmation_armed,
            final(self).time == old(self).time,
            final(self).speed == old(self).speed,
            final(self).regulator == old(self).regulator,
            final(self).ato == old(self).ato,
    {
        if self.is_changing_signal {
            sound[2] = AtsSound::Play.code();
            self.is_changing_signal = false;
        } else {
            sound[2] = AtsSound::Continue.code();
        }
        if self.wait_door_close_security && self.door_close_time == 0 {
            self.door_close_time = state.time;
        }
        if self.wait_door_close_security && (self.door_close_time as i64) + (DOOR_CHIME_DELAY as i64) < state.time as i64 {
            self.wait_door_close_security = false;
            self.door_close_time = 0;
            sound[20] = AtsSound::Play.code();
        } else {
            sound[20] = AtsSound::Continue.code();
        }
        self.elapse_display();
        self.tims.elapse(state, self.tims_panel.as_mut_slice(), sound);
        self.copy_panel(state.time, panel);
        self.before_time = state.time;
        self.before_speed = state.speed;
    }
}

impl ULineATC {
    /// The handles before enforcement: the ATO's command with the driver's
    /// brake in automatic mode, else the driver's handles under the latches.
    pub open spec fn control_spec(&self, fin: ULineATC, speed: int) -> AtsHandles {
        let v = self.settings.vehicle;
        if self.atc_status == AtcStatus::ATO {
            ato_handles(fin.ato.before_ato_notch, self.man_brake as int, v)
        } else {
            constant_holding_spec(
                manual_handles(self.man_power as int, self.man_brake as int, self.man_reverser, v),
                fin.is_constant_control,
                fin.is_holding_control,
                speed < v.holding_start_speed && self.man_power < 0,
                regulated_handles(
                    fin.regulator,
                    fin.constant_target_speed as int,
                    speed,
                    acceleration_spec(self.before_speed as int, speed, self.before_time as int, fin.time as int),
                    v,
                ),
                v,
            )
        }
    }

    /// One tick of the unit: display and announcements, the control
    /// handles of the mode, enforcement, chimes, and the display copy.
    pub fn tick(&mut self, state: AtsVehicleState, panel: &mut [i32], sound: &mut [i32]) -> (r: AtsHandles)
        requires
            old(self).valid(),
            old(panel)@.len() >= PANEL_SIZE,
            old(sound)@.len() >= SOUND_SIZE,
        ensures
            final(panel)@.len() == old(panel)@.len(),
            atc_tick_post(*old(self), *final(self), state, r, old(sound)@, final(sound)@),
    {
        self.begin_tick(state, sound);
        let r = self.command(state, sound);
        self.finish_tick(state, panel, sound);
        r
    }
}

/// The held-key record of a broadcast key pressed at `t`.
pub open spec fn keydown_of(k: AtsKey, t: i32) -> EmgSoundKeyDown {
    match k {
        AtsKey::H => EmgSoundKeyDown::H(t),
        AtsKey::I => EmgSoundKeyDown::I(t),
        AtsKey::J => EmgSoundKeyDown::J(t),
        AtsKey::K => EmgSoundKeyDown::K(t),
        _ => EmgSoundKeyDown::L(t),
    }
}

fn keydown_exec(k: AtsKey, t: i32) -> (r: EmgSoundKeyDown)
    ensures
        r == keydown_of(k, t),
{
    match k {
        AtsKey::H => EmgSoundKeyDown::H(t),
        AtsKey::I => EmgSoundKeyDown::I(t),
        AtsKey::J => EmgSoundKeyDown::J(t),
        AtsKey::K => EmgSoundKeyDown::K(t),
        _ => EmgSoundKeyDown::L(t),
    }
}

fn broadcast_exec(k: AtsKey) -> (r: EmgSound)
    ensures
        r == broadcast_of(k),
{
    match k {
        AtsKey::H => EmgSound::SignalWait,
        AtsKey::I => EmgSound::EmergencyCase,
        AtsKey::J => EmgSound::EmergencyStop,
        AtsKey::K => EmgSound::SeatExchange,
        AtsKey::L => EmgSound::EmergencyBrake,
        _ => EmgSound::Silent,
    }
}

fn held_since_exec(kd: EmgSoundKeyDown, k: AtsKey) -> (r: Option<i32>)
    ensures
        r == held_since(kd, k),
{
    match (kd, k) {
        (EmgSoundKeyDown::H(t), AtsKey::H) => Some(t),
        (EmgSoundKeyDown::I(t), AtsKey::I) => Some(t),
        (EmgSoundKeyDown::J(t), AtsKey::J) => Some(t),
        (EmgSoundKeyDown::K(t), AtsKey::K) => Some(t),
        (EmgSoundKeyDown::L(t), AtsKey::L) => Some(t),
        _ => None,
    }
}

/// A broadcast key held down: the first press records the time; once held
/// for longer than the hold time its announcement starts; a press of
/// another broadcast key restarts the record with that key.
pub open spec fn press_spec(kd: EmgSoundKeyDown, e: EmgSound, k: AtsKey, now: i32) -> (EmgSoundKeyDown, EmgSound) {
    let kd1 = if kd == EmgSoundKeyDown::Released { keydown_of(k, now) } else { kd };
    match held_since(kd1, k) {
        Some(t) => (kd1, if now - t > BROADCAST_HOLD { broadcast_of(k) } else { e }),
        None => (keydown_of(k, now), e),
    }
}

impl ULineATC {
    fn press_broadcast(&mut self, key: AtsKey)
        ensures
            (final(self).emg_sound_keydown, final(self).emg_sound)
                == press_spec(old(self).emg_sound_keydown, old(self).emg_sound, key, old(self).time),
            *final(self) == (ULineATC {
                emg_sound_keydown: final(self).emg_sound_keydown,
                emg_sound: final(self).emg_sound,
                ..*old(self)
            }),
    {
        if self.emg_sound_keydown == EmgSoundKeyDown::Released {
            self.emg_sound_keydown = keydown_exec(key, self.time);
        }
        match held_since_exec(self.emg_sound_keydown, key) {
            Some(t) => {
                if (self.time as i64) - (t as i64) > BROADCAST_HOLD as i64 {
                    self.emg_sound = broadcast_exec(key);
                }
            },
            None => {
                self.emg_sound_keydown = keydown_exec(key, self.time);
            },
        }
    }

    /// The unit's own part of a key press.
    #[verifier::rlimit(50)]
    fn operator_key(&mut self, key: AtsKey)
        requires
            old(self).valid(),
        ensures
            *final(self) == (ULineATC {
                non_service_armed: final(self).non_service_armed,
                confirmation_armed: final(self).confirmation_armed,
                atc_status: final(self).atc_status,
                emg_sound_keydown: final(self).emg_sound_keydown,
                emg_sound: final(self).emg_sound,
                ato: final(self).ato,
                ..*old(self)
            }),
            final(self).ato == old(self).ato,
            final(self).valid(),
            key == AtsKey::D ==> final(self).non_service_armed && !final(self).confirmation_armed,
            key == AtsKey::E ==> final(self).confirmation_armed && !final(self).non_service_armed,
            key != AtsKey::D && key != AtsKey::E ==> {
                &&& final(self).non_service_armed == old(self).non_service_armed
                &&& final(self).confirmation_armed == old(self).confirmation_armed
            },
            final(self).atc_status == if key == AtsKey::C1 {
                status_left(old(self).atc_status)
            } else if key == AtsKey::C2 {
                status_right(old(self).atc_status)
            } else {
                old(self).atc_status
            },
            is_broadcast_key(key) ==> (final(self).emg_sound_keydown, final(self).emg_sound)
                == press_spec(old(self).emg_sound_keydown, old(self).emg_sound, key, old(self).time),
            final(self).settings == old(self).settings,
            final(self).now_signal == old(self).now_signal,
            final(self).atc_brake_status == old(self).atc_brake_status,
    {
        match key {
            AtsKey::D => {
                self.confirmation_armed = false;
                self.non_service_armed = true;
            },
            AtsKey::E => {
                self.confirmation_armed = true;
                self.non_service_armed = false;
            },
            AtsKey::C1 => {
                self.atc_status = self.atc_status.get_left_status();
            },
            AtsKey::C2 => {
                self.atc_status = self.atc_status.get_right_status();
            },
            AtsKey::H | AtsKey::I | AtsKey::J | AtsKey::K | AtsKey::L => {
                self.press_broadcast(key);
            },
            _ => {},
        }
    }

    /// A key press: arming an override (each disarms the other), turning the
    /// mode switch, a broadcast key, or the ATO's start key.
    pub fn press_key(&mut self, key: AtsKey)
        requires
            old(self).valid(),
        ensures
            *final(self) == (ULineATC {
                non_service_armed: final(self).non_service_armed,
                confirmation_armed: final(self).confirmation_armed,
                atc_status: final(self).atc_status,
                emg_sound_keydown: final(self).emg_sound_keydown,
                emg_sound: final(self).emg_sound,
                ato: final(self).ato,
                ..*old(self)
            }),
            final(self).ato == (ULineATO {
                status: final(self).ato.status,
                now_power: final(self).ato.now_power,
                now_brake: final(self).ato.now_brake,
                ..old(self).ato
            }),
            final(self).valid(),
            key == AtsKey::D ==> final(self).non_service_armed && !final(self).confirmation_armed,
            key == AtsKey::E ==> final(self).confirmation_armed && !final(self).non_service_armed,
            key != AtsKey::D && key != AtsKey::E ==> {
                &&& final(self).non_service_armed == old(self).non_service_armed
                &&& final(self).confirmation_armed == old(self).confirmation_armed
            },
            final(self).atc_status == if key == AtsKey::C1 {
                status_left(old(self).atc_status)
            } else if key == AtsKey::C2 {
                status_right(old(self).atc_status)
            } else {
                old(self).atc_status
            },
            is_broadcast_key(key) ==> (final(self).emg_sound_keydown, final(self).emg_sound)
                == press_spec(old(self).emg_sound_keydown, old(self).emg_sound, key, old(self).time),
            (key == AtsKey::S && old(self).ato.status == crate::uline_ato::AtoState::Stopped && old(self).ato.before_speed == 0)
                ==> final(self).ato.status == crate::uline_ato::AtoState::Departing,
            final(self).settings == old(self).settings,
            final(self).now_signal == old(self).now_signal,
            final(self).atc_brake_status == old(self).atc_brake_status,
    {
        self.operator_key(key);
        self.ato.start_key(key);
    }

    /// A power-notch change: the latches are evaluated on the transition.
    pub fn power_changed(&mut self, notch: i32)
        requires
            old(self).valid(),
        ensures
            *final(self) == (ULineATC {
                man_power: notch,
                is_constant_control: final(self).is_constant_control,
                constant_target_speed: final(self).constant_target_speed,
                is_holding_control: final(self).is_holding_control,
                ..*old(self)
            }),
            final(self).valid(),
            final(self).man_power == notch,
            final(self).is_constant_control
                == constant_arms(old(self).speed as int, old(self).man_power as int, notch as int, old(self).settings.vehicle),
            final(self).constant_target_speed == if final(self).is_constant_control {
                if old(self).constant_target_speed == 0 { old(self).speed } else { old(self).constant_target_speed }
            } else {
                0
            },
            final(self).is_holding_control
                == holding_arms(old(self).speed as int, old(self).man_power as int, notch as int, old(self).settings.vehicle),
            final(self).settings == old(self).settings,
            final(self).atc_status == old(self).atc_status,
            final(self).speed == old(self).speed,
    {
        let speed = self.speed;
        let before = self.man_power;
        self.is_constant_control = is_constant_speed(self, speed, before, notch);
        self.is_holding_control = is_holding_speed(self, speed, before, notch);
        self.man_power = notch;
    }

    /// A brake-notch change; the driver's emergency brake above walking
    /// speed sounds the alarm.
    pub fn brake_changed(&mut self, notch: i32)
        requires
            old(self).valid(),
        ensures
            final(self).valid(),
            final(self).man_brake == notch,
            final(self).is_emg_brake_sound == (old(self).is_emg_brake_sound
                || (notch == old(self).vehicle_spec.brake_notches + 1 && old(self).speed > EMERGENCY_SOUND_SPEED)),
            *final(self) == (ULineATC {
                man_brake: notch,
                is_emg_brake_sound: final(self).is_emg_brake_sound,
                ..*old(self)
            }),
    {
        self.man_brake = notch;
        if (notch as i64) == (self.vehicle_spec.brake_notches as i64) + 1 && self.speed > EMERGENCY_SOUND_SPEED {
            self.is_emg_brake_sound = true;
        }
    }

    /// A signal change; codes outside `0..=7` are ignored.
    pub fn signal_changed(&mut self, signal: i32)
        requires
            old(self).valid(),
        ensures
            0 <= signal <= 7 ==> *final(self) == (ULineATC {
                now_signal: final(self).now_signal,
                is_changing_signal: true,
                ato: ULineATO { signal: final(self).ato.signal, ..old(self).ato },
                ..*old(self)
            }),
            final(self).valid(),
            0 <= signal <= 7 ==> {
                &&& Some(final(self).now_signal) == signal_of_code(signal as int)
                &&& final(self).is_changing_signal
                &&& Some(final(self).ato.signal) == signal_of_code(signal as int)
            },
            !(0 <= signal <= 7) ==> *final(self) == *old(self),
            final(self).settings == old(self).settings,
            final(self).atc_status == old(self).atc_status,
    {
        if 0 <= signal && signal <= 7 {
            match AtcSignal::from_code(signal) {
                Some(sig) => self.now_signal = sig,
                None => {},
            }
            self.is_changing_signal = true;
            self.ato.signal_changed(signal);
        }
    }
}

impl BveAts for ULineATC {
    open spec fn wf(&self) -> bool {
        self.valid()
    }

    fn load(&mut self) {
    }

    fn dispose(&mut self) {
    }

    fn get_plugin_version(&mut self) -> (r: i32)
        ensures
            r == ATS_VERSION,
    {
        ATS_VERSION
    }

    fn set_vehicle_spec(&mut self, spec: AtsVehicleSpec)
        ensures
            *final(self) == (ULineATC { vehicle_spec: spec, ..*old(self) }),
    {
        self.vehicle_spec = spec;
    }

    fn initialize(&mut self, handle: AtsInit) {
    }

    fn elapse(&mut self, state: AtsVehicleState, panel: &mut [i32], sound: &mut [i32]) -> (r: AtsHandles)
        ensures
            atc_tick_post(*old(self), *final(self), state, r, old(sound)@, final(sound)@),
    {
        self.tick(state, panel, sound)
    }

    fn set_power(&mut self, notch: i32)
        ensures
            *final(self) == (ULineATC {
                man_power: notch,
                is_constant_control: final(self).is_constant_control,
                constant_target_speed: final(self).constant_target_speed,
                is_holding_control: final(self).is_holding_control,
                ..*old(self)
            }),
            final(self).valid(),
            final(self).man_power == notch,
            final(self).is_constant_control
                == constant_arms(old(self).speed as int, old(self).man_power as int, notch as int, old(self).settings.vehicle),
            final(self).constant_target_speed == if final(self).is_constant_control {
                if old(self).constant_target_speed == 0 { old(self).speed } else { old(self).constant_target_speed }
            } else {
                0
            },
            final(self).is_holding_control
                == holding_arms(old(self).speed as int, old(self).man_power as int, notch as int, old(self).settings.vehicle),
            final(self).settings == old(self).settings,
            final(self).atc_status == old(self).atc_status,
            final(self).speed == old(self).speed,
    {
        self.power_changed(notch)
    }

    fn set_brake(&mut self, notch: i32)
        ensures
            final(self).valid(),
            final(self).man_brake == notch,
            final(self).is_emg_brake_sound == (old(self).is_emg_brake_sound
                || (notch == old(self).vehicle_spec.brake_notches + 1 && old(self).speed > EMERGENCY_SOUND_SPEED)),
            *final(self) == (ULineATC {
                man_brake: notch,
                is_emg_brake_sound: final(self).is_emg_brake_sound,
                ..*old(self)
            }),
    {
        self.brake_changed(notch)
    }

    fn set_reverser(&mut self, notch: i32)
        ensures
            *final(self) == (ULineATC { man_reverser: notch, ..*old(self) }),
    {
        self.man_reverser = notch;
    }

    fn key_down(&mut self, key: AtsKey)
        ensures
            *final(self) == (ULineATC {
                non_service_armed: final(self).non_service_armed,
                confirmation_armed: final(self).confirmation_armed,
                atc_status: final(self).atc_status,
                emg_sound_keydown: final(self).emg_sound_keydown,
                emg_sound: final(self).emg_sound,
                ato: final(self).ato,
                ..*old(self)
            }),
            final(self).ato == (ULineATO {
                status: final(self).ato.status,
                now_power: final(self).ato.now_power,
                now_brake: final(self).ato.now_brake,
                ..old(self).ato
            }),
            final(self).valid(),
            key == AtsKey::D ==> final(self).non_service_armed && !final(self).confirmation_armed,
            key == AtsKey::E ==> final(self).confirmation_armed && !final(self).non_service_armed,
            key != AtsKey::D && key != AtsKey::E ==> {
                &&& final(self).non_service_armed == old(self).non_service_armed
                &&& final(self).confirmation_armed == old(self).confirmation_armed
            },
            final(self).atc_status == if key == AtsKey::C1 {
                status_left(old(self).atc_status)
            } else if key == AtsKey::C2 {
                status_right(old(self).atc_status)
            } else {
                old(self).atc_status
            },
            is_broadcast_key(key) ==> (final(self).emg_sound_keydown, final(self).emg_sound)
                == press_spec(old(self).emg_sound_keydown, old(self).emg_sound, key, old(self).time),
            (key == AtsKey::S && old(self).ato.status == crate::uline_ato::AtoState::Stopped && old(self).ato.before_speed == 0)
                ==> final(self).ato.status == crate::uline_ato::AtoState::Departing,
            final(self).settings == old(self).settings,
            final(self).now_signal == old(self).now_signal,
            final(self).atc_brake_status == old(self).atc_brake_status,
    {
        self.press_key(key)
    }

    fn key_up(&mut self, key: AtsKey)
        ensures
            is_broadcast_key(key) ==> final(self).emg_sound_keydown == EmgSoundKeyDown::Released,
            *final(self) == (ULineATC { emg_sound_keydown: final(self).emg_sound_keydown, ..*old(self) }),
    {
        match key {
            AtsKey::H | AtsKey::I | AtsKey::J | AtsKey::K | AtsKey::L => {
                self.emg_sound_keydown = EmgSoundKeyDown::Released;
            },
            _ => {},
        }
    }

    fn horn_blow(&mut self, horn_type: AtsHorn) {
    }

    fn door_open(&mut self)
        ensures
            *final(self) == (ULineATC { wait_door_close_security: false, door_close_time: 0, ..*old(self) }),
    {
        self.wait_door_close_security = false;
        self.door_close_time = 0;
    }

    fn door_close(&mut self)
        ensures
            *final(self) == (ULineATC { wait_door_close_security: true, ..*old(self) }),
    {
        self.wait_door_close_security = true;
    }

    fn set_signal(&mut self, signal: i32)
        ensures
            0 <= signal <= 7 ==> *final(self) == (ULineATC {
                now_signal: final(self).now_signal,
                is_changing_signal: true,
                ato: ULineATO { signal: final(self).ato.signal, ..old(self).ato },
                ..*old(self)
            }),
            final(self).valid(),
            0 <= signal <= 7 ==> {
                &&& Some(final(self).now_signal) == signal_of_code(signal as int)
                &&& final(self).is_changing_signal
                &&& Some(final(self).ato.signal) == signal_of_code(signal as int)
            },
            !(0 <= signal <= 7) ==> *final(self) == *old(self),
            final(self).settings == old(self).settings,
            final(self).atc_status == old(self).atc_status,
    {
        self.signal_changed(signal)
    }

    fn set_beacon_data(&mut self, data: AtsBeaconData)
        ensures
            *final(self) == (ULineATC {
                tims: final(self).tims,
                ato: ULineATO { status: final(self).ato.status, ..old(self).ato },
                ..*old(self)
            }),
            final(self).ato.status == crate::uline_ato::beacon_status(
                old(self).ato.status,
                data.beacon_type as int,
                old(self).ato.signal,
                old(self).ato.before_speed as int,
                old(self).ato.settings,
            ),
    {
        self.tims.set_beacon_data(data);
        self.ato.beacon(data);
    }
}

impl Default for ULineATC {
    fn default() -> (r: Self)
        ensures
            r.valid(),
            r.settings == default_settings(),
            r.atc_status == AtcStatus::ATC,
            r.atc_brake_status == AtcBrakeStatus::Passing,
            r.now_signal == AtcSignal::Signal02,
            r.man_power == 0 && r.man_brake == 0 && r.man_reverser == 0,
            !r.is_constant_control && !r.is_holding_control,
            !r.non_service_armed && !r.confirmation_armed,
            r.time == 0 && r.speed == 0,
    {
        ULineATC::new(Settings::default())
    }
}

} // verus!
