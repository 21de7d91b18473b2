//! Tuning constants of the vehicle, the ATC and the ATO, fixed for a run.
use vstd::prelude::*;

verus! {

/// Largest notch count a configuration may give: one below `i32::MAX`, so
/// that the emergency notch, one beyond the service notches, is an `i32`.
pub const MAX_NOTCHES: i32 = 0x7fff_fffe;

/// Vehicle constants. Speeds are in thousandths of km/h, times in ms.
#[derive(Clone, Copy, Debug)]
pub struct VehicleSettings {
    /// Power notches of the driver's controller.
    pub input_power_notches: i32,
    /// Brake notches of the driver's controller.
    pub input_brake_notches: i32,
    /// Power notches of the vehicle.
    pub output_power_notches: i32,
    /// Service brake notches of the vehicle; one more is emergency.
    pub output_brake_notches: i32,
    /// Lowest speed at which constant-speed control can be armed.
    pub constant_start_speed: i32,
    /// Lowest speed at which holding-brake control can be armed.
    pub holding_start_speed: i32,
    /// Shortest time between two notch steps of the speed regulator.
    pub regulation_interval: i32,
    /// Half-width of the regulator's near-target band.
    pub regulation_near_band: i32,
    /// Error beyond which the regulator steps whatever the acceleration.
    pub regulation_far_band: i32,
}

impl Default for VehicleSettings {
    fn default() -> (r: Self)
        ensures
            r.input_power_notches == 4,
            r.input_brake_notches == 7,
            r.output_power_notches == 31,
            r.output_brake_notches == 31,
            r.constant_start_speed == 25_000,
            r.holding_start_speed == 5_000,
            r.regulation_interval == 250,
            r.regulation_near_band == 1_500,
            r.regulation_far_band == 5_000,
    {
        Self {
            input_power_notches: 4,
            input_brake_notches: 7,
            output_power_notches: 31,
            output_brake_notches: 31,
            constant_start_speed: 25_000,
            holding_start_speed: 5_000,
            regulation_interval: 250,
            regulation_near_band: 1_500,
            regulation_far_band: 5_000,
        }
    }
}

/// ATC constants. Speeds are in thousandths of km/h, times in ms.
#[derive(Clone, Copy, Debug)]
pub struct ATCSettings {
    /// Margin above the permitted speed before braking starts.
    pub check_speed_margin: i32,
    /// How long the half brake lasts before full braking.
    pub half_brake_time: i32,
    /// Creep limit of confirmation operation.
    pub confirmation_limit_speed: i32,
    /// Creep limit of non-service operation.
    pub non_service_limit_speed: i32,
    /// Speed cap of the shunting overspeed check.
    pub shunting_cap_speed: i32,
}

impl Default for ATCSettings {
    fn default() -> (r: Self)
        ensures
            r.check_speed_margin == 1_500,
            r.half_brake_time == 900,
            r.confirmation_limit_speed == 15_000,
            r.non_service_limit_speed == 15_000,
            r.shunting_cap_speed == 25_000,
    {
        Self {
            check_speed_margin: 1_500,
            half_brake_time: 900,
            confirmation_limit_speed: 15_000,
            non_service_limit_speed: 15_000,
            shunting_cap_speed: 25_000,
        }
    }
}

/// ATO constants. Speeds are in thousandths of km/h, decelerations in
/// thousandths of km/h per second, times in ms.
#[derive(Clone, Copy, Debug)]
pub struct ATOSettings {
    /// How far below the permitted speed the cruise target lies.
    pub target_speed: i32,
    /// How far below the permitted speed departure hands over to cruising.
    pub departure_margin: i32,
    /// Time between two power steps while departing.
    pub departure_interval: i32,
    /// Coasting ends once the speed is within this margin of the cruise target.
    pub power_off_margin: i32,
    /// Lowest speed at which coasting can start; below it coasting ends.
    pub power_off_lower_limit_speed: i32,
    /// Above this speed the second stopping pattern applies emergency braking.
    pub second_pattern_check_speed: i32,
    /// Above this speed the overspeed guard applies emergency braking.
    pub guard_check_speed: i32,
    /// Longest duration of timed braking.
    pub braking_time: i32,
    /// Time between two brake steps of timed braking.
    pub braking_interval: i32,
    /// Highest brake notch timed braking reaches.
    pub braking_max_notch: i32,
    /// Deceleration of the stopping curve.
    pub tasc_deceleration: i32,
    /// Deceleration of a full-service brake.
    pub tasc_max_deceleration: i32,
    /// The curve brakes once its speed is no more than this above the train's.
    pub tasc_brake_margin: i32,
    /// Above this speed the two-point deceleration formula is used.
    pub tasc_fine_speed: i32,
}

impl Default for ATOSettings {
    fn default() -> (r: Self)
        ensures
            r.target_speed == 3_000,
            r.departure_margin == 5_000,
            r.departure_interval == 200,
            r.power_off_margin == 5_000,
            r.power_off_lower_limit_speed == 35_000,
            r.second_pattern_check_speed == 25_000,
            r.guard_check_speed == 5_000,
            r.braking_time == 8_000,
            r.braking_interval == 200,
            r.braking_max_notch == 23,
            r.tasc_deceleration == 2_300,
            r.tasc_max_deceleration == 3_500,
            r.tasc_brake_margin == 500,
            r.tasc_fine_speed == 5_000,
    {
        Self {
            target_speed: 3_000,
            departure_margin: 5_000,
            departure_interval: 200,
            power_off_margin: 5_000,
            power_off_lower_limit_speed: 35_000,
            second_pattern_check_speed: 25_000,
            guard_check_speed: 5_000,
            braking_time: 8_000,
            braking_interval: 200,
            braking_max_notch: 23,
            tasc_deceleration: 2_300,
            tasc_max_deceleration: 3_500,
            tasc_brake_margin: 500,
            tasc_fine_speed: 5_000,
        }
    }
}

/// Stopping-pattern options.
#[derive(Clone, Copy, Debug)]
pub struct TASCSettings {
    /// Whether the older vehicles' stopping pattern is used.
    pub is_old_pattern: bool,
}

impl Default for TASCSettings {
    fn default() -> (r: Self)
        ensures
            !r.is_old_pattern,
    {
        Self { is_old_pattern: false }
    }
}

/// Train-information display options.
#[derive(Clone, Copy, Debug)]
pub struct TIMSSettings {
    /// Redraw interval of the display.
    pub display_draw_time: i32,
}

impl Default for TIMSSettings {
    fn default() -> (r: Self)
        ensures
            r.display_draw_time == 0,
    {
        Self { display_draw_time: 0 }
    }
}

/// Sound options.
#[derive(Clone, Copy, Debug)]
pub struct SoundSettings {}

impl Default for SoundSettings {
    fn default() -> (r: Self) {
        Self {}
    }
}

/// The whole configuration.
#[derive(Clone, Copy, Debug)]
pub struct Settings {
    pub vehicle: VehicleSettings,
    pub atc: ATCSettings,
    pub ato: ATOSettings,
    pub tasc: TASCSettings,
    pub tims: TIMSSettings,
    pub sound: SoundSettings,
}

/// Why a configuration was refused.
#[derive(Clone, Copy, Debug, PartialEq, Eq, Structural)]
pub enum SettingsError {
    /// A notch count is outside `1..=MAX_NOTCHES`.
    NotchCount,
    /// A deceleration is not positive, or the timed-braking notch cap lies
    /// outside the service notches.
    Braking,
}

pub open spec fn notch_count_ok(n: i32) -> bool {
    1 <= n <= MAX_NOTCHES
}

pub open spec fn notches_ok(v: VehicleSettings) -> bool {
    &&& notch_count_ok(v.input_power_notches)
    &&& notch_count_ok(v.input_brake_notches)
    &&& notch_count_ok(v.output_power_notches)
    &&& notch_count_ok(v.output_brake_notches)
}

pub open spec fn braking_ok(a: ATOSettings) -> bool {
    &&& a.tasc_deceleration > 0
    &&& a.tasc_max_deceleration > 0
    &&& a.braking_max_notch >= 0
}

impl Settings {
    /// A configuration the control loop can run on.
    pub open spec fn valid(&self) -> bool {
        notches_ok(self.vehicle) && braking_ok(self.ato) && self.ato.braking_max_notch <= self.vehicle.output_brake_notches
    }

    /// Checks the configuration before the control loop starts.
    pub fn validate(&self) -> (r: Result<(), SettingsError>)
        ensures
            r is Ok <==> self.valid(),
            !notches_ok(self.vehicle) ==> r == Err::<(), SettingsError>(SettingsError::NotchCount),
            notches_ok(self.vehicle) && !(braking_ok(self.ato) && self.ato.braking_max_notch <= self.vehicle.output_brake_notches)
                ==> r == Err::<(), SettingsError>(SettingsError::Braking),
    {
        let v = &self.vehicle;
        if v.input_power_notches < 1 || v.input_power_notches > MAX_NOTCHES
            || v.input_brake_notches < 1 || v.input_brake_notches > MAX_NOTCHES
            || v.output_power_notches < 1 || v.output_power_notches > MAX_NOTCHES
            || v.output_brake_notches < 1 || v.output_brake_notches > MAX_NOTCHES {
            return Err(SettingsError::NotchCount);
        }
        let a = &self.ato;
        if a.tasc_deceleration <= 0 || a.tasc_max_deceleration <= 0 || a.braking_max_notch < 0
            || a.braking_max_notch > v.output_brake_notches {
            return Err(SettingsError::Braking);
        }
        Ok(())
    }
}

/// The default configuration.
pub open spec fn default_settings() -> Settings {
    Settings {
        vehicle: VehicleSettings {
            input_power_notches: 4,
            input_brake_notches: 7,
            output_power_notches: 31,
            output_brake_notches: 31,
            constant_start_speed: 25_000,
            holding_start_speed: 5_000,
            regulation_interval: 250,
            regulation_near_band: 1_500,
            regulation_far_band: 5_000,
        },
        atc: ATCSettings {
            check_speed_margin: 1_500,
            half_brake_time: 900,
            confirmation_limit_speed: 15_000,
            non_service_limit_speed: 15_000,
            shunting_cap_speed: 25_000,
        },
        ato: ATOSettings {
            target_speed: 3_000,
            departure_margin: 5_000,
            departure_interval: 200,
            power_off_margin: 5_000,
            power_off_lower_limit_speed: 35_000,
            second_pattern_check_speed: 25_000,
            guard_check_speed: 5_000,
            braking_time: 8_000,
            braking_interval: 200,
            braking_max_notch: 23,
            tasc_deceleration: 2_300,
            tasc_max_deceleration: 3_500,
            tasc_brake_margin: 500,
            tasc_fine_speed: 5_000,
        },
        tasc: TASCSettings { is_old_pattern: false },
        tims: TIMSSettings { display_draw_time: 0 },
        sound: SoundSettings {},
    }
}

impl Default for Settings {
    fn default() -> (r: Self)
        ensures
            r == default_settings(),
            r.valid(),
            r.vehicle.input_power_notches == 4,
            r.vehicle.input_brake_notches == 7,
            r.vehicle.output_power_notches == 31,
            r.vehicle.output_brake_notches == 31,
            r.vehicle.constant_start_speed == 25_000,
            r.atc.half_brake_time == 900,
            r.atc.check_speed_margin == 1_500,
            r.ato.target_speed == 3_000,
            r.ato.tasc_deceleration == 2_300,
            r.ato.tasc_max_deceleration == 3_500,
    {
        Self {
            vehicle: VehicleSettings::default(),
            atc: ATCSettings::default(),
            ato: ATOSettings::default(),
            tasc: TASCSettings::default(),
            tims: TIMSSettings::default(),
            sound: SoundSettings::default(),
        }
    }
}

} // verus!
