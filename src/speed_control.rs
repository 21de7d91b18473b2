//! Speed regulation: the banded closed-loop controller that holds a target
//! speed, and the constant-speed and holding-brake latches of manual driving.
use vstd::prelude::*;
use crate::bve::{AtsHandles, CONSTANT_DISABLE, CONSTANT_ENABLE};
use crate::notch::{floor_div, scale, scale_notch};
use crate::uline_atc::{ULineATC, max_int};
use crate::settings::{VehicleSettings, notches_ok};

verus! {

/// Acceleration in thousandths of km/h per second between two samples;
/// zero when the time did not move forward.
pub open spec fn acceleration_spec(prev_speed: int, speed: int, prev_time: int, now: int) -> int {
    if now > prev_time {
        (speed - prev_speed) * 1000 / (now - prev_time)
    } else {
        0
    }
}

/// Acceleration by finite difference of two samples.
pub fn acceleration(prev_speed: i32, speed: i32, prev_time: i32, now: i32) -> (r: i64)
    ensures
        r == acceleration_spec(prev_speed as int, speed as int, prev_time as int, now as int),
        -0x1_0000_0000 * 1000 <= r <= 0x1_0000_0000 * 1000,
{
    if now > prev_time {
        let dv: i64 = (speed as i64) - (prev_speed as i64);
        let dt: i64 = (now as i64) - (prev_time as i64);
        let q = floor_div((dv * 1000) as i128, dt as i128);
        proof {
            let n = dv as int * 1000;
            let d = dt as int;
            vstd::arithmetic::div_mod::lemma_fundamental_div_mod(n, d);
            let q = n / d;
            let m = n % d;
            assert(-0x1_0000_0000 * 1000 <= q <= 0x1_0000_0000 * 1000) by (nonlinear_arith)
                requires
                    n == d * q + m,
                    0 <= m < d,
                    d >= 1,
                    -0x1_0000_0000 * 1000 <= n <= 0x1_0000_0000 * 1000,
            ;
        }
        q as i64
    } else {
        0
    }
}

/// The regulator's notches and the time of its last step.
#[derive(Clone, Copy, Debug, PartialEq, Eq, Structural)]
pub struct SpeedRegulator {
    pub power: i32,
    pub brake: i32,
    pub last_adjust: i32,
}

/// Which way the regulator steps.
pub enum Step {
    Up,
    Down,
    Hold,
}

/// The step of a band: beyond the far band always, in the moderate band
/// only while the acceleration does not already correct the error.
pub open spec fn band_step(error: int, accel: int, near: int, far: int) -> Step {
    if error > far || (error > near && accel <= 0) {
        Step::Up
    } else if error < -far || (error < -near && accel >= 0) {
        Step::Down
    } else {
        Step::Hold
    }
}

pub open spec fn min_int(a: int, b: int) -> int {
    if a <= b { a } else { b }
}

pub open spec fn clamp_int(x: int, lo: int, hi: int) -> int {
    if x < lo { lo } else if x > hi { hi } else { x }
}

/// The regulator after one tick. Its notches are first brought into range
/// (the brake up to the emergency notch it may start from), the brake
/// winning where both are set; its own steps never raise the brake past
/// the service notches. The predicted speed is the speed plus one
/// second of the current acceleration; in the near band both notches drop to
/// zero; otherwise, at most once per interval, a step up releases one brake
/// notch or adds one power notch, and a step down drops one power notch or
/// adds one brake notch.
pub open spec fn regulate_spec(
    reg: SpeedRegulator,
    target: int,
    speed: int,
    accel: int,
    now: int,
    v: VehicleSettings,
) -> SpeedRegulator {
    let error = target - (speed + accel);
    let b = clamp_int(reg.brake as int, 0, v.output_brake_notches + 1);
    let p = if b > 0 { 0 } else { clamp_int(reg.power as int, 0, v.output_power_notches as int) };
    let near = v.regulation_near_band as int;
    if -near <= error <= near {
        SpeedRegulator { power: 0, brake: 0, ..reg }
    } else if now < reg.last_adjust || now - reg.last_adjust >= v.regulation_interval {
        match band_step(error, accel, near, v.regulation_far_band as int) {
            Step::Up => if b > 0 {
                SpeedRegulator { power: p as i32, brake: (b - 1) as i32, last_adjust: now as i32 }
            } else {
                SpeedRegulator {
                    power: min_int(p + 1, v.output_power_notches as int) as i32,
                    brake: b as i32,
                    last_adjust: now as i32,
                }
            },
            Step::Down => if p > 0 {
                SpeedRegulator { power: (p - 1) as i32, brake: b as i32, last_adjust: now as i32 }
            } else {
                SpeedRegulator {
                    power: p as i32,
                    brake: (if b < v.output_brake_notches { b + 1 } else { b }) as i32,
                    last_adjust: now as i32,
                }
            },
            Step::Hold => SpeedRegulator { power: p as i32, brake: b as i32, ..reg },
        }
    } else {
        SpeedRegulator { power: p as i32, brake: b as i32, ..reg }
    }
}

/// The regulator restarted from the notches of a command.
pub open spec fn seeded(reg: SpeedRegulator, last: AtsHandles) -> SpeedRegulator {
    SpeedRegulator { power: last.power, brake: last.brake, ..reg }
}

/// The handles the regulator commands: its notches, forward, and the
/// constant-speed flag raised exactly in the near band.
pub open spec fn regulated_handles(
    reg: SpeedRegulator,
    target: int,
    speed: int,
    accel: int,
    v: VehicleSettings,
) -> AtsHandles {
    let error = target - (speed + accel);
    let near = v.regulation_near_band as int;
    AtsHandles {
        power: reg.power,
        brake: reg.brake,
        reverser: 1,
        constant_speed: if -near <= error <= near { CONSTANT_ENABLE } else { CONSTANT_DISABLE },
    }
}

fn clamp_i32(x: i32, lo: i32, hi: i32) -> (r: i32)
    requires
        lo <= hi,
    ensures
        r == clamp_int(x as int, lo as int, hi as int),
{
    if x < lo { lo } else if x > hi { hi } else { x }
}

impl SpeedRegulator {
    pub open spec fn new_spec() -> SpeedRegulator {
        SpeedRegulator { power: 0, brake: 0, last_adjust: 0 }
    }

    pub fn new() -> (r: Self)
        ensures
            r == SpeedRegulator::new_spec(),
    {
        SpeedRegulator { power: 0, brake: 0, last_adjust: 0 }
    }

    /// One tick of regulation towards `target`.
    pub fn regulate(&mut self, target: i64, speed: i32, accel: i64, now: i32, v: &VehicleSettings) -> (r: AtsHandles)
        requires
            notches_ok(*v),
        ensures
            *final(self) == regulate_spec(*old(self), target as int, speed as int, accel as int, now as int, *v),
            r == regulated_handles(*final(self), target as int, speed as int, accel as int, *v),
            final(self).power == 0 || final(self).brake == 0,
            0 <= r.power <= v.output_power_notches,
            0 <= r.brake <= v.output_brake_notches + 1,
    {
        let error: i128 = (target as i128) - ((speed as i128) + (accel as i128));
        let near = v.regulation_near_band as i128;
        let far = v.regulation_far_band as i128;
        let b = clamp_i32(self.brake, 0, v.output_brake_notches + 1);
        let p = if b > 0 { 0 } else { clamp_i32(self.power, 0, v.output_power_notches) };
        if -near <= error && error <= near {
            self.power = 0;
            self.brake = 0;
            return AtsHandles { power: 0, brake: 0, reverser: 1, constant_speed: CONSTANT_ENABLE };
        }
        self.power = p;
        self.brake = b;
        if now < self.last_adjust || (now as i64) - (self.last_adjust as i64) >= v.regulation_interval as i64 {
            if error > far || (error > near && accel <= 0) {
                if b > 0 {
                    self.brake = b - 1;
                } else {
                    self.power = if p + 1 <= v.output_power_notches { p + 1 } else { v.output_power_notches };
                }
                self.last_adjust = now;
            } else if error < -far || (error < -near && accel >= 0) {
                if p > 0 {
                    self.power = p - 1;
                } else {
                    self.brake = if b < v.output_brake_notches { b + 1 } else { b };
                }
                self.last_adjust = now;
            }
        }
        AtsHandles { power: self.power, brake: self.brake, reverser: 1, constant_speed: CONSTANT_DISABLE }
    }
}

/// Outside the near band a tick of regulation moves at most one of the two
/// notches (once in range, the brake winning), and by at most one step; it
/// never leaves power and brake applied together.
pub proof fn lemma_regulator_single_step(
    reg: SpeedRegulator,
    target: int,
    speed: int,
    accel: int,
    now: int,
    v: VehicleSettings,
)
    requires
        notches_ok(v),
        i32::MIN <= now <= i32::MAX,
        !(-(v.regulation_near_band as int) <= target - (speed + accel) <= v.regulation_near_band as int),
    ensures
        ({
            let b = clamp_int(reg.brake as int, 0, v.output_brake_notches + 1);
            let p = if b > 0 { 0 } else { clamp_int(reg.power as int, 0, v.output_power_notches as int) };
            let next = regulate_spec(reg, target, speed, accel, now, v);
            &&& next.power == p || next.brake == b
            &&& p - 1 <= next.power <= p + 1
            &&& b - 1 <= next.brake <= b + 1
            &&& next.power == 0 || next.brake == 0
        }),
{
}

/// The constant-speed latch arms: speed at least the start speed, and the
/// power notch moved from the top notch to the one below.
pub open spec fn constant_arms(speed: int, before: int, after: int, v: VehicleSettings) -> bool {
    speed >= v.constant_start_speed && before == v.input_power_notches && after == v.input_power_notches - 1
}

/// Whether the constant-speed latch arms on a power-notch change; on arming
/// the current speed becomes the target unless one is held already, and
/// otherwise the target is dropped.
pub fn is_constant_speed(atc: &mut ULineATC, speed: i32, beforeNotch: i32, afterNotch: i32) -> (r: bool)
    ensures
        r == constant_arms(speed as int, beforeNotch as int, afterNotch as int, old(atc).settings.vehicle),
        *final(atc) == (ULineATC {
            constant_target_speed: if r {
                if old(atc).constant_target_speed == 0 { old(atc).speed } else { old(atc).constant_target_speed }
            } else {
                0
            },
            ..*old(atc)
        }),
{
    let v = &atc.settings.vehicle;
    if speed >= v.constant_start_speed && beforeNotch == v.input_power_notches
        && (afterNotch as i64) == (v.input_power_notches as i64) - 1 {
        if atc.constant_target_speed == 0 {
            atc.constant_target_speed = atc.speed;
        }
        true
    } else {
        atc.constant_target_speed = 0;
        false
    }
}

/// The holding-brake latch arms: speed at least the start speed, and the
/// power notch moved from -2 to -1.
pub open spec fn holding_arms(speed: int, before: int, after: int, v: VehicleSettings) -> bool {
    speed >= v.holding_start_speed && before == -2 && after == -1
}

/// Whether the holding-brake latch arms on a power-notch change.
pub fn is_holding_speed(atc: &ULineATC, speed: i32, beforeNotch: i32, afterNotch: i32) -> (r: bool)
    ensures
        r == holding_arms(speed as int, beforeNotch as int, afterNotch as int, atc.settings.vehicle),
{
    speed >= atc.settings.vehicle.holding_start_speed && beforeNotch == -2 && afterNotch == -1
}

/// Air-brake holding: below the holding start speed with a negative power
/// notch.
pub fn is_air_holding_speed(atc: &ULineATC, speed: i32, notch: i32) -> (r: bool)
    ensures
        r == (speed < atc.settings.vehicle.holding_start_speed && notch < 0),
{
    speed < atc.settings.vehicle.holding_start_speed && notch < 0
}

/// A power notch `n` scaled to a brake notch, within the brake range.
pub open spec fn holding_brake(n: int, v: VehicleSettings) -> int {
    clamp_int(scale_notch(n, v.input_brake_notches as int, v.output_brake_notches as int), 0, v.output_brake_notches + 1)
}

/// The handles under the latches: a negative power notch becomes a brake,
/// the stronger of it and the brake already set;
/// constant speed takes the regulator's power, the stronger of the two
/// brakes, and its flag; holding cuts power and raises the flag; else the
/// flag is cleared. Air-brake holding then adds the brake of the power
/// notch's size, cuts power and sets the reverser to neutral.
pub open spec fn constant_holding_spec(
    h: AtsHandles,
    is_constant: bool,
    is_holding: bool,
    is_air: bool,
    reg: AtsHandles,
    v: VehicleSettings,
) -> AtsHandles {
    let h1 = if h.power < 0 {
        AtsHandles { brake: max_int(h.brake as int, holding_brake(-h.power, v)) as i32, power: 0, ..h }
    } else {
        h
    };
    let h2 = if is_constant {
        AtsHandles {
            power: reg.power,
            brake: max_int(reg.brake as int, h1.brake as int) as i32,
            reverser: h1.reverser,
            constant_speed: reg.constant_speed,
        }
    } else if is_holding {
        AtsHandles { constant_speed: CONSTANT_ENABLE, power: 0, ..h1 }
    } else {
        AtsHandles { constant_speed: CONSTANT_DISABLE, ..h1 }
    };
    if is_air {
        let p = if h2.power < 0 { -h2.power } else { h2.power as int };
        AtsHandles {
            brake: max_int(holding_brake(p, v), h2.brake as int) as i32,
            power: 0,
            reverser: 0,
            ..h2
        }
    } else {
        h2
    }
}

fn holding_brake_exec(n: i64, v: &VehicleSettings) -> (r: i32)
    requires
        notches_ok(*v),
        0 <= n <= 0x8000_0000,
    ensures
        r == holding_brake(n as int, *v),
{
    let b = scale(n, v.input_brake_notches, v.output_brake_notches);
    let ob = v.output_brake_notches as i128;
    if b < 0 { 0 } else if b > ob + 1 { (ob + 1) as i32 } else { b as i32 }
}

/// The acceleration of the manual regulator at the unit's last tick.
pub open spec fn atc_acceleration(atc: ULineATC) -> int {
    acceleration_spec(atc.before_speed as int, atc.speed as int, atc.before_time as int, atc.time as int)
}

/// Regulates the manual constant-speed target.
pub fn atc_constant_speed(atc: &mut ULineATC) -> (r: AtsHandles)
    requires
        old(atc).valid(),
    ensures
        *final(atc) == (ULineATC {
            regulator: regulate_spec(
                old(atc).regulator,
                old(atc).constant_target_speed as int,
                old(atc).speed as int,
                atc_acceleration(*old(atc)),
                old(atc).time as int,
                old(atc).settings.vehicle,
            ),
            ..*old(atc)
        }),
        r == regulated_handles(
            final(atc).regulator,
            old(atc).constant_target_speed as int,
            old(atc).speed as int,
            atc_acceleration(*old(atc)),
            old(atc).settings.vehicle,
        ),
{
    let accel = acceleration(atc.before_speed, atc.speed, atc.before_time, atc.time);
    let v = atc.settings.vehicle;
    atc.regulator.regulate(atc.constant_target_speed as i64, atc.speed, accel, atc.time, &v)
}

/// Applies the constant-speed, holding-brake and air-brake holding latches.
pub fn constant_and_holding_speed(
    atc: &mut ULineATC,
    handles: AtsHandles,
    is_constant_speed: bool,
    is_holding_speed: bool,
    is_air_holding_speed: bool,
) -> (r: AtsHandles)
    requires
        old(atc).valid(),
    ensures
        final(atc).regulator == if is_constant_speed {
            regulate_spec(
                old(atc).regulator,
                old(atc).constant_target_speed as int,
                old(atc).speed as int,
                atc_acceleration(*old(atc)),
                old(atc).time as int,
                old(atc).settings.vehicle,
            )
        } else {
            old(atc).regulator
        },
        *final(atc) == (ULineATC { regulator: final(atc).regulator, ..*old(atc) }),
        r == constant_holding_spec(
            handles,
            is_constant_speed,
            is_holding_speed,
            is_air_holding_speed,
            regulated_handles(
                final(atc).regulator,
                old(atc).constant_target_speed as int,
                old(atc).speed as int,
                atc_acceleration(*old(atc)),
                old(atc).settings.vehicle,
            ),
            old(atc).settings.vehicle,
        ),
        (0 <= handles.power <= old(atc).settings.vehicle.output_power_notches
            && 0 <= handles.brake <= old(atc).settings.vehicle.output_brake_notches + 1
            && 0 <= handles.constant_speed <= 2) ==> {
            &&& 0 <= r.power <= old(atc).settings.vehicle.output_power_notches
            &&& 0 <= r.brake <= old(atc).settings.vehicle.output_brake_notches + 1
            &&& 0 <= r.constant_speed <= 2
        },
        r.reverser == handles.reverser || r.reverser == 0,
{
    let v = atc.settings.vehicle;
    let mut h = handles;
    if h.power < 0 {
        let hb = holding_brake_exec(-(h.power as i64), &v);
        h.brake = if hb >= h.brake { hb } else { h.brake };
        h.power = 0;
    }
    if is_constant_speed {
        let reg = atc_constant_speed(atc);
        h = AtsHandles {
            power: reg.power,
            brake: if reg.brake >= h.brake { reg.brake } else { h.brake },
            reverser: h.reverser,
            constant_speed: reg.constant_speed,
        };
    } else if is_holding_speed {
        h.constant_speed = CONSTANT_ENABLE;
        h.power = 0;
    } else {
        h.constant_speed = CONSTANT_DISABLE;
    }
    if is_air_holding_speed {
        let p: i64 = if h.power < 0 { -(h.power as i64) } else { h.power as i64 };
        let b = holding_brake_exec(p, &v);
        h.brake = if b >= h.brake { b } else { h.brake };
        h.power = 0;
        h.reverser = 0;
    }
    h
}

} // verus!
