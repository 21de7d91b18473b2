//! Automatic train operation: departure, cruising, coasting, timed braking
//! and precision stopping.
use vstd::prelude::*;
use crate::atc_signal::{AtcSignal, signal_kmh, signal_lower, signal_of_code};
use crate::bve::{
    AtsBeaconData, AtsHandles, AtsHorn, AtsInit, AtsKey, AtsVehicleSpec, AtsVehicleState, BveAts,
    ATS_VERSION, CONSTANT_DISABLE,
};
use crate::settings::Settings;
use crate::speed_control::{SpeedRegulator, seeded, lemma_regulator_single_step, clamp_int, acceleration, acceleration_spec, regulate_spec, regulated_handles};
use crate::tasc::{TascCommand, tasc_command, tasc_command_spec, tasc_target_speed, curve_speed, MAX_REMAINING};
use crate::timer::Timer;

verus! {

/// Stopping point of the first pattern, beyond its beacon (mm).
pub const FIRST_PATTERN_OFFSET: i64 = 350_500;
/// Stopping point of the second pattern, beyond its beacon (mm).
pub const SECOND_PATTERN_OFFSET: i64 = 25_500;
/// Stopping point of the pattern from 90 km/h, beyond its beacon (mm).
pub const PATTERN90_OFFSET: i64 = 600_500;

/// The precision-stop profiles.
#[derive(Clone, Copy, Debug, PartialEq, Eq, Structural)]
pub enum TascPattern {
    /// From 90 km/h.
    Pattern90,
    /// The first, coarse pattern.
    First,
    /// The second, fine pattern near the stop.
    Second,
    /// Continuation of the second pattern below 1 km/h.
    OverspeedGuard,
}

/// The ATO's state.
#[derive(Clone, Copy, Debug, PartialEq, Eq, Structural)]
pub enum AtoState {
    /// Standing: brake applied, power off, reverser neutral.
    Stopped,
    /// Accelerating from a stop.
    Departing,
    /// Holding the cruise speed.
    Cruising,
    /// Power off until the speed or the signal calls for cruising again; the
    /// signal when coasting began.
    CoastingPowerOff(AtcSignal),
    /// Brake ramp; when it began (unset until the first tick) and the signal
    /// when it was ordered.
    TimedBraking(Option<i32>, AtcSignal),
    /// Braking to a stopping point: the profile, the location of the beacon
    /// (unset until the first tick) and the stopping point's offset from it.
    DistanceBraking(TascPattern, Option<i64>, i64),
}

/// The automatic train operation unit.
pub struct ULineATO {
    pub status: AtoState,
    /// The last command.
    pub before_ato_notch: AtsHandles,
    /// The current signal.
    pub signal: AtcSignal,
    pub now_power: i32,
    pub now_brake: i32,
    /// Time and speed of the previous tick.
    pub before_time: i32,
    pub before_speed: i32,
    pub before_acceleration: i64,
    /// Paces the brake ramp of timed braking.
    pub operation_timer: Timer,
    /// Paces the power ramp of departure.
    pub departure_timer: Timer,
    pub regulator: SpeedRegulator,
    pub settings: Settings,
}

/// Speed (thousandths of km/h) the ATO cruises at under a signal.
pub open spec fn cruise_target(signal: AtcSignal, s: Settings) -> int {
    signal_kmh(signal) * 1000 - s.ato.target_speed
}

/// Coasting ends when the speed drops below the lower limit, the signal
/// rises above the one coasting began under, or the speed comes within the
/// margin of the cruise target.
pub open spec fn coast_ends(since: AtcSignal, signal: AtcSignal, speed: int, s: Settings) -> bool {
    ||| speed < s.ato.power_off_lower_limit_speed
    ||| signal_kmh(since) < signal_kmh(signal)
    ||| speed > cruise_target(signal, s) - s.ato.power_off_margin
}

/// Where a brake ramp counts from at `now`: its start, set at the first
/// tick and restarted when the clock goes back before it.
pub open spec fn ramp_start(start: Option<i32>, now: int) -> int {
    match start {
        None => now,
        Some(t) => if now < t { now } else { t as int },
    }
}

/// Timed braking ends when the speed is below the next-lower signal's, the
/// ramp has lasted longer than its duration, or the signal changed.
pub open spec fn timed_braking_ends(start: int, since: AtcSignal, signal: AtcSignal, speed: int, now: int, s: Settings) -> bool {
    ||| speed < signal_kmh(signal_lower(signal)) * 1000
    ||| now - start > s.ato.braking_time
    ||| since != signal
}

/// The state that distance braking moves to in a tick at `speed`.
pub open spec fn distance_next(kind: TascPattern, anchor: i64, offset: i64, speed: int) -> AtoState {
    match kind {
        TascPattern::Second => if speed < 1000 {
            AtoState::DistanceBraking(TascPattern::OverspeedGuard, Some(anchor), offset)
        } else {
            AtoState::DistanceBraking(kind, Some(anchor), offset)
        },
        TascPattern::OverspeedGuard => if speed == 0 {
            AtoState::Stopped
        } else {
            AtoState::DistanceBraking(kind, Some(anchor), offset)
        },
        _ => AtoState::DistanceBraking(kind, Some(anchor), offset),
    }
}

/// Speed above which a profile brakes with the emergency notch at once.
pub open spec fn guard_speed(kind: TascPattern, s: Settings) -> Option<int> {
    match kind {
        TascPattern::Second => Some(s.ato.second_pattern_check_speed as int),
        TascPattern::OverspeedGuard => Some(s.ato.guard_check_speed as int),
        _ => None,
    }
}

/// The handles of a given power and brake, forward, constant speed off.
pub open spec fn drive(power: int, brake: int) -> AtsHandles {
    AtsHandles { power: power as i32, brake: brake as i32, reverser: 1, constant_speed: CONSTANT_DISABLE }
}

/// One step of a ramp: up by one notch when its timer fires, capped.
pub open spec fn step_up(x: int, fires: bool, max: int) -> int {
    if fires && x < max { x + 1 } else { x }
}

/// The power notch the ATO carries into a tick: cut above the permitted
/// speed.
pub open spec fn old_power_after_check(a: ULineATO, speed: int) -> int {
    if speed > signal_kmh(a.signal) * 1000 { 0 } else { a.now_power as int }
}

/// The regulator after a cruise step from the last command.
pub open spec fn cruise_step(pre: ULineATO, state: AtsVehicleState, accel: int) -> SpeedRegulator {
    regulate_spec(
        seeded(pre.regulator, pre.before_ato_notch),
        cruise_target(pre.signal, pre.settings),
        state.speed as int,
        accel,
        state.time as int,
        pre.settings.vehicle,
    )
}

/// A timer asked at `now`: it keeps its interval and records `now` when it
/// fires.
pub open spec fn timer_asked(pre: Timer, post: Timer, now: int) -> bool {
    &&& post.interval_spec() == pre.interval_spec()
    &&& post.last_spec() == if pre.ready_at(now) { now } else { pre.last_spec() }
}

/// The state a beacon puts the ATO in.
pub open spec fn beacon_status(st: AtoState, beacon_type: int, signal: AtcSignal, speed: int, s: Settings) -> AtoState {
    if beacon_type == 1 {
        AtoState::DistanceBraking(TascPattern::First, None, FIRST_PATTERN_OFFSET)
    } else if beacon_type == 2 {
        AtoState::DistanceBraking(TascPattern::Second, None, SECOND_PATTERN_OFFSET)
    } else if beacon_type == 3 {
        match st {
            AtoState::DistanceBraking(TascPattern::Second, anchor, offset) =>
                AtoState::DistanceBraking(TascPattern::OverspeedGuard, anchor, offset),
            _ => st,
        }
    } else if beacon_type == 4 {
        AtoState::TimedBraking(None, signal)
    } else if beacon_type == 5 {
        if speed < s.ato.power_off_lower_limit_speed { st } else { AtoState::CoastingPowerOff(signal) }
    } else if beacon_type == 6 {
        AtoState::DistanceBraking(TascPattern::Pattern90, None, PATTERN90_OFFSET)
    } else {
        st
    }
}

impl ULineATO {
    pub open spec fn valid(&self) -> bool {
        &&& self.settings.valid()
        &&& (self.regulator.power == 0 || self.regulator.brake == 0)
        &&& 0 <= self.before_ato_notch.constant_speed <= 2
        &&& 0 <= self.before_ato_notch.reverser <= 1
        &&& 0 <= self.before_ato_notch.power <= self.settings.vehicle.output_power_notches
        &&& 0 <= self.before_ato_notch.brake <= self.settings.vehicle.output_brake_notches + 1
        &&& (self.before_ato_notch.power == 0 || self.before_ato_notch.brake == 0)
    }

    pub fn new(settings: Settings) -> (r: Self)
        ensures
            settings.valid() ==> r.valid(),
            r.regulator == SpeedRegulator::new_spec(),
            r.status == AtoState::Stopped,
            r.signal == AtcSignal::Signal02,
            r.settings == settings,
            r.before_time == 0,
            r.before_speed == 0,
    {
        ULineATO {
            status: AtoState::Stopped,
            before_ato_notch: AtsHandles { brake: 0, power: 0, reverser: 0, constant_speed: 0 },
            signal: AtcSignal::Signal02,
            now_power: 0,
            now_brake: 0,
            before_time: 0,
            before_speed: 0,
            before_acceleration: 0,
            operation_timer: Timer::new(settings.ato.braking_interval),
            departure_timer: Timer::new(settings.ato.departure_interval),
            regulator: SpeedRegulator::new(),
            settings,
        }
    }

    /// Regulates the cruise speed of the current signal, stepping from the
    /// last command so that entering cruise moves a notch at a time.
    pub fn ato_constant_speed(&mut self, state: AtsVehicleState, accel: i64) -> (r: AtsHandles)
        requires
            old(self).valid(),
        ensures
            final(self).valid(),
            final(self).regulator == regulate_spec(
                seeded(old(self).regulator, old(self).before_ato_notch),
                cruise_target(old(self).signal, old(self).settings),
                state.speed as int,
                accel as int,
                state.time as int,
                old(self).settings.vehicle,
            ),
            r == regulated_handles(
                final(self).regulator,
                cruise_target(old(self).signal, old(self).settings),
                state.speed as int,
                accel as int,
                old(self).settings.vehicle,
            ),
            *final(self) == (ULineATO {
                regulator: final(self).regulator,
                now_power: r.power,
                now_brake: r.brake,
                ..*old(self)
            }),
            ({
                let last = old(self).before_ato_notch;
                let error = cruise_target(old(self).signal, old(self).settings) - (state.speed + accel);
                let near = old(self).settings.vehicle.regulation_near_band as int;
                !(-near <= error <= near) ==> {
                    &&& r.power == last.power || r.brake == last.brake
                    &&& last.power - 1 <= r.power <= last.power + 1
                    &&& last.brake - 1 <= r.brake <= last.brake + 1
                }
            }),
    {
        proof {
            let error = cruise_target(self.signal, self.settings) - (state.speed + accel);
            let near = self.settings.vehicle.regulation_near_band as int;
            if !(-near <= error <= near) {
                lemma_regulator_single_step(
                    seeded(self.regulator, self.before_ato_notch),
                    cruise_target(self.signal, self.settings),
                    state.speed as int,
                    accel as int,
                    state.time as int,
                    self.settings.vehicle,
                );
            }
        }
        let target = (self.signal.permitted_speed() as i64) - (self.settings.ato.target_speed as i64);
        self.regulator.power = self.before_ato_notch.power;
        self.regulator.brake = self.before_ato_notch.brake;
        let r = self.regulator.regulate(target, state.speed, accel, state.time, &self.settings.vehicle);
        self.now_power = r.power;
        self.now_brake = r.brake;
        r
    }

    /// Speed of the stopping curve at a remaining distance; `None` where the
    /// distance is negative and the curve undefined.
    pub fn ato_tasc_target_speed(&self, remaining_distance: i128) -> (r: Option<i128>)
        requires
            self.valid(),
            remaining_distance <= MAX_REMAINING,
        ensures
            remaining_distance < 0 ==> r is None,
            remaining_distance >= 0 ==> r == Some(
                curve_speed(self.settings.ato.tasc_deceleration as int, remaining_distance as int) as i128,
            ),
    {
        if remaining_distance < 0 {
            None
        } else {
            Some(tasc_target_speed(self.settings.ato.tasc_deceleration, remaining_distance))
        }
    }

    /// Follows the stopping curve with `remaining_distance` mm to go.
    pub fn ato_tasc_with_distance(&mut self, state: AtsVehicleState, accel: i64, remaining_distance: i128) -> (r: AtsHandles)
        requires
            old(self).valid(),
            remaining_distance <= MAX_REMAINING,
        ensures
            final(self).valid(),
            ({
                let cmd = tasc_command_spec(
                    state.speed as int,
                    remaining_distance as int,
                    old(self).settings.vehicle,
                    old(self).settings.ato,
                );
                match cmd {
                    TascCommand::Hold => {
                        &&& r == old(self).before_ato_notch
                        &&& *final(self) == *old(self)
                    },
                    TascCommand::Cruise => {
                        &&& final(self).regulator == cruise_step(*old(self), state, accel as int)
                        &&& r == regulated_handles(
                            final(self).regulator,
                            cruise_target(old(self).signal, old(self).settings),
                            state.speed as int,
                            accel as int,
                            old(self).settings.vehicle,
                        )
                        &&& *final(self) == (ULineATO {
                            regulator: final(self).regulator,
                            now_power: r.power,
                            now_brake: r.brake,
                            ..*old(self)
                        })
                    },
                    TascCommand::Brake(n) => {
                        &&& r == drive(0, n as int)
                        &&& *final(self) == (ULineATO { now_power: 0, now_brake: n, ..*old(self) })
                    },
                }
            }),
            final(self).status == old(self).status,
            final(self).signal == old(self).signal,
            final(self).settings == old(self).settings,
            final(self).before_ato_notch == old(self).before_ato_notch,
            final(self).before_time == old(self).before_time,
            final(self).before_speed == old(self).before_speed,
    {
        match tasc_command(state.speed, remaining_distance, &self.settings.vehicle, &self.settings.ato) {
            TascCommand::Hold => self.before_ato_notch,
            TascCommand::Cruise => self.ato_constant_speed(state, accel),
            TascCommand::Brake(n) => {
                self.now_power = 0;
                self.now_brake = n;
                AtsHandles { power: 0, brake: n, reverser: 1, constant_speed: CONSTANT_DISABLE }
            },
        }
    }

    /// One tick of distance braking.
    fn distance_braking_tick(
        &mut self,
        state: AtsVehicleState,
        accel: i64,
        kind: TascPattern,
        anchor: Option<i64>,
        offset: i64,
    ) -> (r: AtsHandles)
        requires
            old(self).valid(),
        ensures
            final(self).valid(),
            ({
                let a = match anchor { Some(x) => x, None => state.location };
                &&& final(self).status == distance_next(kind, a, offset, state.speed as int)
                &&& final(self).operation_timer == old(self).operation_timer
                &&& final(self).departure_timer == old(self).departure_timer
                &&& match guard_speed(kind, old(self).settings) {
                    Some(g) if state.speed > g => r == drive(0, old(self).settings.vehicle.output_brake_notches + 1)
                        && final(self).regulator == old(self).regulator,
                    _ => ({
                        let remaining = a as int + offset as int - state.location as int;
                        match tasc_command_spec(state.speed as int, remaining, old(self).settings.vehicle, old(self).settings.ato) {
                            TascCommand::Hold => r == old(self).before_ato_notch && final(self).regulator == old(self).regulator,
                            TascCommand::Cruise => final(self).regulator == cruise_step(*old(self), state, accel as int) && r == regulated_handles(
                                final(self).regulator,
                                cruise_target(old(self).signal, old(self).settings),
                                state.speed as int,
                                accel as int,
                                old(self).settings.vehicle,
                            ),
                            TascCommand::Brake(n) => r == drive(0, n as int) && final(self).regulator == old(self).regulator,
                        }
                    }),
                }
            }),
            final(self).signal == old(self).signal,
            final(self).settings == old(self).settings,
            final(self).before_ato_notch == old(self).before_ato_notch,
            final(self).before_time == old(self).before_time,
            final(self).before_speed == old(self).before_speed,
    {
        let a = match anchor {
            Some(x) => x,
            None => state.location,
        };
        let next = match kind {
            TascPattern::Second => if state.speed < 1000 {
                AtoState::DistanceBraking(TascPattern::OverspeedGuard, Some(a), offset)
            } else {
                AtoState::DistanceBraking(kind, Some(a), offset)
            },
            TascPattern::OverspeedGuard => if state.speed == 0 {
                AtoState::Stopped
            } else {
                AtoState::DistanceBraking(kind, Some(a), offset)
            },
            _ => AtoState::DistanceBraking(kind, Some(a), offset),
        };
        let guard: Option<i32> = match kind {
            TascPattern::Second => Some(self.settings.ato.second_pattern_check_speed),
            TascPattern::OverspeedGuard => Some(self.settings.ato.guard_check_speed),
            _ => None,
        };
        let over_guard = match guard {
            Some(g) => state.speed > g,
            None => false,
        };
        let r = if over_guard {
            self.now_power = 0;
            self.now_brake = self.settings.vehicle.output_brake_notches + 1;
            AtsHandles {
                power: 0,
                brake: self.settings.vehicle.output_brake_notches + 1,
                reverser: 1,
                constant_speed: CONSTANT_DISABLE,
            }
        } else {
            let remaining: i128 = (a as i128) + (offset as i128) - (state.location as i128);
            self.ato_tasc_with_distance(state, accel, remaining)
        };
        self.status = next;
        r
    }

    /// One tick of departure: power steps up once per interval with the
    /// brake released, until the speed reaches the permitted speed less the
    /// departure margin, where cruising takes over.
    fn departure_tick(&mut self, state: AtsVehicleState, accel: i64) -> (r: AtsHandles)
        requires
            old(self).valid(),
        ensures
            final(self).valid(),
            final(self).operation_timer == old(self).operation_timer,
            state.speed >= signal_kmh(old(self).signal) * 1000 - old(self).settings.ato.departure_margin ==> {
                &&& final(self).status == AtoState::Cruising
                &&& r == regulated_handles(
                    final(self).regulator,
                    cruise_target(old(self).signal, old(self).settings),
                    state.speed as int,
                    accel as int,
                    old(self).settings.vehicle,
                )
                &&& final(self).regulator == cruise_step(*old(self), state, accel as int)
                &&& final(self).departure_timer == old(self).departure_timer
            },
            state.speed < signal_kmh(old(self).signal) * 1000 - old(self).settings.ato.departure_margin ==> {
                let p = clamp_int(old(self).now_power as int, 0, old(self).settings.vehicle.output_power_notches as int);
                &&& final(self).status == old(self).status
                &&& final(self).regulator == old(self).regulator
                &&& timer_asked(old(self).departure_timer, final(self).departure_timer, state.time as int)
                &&& r == drive(
                    if old(self).departure_timer.ready_at(state.time as int)
                        && p < old(self).settings.vehicle.output_power_notches { p + 1 } else { p },
                    0,
                )
            },
            final(self).signal == old(self).signal,
            final(self).settings == old(self).settings,
            final(self).before_ato_notch == old(self).before_ato_notch,
            final(self).before_time == old(self).before_time,
            final(self).before_speed == old(self).before_speed,
    {
        let limit = (self.signal.permitted_speed() as i64) - (self.settings.ato.departure_margin as i64);
        if (state.speed as i64) >= limit {
            self.status = AtoState::Cruising;
            return self.ato_constant_speed(state, accel);
        }
        let max_power = self.settings.vehicle.output_power_notches;
        let mut p = if self.now_power < 0 { 0 } else if self.now_power > max_power { max_power } else { self.now_power };
        if self.departure_timer.is_ready(state.time) && p < max_power {
            p = p + 1;
        }
        self.now_power = p;
        self.now_brake = 0;
        AtsHandles { power: p, brake: 0, reverser: 1, constant_speed: CONSTANT_DISABLE }
    }

    /// One tick of timed braking: power off, the brake steps up once per
    /// interval.
    fn timed_braking_tick(&mut self, state: AtsVehicleState, start: Option<i32>, since: AtcSignal) -> (r: AtsHandles)
        requires
            old(self).valid(),
        ensures
            final(self).valid(),
            ({
                let t = ramp_start(start, state.time as int);
                if timed_braking_ends(t, since, old(self).signal, state.speed as int, state.time as int, old(self).settings) {
                    final(self).status == AtoState::Cruising
                } else {
                    final(self).status == AtoState::TimedBraking(Some(t as i32), since)
                }
            }),
            ({
                let b = clamp_int(old(self).now_brake as int, 0, old(self).settings.ato.braking_max_notch as int);
                r == drive(
                    0,
                    if old(self).operation_timer.ready_at(state.time as int)
                        && b < old(self).settings.ato.braking_max_notch { b + 1 } else { b },
                )
            }),
            timer_asked(old(self).operation_timer, final(self).operation_timer, state.time as int),
            final(self).departure_timer == old(self).departure_timer,
            final(self).regulator == old(self).regulator,
            final(self).signal == old(self).signal,
            final(self).settings == old(self).settings,
            final(self).before_ato_notch == old(self).before_ato_notch,
            final(self).before_time == old(self).before_time,
            final(self).before_speed == old(self).before_speed,
    {
        let now = state.time;
        let t = match start {
            None => now,
            Some(t0) => if now < t0 { now } else { t0 },
        };
        let lower = self.signal.getLower().permitted_speed();
        if state.speed < lower || (now as i64) - (t as i64) > self.settings.ato.braking_time as i64
            || since != self.signal {
            self.status = AtoState::Cruising;
        } else {
            self.status = AtoState::TimedBraking(Some(t), since);
        }
        let fires = self.operation_timer.is_ready(now);
        let max_brake = self.settings.ato.braking_max_notch;
        let mut b = if self.now_brake < 0 { 0 } else if self.now_brake > max_brake { max_brake } else { self.now_brake };
        if fires && b < max_brake {
            b = b + 1;
        }
        self.now_power = 0;
        self.now_brake = b;
        AtsHandles { power: 0, brake: b, reverser: 1, constant_speed: CONSTANT_DISABLE }
    }

    /// One tick of coasting: power and brake off.
    fn coasting_tick(&mut self, state: AtsVehicleState, since: AtcSignal) -> (r: AtsHandles)
        requires
            old(self).valid(),
        ensures
            final(self).valid(),
            r == drive(0, 0),
            final(self).operation_timer == old(self).operation_timer,
            final(self).departure_timer == old(self).departure_timer,
            final(self).regulator == old(self).regulator,
            final(self).status == if coast_ends(since, old(self).signal, state.speed as int, old(self).settings) {
                AtoState::Cruising
            } else {
                old(self).status
            },
            final(self).signal == old(self).signal,
            final(self).settings == old(self).settings,
            final(self).before_ato_notch == old(self).before_ato_notch,
            final(self).before_time == old(self).before_time,
            final(self).before_speed == old(self).before_speed,
    {
        let speed = state.speed as i64;
        let target = (self.signal.permitted_speed() as i64) - (self.settings.ato.target_speed as i64);
        if speed < self.settings.ato.power_off_lower_limit_speed as i64
            || since.getSpeed() < self.signal.getSpeed()
            || speed > target - self.settings.ato.power_off_margin as i64 {
            self.status = AtoState::Cruising;
        }
        self.now_power = 0;
        self.now_brake = 0;
        AtsHandles { power: 0, brake: 0, reverser: 1, constant_speed: CONSTANT_DISABLE }
    }
}

/// What one tick of automatic operation does: from `pre` to `post`,
/// commanding `r`.
pub open spec fn ato_tick_post(pre: ULineATO, post: ULineATO, state: AtsVehicleState, r: AtsHandles) -> bool {
    let accel = acceleration_spec(pre.before_speed as int, state.speed as int, pre.before_time as int, state.time as int);
    let speed = state.speed as int;
    let now = state.time as int;
    let s = pre.settings;
    let target = cruise_target(pre.signal, s);
    let timers_kept = post.operation_timer == pre.operation_timer && post.departure_timer == pre.departure_timer;
    &&& post.valid()
    &&& post.settings == pre.settings
    &&& post.signal == pre.signal
    &&& post.before_time == state.time
    &&& post.before_speed == state.speed
    &&& post.before_acceleration == accel
    &&& post.before_ato_notch == r
    &&& post.now_power == r.power
    &&& post.now_brake == r.brake
    &&& match pre.status {
        AtoState::Stopped => {
            &&& r == pre.stopped_handles()
            &&& post.status == AtoState::Stopped
            &&& post.regulator == pre.regulator
            &&& timers_kept
        },
        AtoState::Cruising => {
            &&& post.status == AtoState::Cruising
            &&& post.regulator == cruise_step(pre, state, accel)
            &&& r == regulated_handles(post.regulator, target, speed, accel, s.vehicle)
            &&& timers_kept
        },
        AtoState::Departing => if speed >= signal_kmh(pre.signal) * 1000 - s.ato.departure_margin {
            &&& post.status == AtoState::Cruising
            &&& post.regulator == cruise_step(pre, state, accel)
            &&& r == regulated_handles(post.regulator, target, speed, accel, s.vehicle)
            &&& timers_kept
        } else {
            let p = clamp_int(old_power_after_check(pre, speed), 0, s.vehicle.output_power_notches as int);
            &&& post.status == AtoState::Departing
            &&& r == drive(step_up(p, pre.departure_timer.ready_at(now), s.vehicle.output_power_notches as int), 0)
            &&& post.regulator == pre.regulator
            &&& post.operation_timer == pre.operation_timer
            &&& timer_asked(pre.departure_timer, post.departure_timer, now)
        },
        AtoState::CoastingPowerOff(since) => {
            &&& r == drive(0, 0)
            &&& post.status == if coast_ends(since, pre.signal, speed, s) { AtoState::Cruising } else { pre.status }
            &&& post.regulator == pre.regulator
            &&& timers_kept
        },
        AtoState::TimedBraking(start, since) => {
            let t = ramp_start(start, now);
            &&& post.status == if timed_braking_ends(t, since, pre.signal, speed, now, s) {
                AtoState::Cruising
            } else {
                AtoState::TimedBraking(Some(t as i32), since)
            }
            &&& r == drive(
                0,
                step_up(
                    clamp_int(pre.now_brake as int, 0, s.ato.braking_max_notch as int),
                    pre.operation_timer.ready_at(now),
                    s.ato.braking_max_notch as int,
                ),
            )
            &&& post.regulator == pre.regulator
            &&& post.departure_timer == pre.departure_timer
            &&& timer_asked(pre.operation_timer, post.operation_timer, now)
        },
        AtoState::DistanceBraking(kind, anchor, offset) => {
            let a = match anchor { Some(x) => x, None => state.location };
            &&& post.status == distance_next(kind, a, offset, speed)
            &&& timers_kept
            &&& match guard_speed(kind, s) {
                Some(g) if speed > g => {
                    &&& r == drive(0, s.vehicle.output_brake_notches + 1)
                    &&& post.regulator == pre.regulator
                },
                _ => {
                    let remaining = a as int + offset as int - state.location as int;
                    match tasc_command_spec(speed, remaining, s.vehicle, s.ato) {
                        TascCommand::Hold => r == pre.before_ato_notch && post.regulator == pre.regulator,
                        TascCommand::Cruise => {
                            &&& post.regulator == cruise_step(pre, state, accel)
                            &&& r == regulated_handles(post.regulator, target, speed, accel, s.vehicle)
                        },
                        TascCommand::Brake(n) => r == drive(0, n as int) && post.regulator == pre.regulator,
                    }
                },
            }
        },
    }
}

impl ULineATO {
    /// The brake a stopped train holds.
    pub open spec fn stopped_handles(&self) -> AtsHandles {
        AtsHandles {
            power: 0,
            brake: self.settings.vehicle.output_brake_notches,
            reverser: 0,
            constant_speed: CONSTANT_DISABLE,
        }
    }

    /// One tick of automatic operation.
    pub fn tick(&mut self, state: AtsVehicleState) -> (r: AtsHandles)
        requires
            old(self).valid(),
        ensures
            ato_tick_post(*old(self), *final(self), state, r),
    {
        let accel = acceleration(self.before_speed, state.speed, self.before_time, state.time);
        if state.speed > self.signal.permitted_speed() {
            self.now_power = 0;
        }
        let r = match self.status {
            AtoState::Stopped => AtsHandles {
                power: 0,
                brake: self.settings.vehicle.output_brake_notches,
                reverser: 0,
                constant_speed: CONSTANT_DISABLE,
            },
            AtoState::Departing => self.departure_tick(state, accel),
            AtoState::Cruising => self.ato_constant_speed(state, accel),
            AtoState::CoastingPowerOff(since) => self.coasting_tick(state, since),
            AtoState::TimedBraking(start, since) => self.timed_braking_tick(state, start, since),
            AtoState::DistanceBraking(kind, anchor, offset) => self.distance_braking_tick(state, accel, kind, anchor, offset),
        };
        self.now_power = r.power;
        self.now_brake = r.brake;
        self.before_time = state.time;
        self.before_speed = state.speed;
        self.before_acceleration = accel;
        self.before_ato_notch = r;
        r
    }

    /// The start key departs a stopped train standing still.
    pub fn start_key(&mut self, key: AtsKey)
        ensures
            *final(self) == (ULineATO {
                status: final(self).status,
                now_power: final(self).now_power,
                now_brake: final(self).now_brake,
                ..*old(self)
            }),
            final(self).before_ato_notch == old(self).before_ato_notch,
            final(self).regulator == old(self).regulator,
            (key == AtsKey::S && old(self).status == AtoState::Stopped && old(self).before_speed == 0) ==> {
                &&& final(self).status == AtoState::Departing
                &&& final(self).now_power == 0
            },
            !(key == AtsKey::S && old(self).status == AtoState::Stopped && old(self).before_speed == 0)
                ==> final(self).status == old(self).status,
            final(self).settings == old(self).settings,
            final(self).signal == old(self).signal,
    {
        if key == AtsKey::S && self.status == AtoState::Stopped && self.before_speed == 0 {
            self.status = AtoState::Departing;
            self.now_power = 0;
            self.now_brake = 0;
        }
    }

    /// A new signal; codes outside `0..=9` are ignored.
    pub fn signal_changed(&mut self, code: i32)
        ensures
            *final(self) == (ULineATO { signal: final(self).signal, ..*old(self) }),
            final(self).before_ato_notch == old(self).before_ato_notch,
            final(self).regulator == old(self).regulator,
            final(self).signal == match signal_of_code(code as int) {
                Some(sig) => sig,
                None => old(self).signal,
            },
            final(self).status == old(self).status,
            final(self).settings == old(self).settings,
    {
        match AtcSignal::from_code(code) {
            Some(sig) => self.signal = sig,
            None => {},
        }
    }

    /// A beacon: enters a stopping pattern, timed braking or coasting.
    pub fn beacon(&mut self, data: AtsBeaconData)
        ensures
            *final(self) == (ULineATO { status: final(self).status, ..*old(self) }),
            final(self).before_ato_notch == old(self).before_ato_notch,
            final(self).regulator == old(self).regulator,
            final(self).status == beacon_status(
                old(self).status, data.beacon_type as int, old(self).signal, old(self).before_speed as int, old(self).settings),
            final(self).settings == old(self).settings,
            final(self).signal == old(self).signal,
    {
        match data.beacon_type {
            1 => {
                self.status = AtoState::DistanceBraking(TascPattern::First, None, FIRST_PATTERN_OFFSET);
            },
            2 => {
                self.status = AtoState::DistanceBraking(TascPattern::Second, None, SECOND_PATTERN_OFFSET);
            },
            3 => {
                if let AtoState::DistanceBraking(TascPattern::Second, anchor, offset) = self.status {
                    self.status = AtoState::DistanceBraking(TascPattern::OverspeedGuard, anchor, offset);
                }
            },
            4 => {
                self.status = AtoState::TimedBraking(None, self.signal);
            },
            5 => {
                if self.before_speed >= self.settings.ato.power_off_lower_limit_speed {
                    self.status = AtoState::CoastingPowerOff(self.signal);
                }
            },
            6 => {
                self.status = AtoState::DistanceBraking(TascPattern::Pattern90, None, PATTERN90_OFFSET);
            },
            _ => {},
        }
    }
}

impl BveAts for ULineATO {
    open spec fn wf(&self) -> bool {
        self.valid()
    }

    fn load(&mut self) {
    }

    fn dispose(&mut self) {
    }

    fn get_plugin_version(&mut self) -> (r: i32)
        ensures
            r == ATS_VERSION,
    {
        ATS_VERSION
    }

    fn set_vehicle_spec(&mut self, spec: AtsVehicleSpec) {
    }

    fn initialize(&mut self, handle: AtsInit) {
    }

    fn elapse(&mut self, state: AtsVehicleState, panel: &mut [i32], sound: &mut [i32]) -> (r: AtsHandles)
        ensures
            ato_tick_post(*old(self), *final(self), state, r),
            final(panel)@ == old(panel)@,
            final(sound)@ == old(sound)@,
    {
        self.tick(state)
    }

    fn set_power(&mut self, notch: i32) {
    }

    fn set_brake(&mut self, notch: i32) {
    }

    fn set_reverser(&mut self, notch: i32) {
    }

    fn key_down(&mut self, key: AtsKey)
        ensures
            *final(self) == (ULineATO {
                status: final(self).status,
                now_power: final(self).now_power,
                now_brake: final(self).now_brake,
                ..*old(self)
            }),
            (key == AtsKey::S && old(self).status == AtoState::Stopped && old(self).before_speed == 0) ==> {
                &&& final(self).status == AtoState::Departing
                &&& final(self).now_power == 0
            },
            !(key == AtsKey::S && old(self).status == AtoState::Stopped && old(self).before_speed == 0)
                ==> final(self).status == old(self).status,
            final(self).settings == old(self).settings,
            final(self).signal == old(self).signal,
    {
        self.start_key(key)
    }

    fn key_up(&mut self, key: AtsKey) {
    }

    fn horn_blow(&mut self, horn_type: AtsHorn) {
    }

    fn door_open(&mut self) {
    }

    fn door_close(&mut self) {
    }

    fn set_signal(&mut self, signal: i32)
        ensures
            *final(self) == (ULineATO { signal: final(self).signal, ..*old(self) }),
            final(self).signal == match signal_of_code(signal as int) {
                Some(sig) => sig,
                None => old(self).signal,
            },
            final(self).status == old(self).status,
            final(self).settings == old(self).settings,
    {
        self.signal_changed(signal)
    }

    fn set_beacon_data(&mut self, data: AtsBeaconData)
        ensures
            *final(self) == (ULineATO { status: final(self).status, ..*old(self) }),
            final(self).status == beacon_status(
                old(self).status, data.beacon_type as int, old(self).signal, old(self).before_speed as int, old(self).settings),
            final(self).settings == old(self).settings,
            final(self).signal == old(self).signal,
    {
        self.beacon(data)
    }
}

} // verus!
