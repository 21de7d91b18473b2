//! ATC brake enforcement: the overspeed state machine and what each of its
//! states does to the handles.
use vstd::prelude::*;
use crate::atc_signal::{AtcSignal, signal_kmh};
use crate::bve::{AtsHandles, AtsSound, AtsVehicleState, CONSTANT_DISABLE, sound_code};
use crate::uline_atc::ULineATC;
use crate::settings::ATCSettings;

verus! {

/// The brake the ATC applies.
#[derive(Clone, Copy, Debug, PartialEq, Eq, Structural)]
pub enum AtcBrakeStatus {
    /// No ATC brake.
    Passing,
    /// Full service brake.
    FullBraking,
    /// Half brake, engaged at the given time (ms).
    HalfBraking(i32),
    /// Emergency brake.
    EmergencyBraking,
}

impl Default for AtcBrakeStatus {
    fn default() -> (r: Self)
        ensures
            r == AtcBrakeStatus::Passing,
    {
        Self::Passing
    }
}

/// The speed is above the signal's permitted speed plus the margin.
pub open spec fn over_speed(signal: AtcSignal, speed: int, atc: ATCSettings) -> bool {
    speed > signal_kmh(signal) * 1000 + atc.check_speed_margin
}

/// A half brake engaged later than `now` (the clock went back) restarted at
/// `now`; any other status as it is.
pub open spec fn rewound(st: AtcBrakeStatus, now: int) -> AtcBrakeStatus {
    match st {
        AtcBrakeStatus::HalfBraking(t) => if now < t { AtcBrakeStatus::HalfBraking(now as i32) } else { st },
        _ => st,
    }
}

/// The hysteresis part of a tick: engage the half brake on overspeed,
/// escalate it after the delay, release on clearing. A half brake engaged
/// later than `now` (the clock went back) restarts its delay at `now`.
pub open spec fn hysteresis_step(st: AtcBrakeStatus, over: bool, now: int, delay: int) -> AtcBrakeStatus {
    let s1 = if st == AtcBrakeStatus::Passing && over { AtcBrakeStatus::HalfBraking(now as i32) } else { st };
    let s2 = match s1 {
        AtcBrakeStatus::HalfBraking(t) => {
            if now < t {
                AtcBrakeStatus::HalfBraking(now as i32)
            } else if now - t >= delay {
                AtcBrakeStatus::FullBraking
            } else {
                s1
            }
        },
        _ => s1,
    };
    if over { s2 } else { AtcBrakeStatus::Passing }
}

/// A creep override armed under its expected signal: pass below the creep
/// limit, full brake above it. Returns the status and whether it stays armed.
pub open spec fn override_step(
    st: AtcBrakeStatus,
    armed: bool,
    expected: AtcSignal,
    signal: AtcSignal,
    speed: int,
    limit: int,
) -> (AtcBrakeStatus, bool) {
    if armed {
        if signal == expected {
            (if speed <= limit { AtcBrakeStatus::Passing } else { AtcBrakeStatus::FullBraking }, true)
        } else {
            (st, false)
        }
    } else {
        (st, false)
    }
}

/// One tick of brake enforcement: the new status and whether the
/// non-service and the confirmation overrides stay armed.
pub open spec fn brake_step(
    st: AtcBrakeStatus,
    signal: AtcSignal,
    speed: int,
    now: int,
    atc: ATCSettings,
    non_service: bool,
    confirmation: bool,
) -> (AtcBrakeStatus, bool, bool) {
    let s3 = hysteresis_step(st, over_speed(signal, speed, atc), now, atc.half_brake_time as int);
    let s4 = if signal == AtcSignal::Signal02 { AtcBrakeStatus::EmergencyBraking } else { s3 };
    let (s5, ns) = override_step(
        s4,
        non_service,
        AtcSignal::Signal02,
        signal,
        speed,
        atc.non_service_limit_speed + atc.check_speed_margin,
    );
    let (s6, cf) = override_step(
        s5,
        confirmation,
        AtcSignal::Signal01,
        signal,
        speed,
        atc.confirmation_limit_speed + atc.check_speed_margin,
    );
    (s6, ns, cf)
}

/// The stronger of two brake notches.
pub open spec fn max_brake(a: int, b: int) -> int {
    if a >= b { a } else { b }
}

/// What a status does to the handles: pass them through, or raise the
/// brake to at least the half, full or emergency notch (a stronger brake
/// already set stays) with power cut and the constant-speed flag cleared.
pub open spec fn brake_handles_spec(st: AtcBrakeStatus, h: AtsHandles, full: int) -> AtsHandles {
    match st {
        AtcBrakeStatus::Passing => h,
        AtcBrakeStatus::HalfBraking(_) => AtsHandles {
            brake: max_brake(full / 2, h.brake as int) as i32,
            power: 0,
            constant_speed: CONSTANT_DISABLE,
            ..h
        },
        AtcBrakeStatus::FullBraking => AtsHandles {
            brake: max_brake(full, h.brake as int) as i32,
            power: 0,
            constant_speed: CONSTANT_DISABLE,
            ..h
        },
        AtcBrakeStatus::EmergencyBraking => AtsHandles {
            brake: max_brake(full + 1, h.brake as int) as i32,
            power: 0,
            constant_speed: CONSTANT_DISABLE,
            ..h
        },
    }
}

fn override_status(
    st: AtcBrakeStatus,
    armed: bool,
    expected: AtcSignal,
    signal: AtcSignal,
    speed: i32,
    limit: i64,
) -> (r: (AtcBrakeStatus, bool))
    ensures
        r == override_step(st, armed, expected, signal, speed as int, limit as int),
{
    if armed {
        if signal == expected {
            (if (speed as i64) <= limit { AtcBrakeStatus::Passing } else { AtcBrakeStatus::FullBraking }, true)
        } else {
            (st, false)
        }
    } else {
        (st, false)
    }
}

/// One tick of brake enforcement.
pub fn next_brake_status(
    st: AtcBrakeStatus,
    signal: AtcSignal,
    speed: i32,
    now: i32,
    atc: &ATCSettings,
    non_service: bool,
    confirmation: bool,
) -> (r: (AtcBrakeStatus, bool, bool))
    ensures
        r == brake_step(st, signal, speed as int, now as int, *atc, non_service, confirmation),
{
    let permitted = signal.permitted_speed() as i64;
    let over = (speed as i64) > permitted + atc.check_speed_margin as i64;
    let s1 = if st == AtcBrakeStatus::Passing && over { AtcBrakeStatus::HalfBraking(now) } else { st };
    let s2 = match s1 {
        AtcBrakeStatus::HalfBraking(t) => {
            if now < t {
                AtcBrakeStatus::HalfBraking(now)
            } else if (now as i64) - (t as i64) >= atc.half_brake_time as i64 {
                AtcBrakeStatus::FullBraking
            } else {
                s1
            }
        },
        _ => s1,
    };
    let s3 = if over { s2 } else { AtcBrakeStatus::Passing };
    let s4 = if signal == AtcSignal::Signal02 { AtcBrakeStatus::EmergencyBraking } else { s3 };
    let (s5, ns) = override_status(
        s4,
        non_service,
        AtcSignal::Signal02,
        signal,
        speed,
        atc.non_service_limit_speed as i64 + atc.check_speed_margin as i64,
    );
    let (s6, cf) = override_status(
        s5,
        confirmation,
        AtcSignal::Signal01,
        signal,
        speed,
        atc.confirmation_limit_speed as i64 + atc.check_speed_margin as i64,
    );
    (s6, ns, cf)
}

/// The handles under a brake status; `full` is the full-service notch.
pub fn brake_handles(st: AtcBrakeStatus, h: AtsHandles, full: i32) -> (r: AtsHandles)
    requires
        0 <= full < i32::MAX,
    ensures
        r == brake_handles_spec(st, h, full as int),
{
    let notch: i32 = match st {
        AtcBrakeStatus::Passing => return h,
        AtcBrakeStatus::HalfBraking(_) => full / 2,
        AtcBrakeStatus::FullBraking => full,
        AtcBrakeStatus::EmergencyBraking => full + 1,
    };
    AtsHandles {
        brake: if notch >= h.brake { notch } else { h.brake },
        power: 0,
        constant_speed: CONSTANT_DISABLE,
        ..h
    }
}

/// Shunting overspeed: the signal speed is below both the train speed and
/// the shunting cap.
pub open spec fn shunting_over(signal: AtcSignal, speed: int, cap: int) -> bool {
    let m = if speed < cap { speed } else { cap };
    signal_kmh(signal) * 1000 < m
}

/// The compare-only check used while shunting: at least the full service
/// brake with power cut when overspeeding, else the handles unchanged.
pub fn shunting_brake(signal: AtcSignal, speed: i32, cap: i32, h: AtsHandles, full: i32) -> (r: AtsHandles)
    ensures
        r == (if shunting_over(signal, speed as int, cap as int) {
            AtsHandles { brake: max_brake(full as int, h.brake as int) as i32, power: 0, constant_speed: CONSTANT_DISABLE, ..h }
        } else {
            h
        }),
{
    let m = if speed < cap { speed } else { cap };
    if signal.permitted_speed() < m {
        AtsHandles { brake: if full >= h.brake { full } else { h.brake }, power: 0, constant_speed: CONSTANT_DISABLE, ..h }
    } else {
        h
    }
}

/// With a speed held above the limit and no override armed, a half brake
/// engaged at `t0` stays a half brake while less than the delay has passed,
/// and turns into a full brake at the first tick at which it has: the full
/// brake comes no sooner than the delay after the crossing, and no later
/// than the first tick after it. Over handles braking no harder than the
/// half notch, the half brake commands the half notch and the full brake
/// the full service notch, both with power cut and constant speed off.
pub proof fn lemma_half_brake_hysteresis(
    signal: AtcSignal,
    speed: int,
    t0: int,
    now: int,
    atc: ATCSettings,
    h: AtsHandles,
    full: int,
)
    requires
        0 <= h.brake <= full / 2,
        0 <= full < i32::MAX,
        signal != AtcSignal::Signal02,
        over_speed(signal, speed, atc),
        atc.half_brake_time > 0,
        i32::MIN <= t0 <= now <= i32::MAX,
    ensures
        brake_step(AtcBrakeStatus::Passing, signal, speed, t0, atc, false, false).0
            == AtcBrakeStatus::HalfBraking(t0 as i32),
        now - t0 < atc.half_brake_time ==> brake_step(
            AtcBrakeStatus::HalfBraking(t0 as i32), signal, speed, now, atc, false, false,
        ).0 == AtcBrakeStatus::HalfBraking(t0 as i32),
        now - t0 >= atc.half_brake_time ==> brake_step(
            AtcBrakeStatus::HalfBraking(t0 as i32), signal, speed, now, atc, false, false,
        ).0 == AtcBrakeStatus::FullBraking,
        ({
            let half = brake_handles_spec(AtcBrakeStatus::HalfBraking(t0 as i32), h, full);
            let fullb = brake_handles_spec(AtcBrakeStatus::FullBraking, h, full);
            &&& half.brake == full / 2 && half.power == 0 && half.constant_speed == CONSTANT_DISABLE
            &&& fullb.brake == full && fullb.power == 0 && fullb.constant_speed == CONSTANT_DISABLE
        }),
{
}

/// Under the absolute-stop signal, with the non-service override not armed,
/// every tick ends in emergency braking, whatever the status, speed and
/// time, and commands the emergency notch with power cut.
pub proof fn lemma_absolute_stop_emergency(
    st: AtcBrakeStatus,
    speed: int,
    now: int,
    atc: ATCSettings,
    confirmation: bool,
    h: AtsHandles,
    full: int,
)
    requires
        0 <= h.brake <= full + 1,
        0 <= full < i32::MAX,
    ensures
        brake_step(st, AtcSignal::Signal02, speed, now, atc, false, confirmation).0
            == AtcBrakeStatus::EmergencyBraking,
        brake_handles_spec(AtcBrakeStatus::EmergencyBraking, h, full).brake == full + 1,
        brake_handles_spec(AtcBrakeStatus::EmergencyBraking, h, full).power == 0,
{
}

/// When the clock has gone back past the time a half brake engaged, the
/// half brake's delay restarts at the new time instead of counting from a
/// time in the future.
pub proof fn lemma_half_brake_rewind(
    signal: AtcSignal,
    speed: int,
    t: i32,
    now: int,
    atc: ATCSettings,
)
    requires
        signal != AtcSignal::Signal02,
        over_speed(signal, speed, atc),
        atc.half_brake_time > 0,
        i32::MIN <= now < t,
    ensures
        brake_step(AtcBrakeStatus::HalfBraking(t), signal, speed, now, atc, false, false).0
            == AtcBrakeStatus::HalfBraking(now as i32),
{
}

/// Slot of the ATC buzzer in the sound array.
pub const ATS_SOUND_BUZZER: usize = 3;

/// One tick of brake enforcement on the unit: the status and the overrides
/// move by `brake_step`, the buzzer loops while any brake is applied, and the
/// handles are those of the new status.
pub fn elapse_atc_brake(atc: &mut ULineATC, handles: AtsHandles, state: AtsVehicleState, sound: &mut [i32]) -> (r: AtsHandles)
    requires
        old(atc).valid(),
        old(sound)@.len() > ATS_SOUND_BUZZER,
    ensures
        ({
            let (st, ns, cf) = brake_step(
                old(atc).atc_brake_status,
                old(atc).now_signal,
                state.speed as int,
                state.time as int,
                old(atc).settings.atc,
                old(atc).non_service_armed,
                old(atc).confirmation_armed,
            );
            &&& *final(atc) == (ULineATC {
                atc_brake_status: st,
                non_service_armed: ns,
                confirmation_armed: cf,
                ..*old(atc)
            })
            &&& r == brake_handles_spec(st, handles, old(atc).settings.vehicle.output_brake_notches as int)
            &&& final(sound)@ == old(sound)@.update(
                ATS_SOUND_BUZZER as int,
                (if st == AtcBrakeStatus::Passing {
                    sound_code(AtsSound::Stop)
                } else {
                    sound_code(AtsSound::PlayLooping)
                }) as i32,
            )
        }),
{
    let (st, ns, cf) = next_brake_status(
        atc.atc_brake_status,
        atc.now_signal,
        state.speed,
        state.time,
        &atc.settings.atc,
        atc.non_service_armed,
        atc.confirmation_armed,
    );
    atc.atc_brake_status = st;
    atc.non_service_armed = ns;
    atc.confirmation_armed = cf;
    if st == AtcBrakeStatus::Passing {
        sound[ATS_SOUND_BUZZER] = AtsSound::Stop.code();
    } else {
        sound[ATS_SOUND_BUZZER] = AtsSound::PlayLooping.code();
    }
    brake_handles(st, handles, atc.settings.vehicle.output_brake_notches)
}

/// With protection disabled the handles pass unchanged.
pub fn elapse_hisetsu_brake(atc: &mut ULineATC, handles: AtsHandles) -> (r: AtsHandles)
    ensures
        r == handles,
        *final(atc) == *old(atc),
{
    handles
}

} // verus!
