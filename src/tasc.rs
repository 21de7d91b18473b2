//! Precision-stop braking: the stopping curve and the brake notch that
//! follows it.
use vstd::prelude::*;
use crate::settings::{ATOSettings, VehicleSettings, notches_ok, braking_ok};
use crate::speed_control::clamp_int;
use crate::notch::floor_div;

verus! {

/// Largest remaining distance (mm) the curve is evaluated at.
pub const MAX_REMAINING: i128 = 0x4_0000_0000_0000_0000;

/// The integer square root, defined by counting up.
pub open spec fn isqrt(n: nat) -> nat
    decreases n,
{
    if n == 0 {
        0
    } else {
        let r = isqrt((n - 1) as nat);
        if (r + 1) * (r + 1) <= n { r + 1 } else { r }
    }
}

pub proof fn lemma_isqrt_bounds(n: nat)
    ensures
        isqrt(n) * isqrt(n) <= n,
        n < (isqrt(n) + 1) * (isqrt(n) + 1),
    decreases n,
{
    if n > 0 {
        lemma_isqrt_bounds((n - 1) as nat);
        let r = isqrt((n - 1) as nat);
        assert(r * r <= n - 1 < (r + 1) * (r + 1));
        let s = isqrt(n);
        if (r + 1) * (r + 1) <= n {
            assert(s == r + 1);
            assert(s * s <= n && n < (s + 1) * (s + 1)) by (nonlinear_arith)
                requires
                    s == r + 1,
                    (r + 1) * (r + 1) <= n,
                    n - 1 < (r + 1) * (r + 1),
            ;
        } else {
            assert(s == r);
            assert(n < (s + 1) * (s + 1));
        }
    } else {
        let z = isqrt(n);
        assert(z == 0);
        assert(z * z == 0 && (z + 1) * (z + 1) == 1) by (nonlinear_arith)
            requires
                z == 0,
        ;
    }
}

/// Any root bracketed like the integer square root is it.
pub proof fn lemma_isqrt_unique(n: nat, r: nat)
    requires
        r * r <= n < (r + 1) * (r + 1),
    ensures
        isqrt(n) == r,
{
    lemma_isqrt_bounds(n);
    let s = isqrt(n);
    if s < r {
        assert((s + 1) * (s + 1) <= r * r) by (nonlinear_arith)
            requires
                s + 1 <= r,
        ;
    } else if s > r {
        assert((r + 1) * (r + 1) <= s * s) by (nonlinear_arith)
            requires
                r + 1 <= s,
        ;
    }
}

pub proof fn lemma_isqrt_monotone(a: nat, b: nat)
    requires
        a <= b,
    ensures
        isqrt(a) <= isqrt(b),
{
    lemma_isqrt_bounds(a);
    lemma_isqrt_bounds(b);
    let x = isqrt(a);
    let y = isqrt(b);
    if x > y {
        assert((y + 1) * (y + 1) <= x * x) by (nonlinear_arith)
            requires
                y + 1 <= x,
        ;
    }
}

/// The integer square root, by bisection.
pub fn integer_sqrt(n: u128) -> (r: u128)
    requires
        n < 0x4000_0000_0000_0000_0000_0000_0000_0000,
    ensures
        r == isqrt(n as nat),
{
    let mut lo: u128 = 0;
    let mut hi: u128 = 0x8000_0000_0000_0000;
    assert(hi * hi == 0x4000_0000_0000_0000_0000_0000_0000_0000);
    while hi - lo > 1
        invariant
            lo < hi <= 0x8000_0000_0000_0000,
            lo * lo <= n,
            n < hi * hi,
        decreases hi - lo,
    {
        let mid: u128 = lo + (hi - lo) / 2;
        assert(mid * mid < 0x4000_0000_0000_0000_0000_0000_0000_0000) by (nonlinear_arith)
            requires
                mid < 0x8000_0000_0000_0000,
        ;
        if mid * mid <= n {
            lo = mid;
        } else {
            hi = mid;
        }
    }
    proof {
        lemma_isqrt_unique(n as nat, lo as nat);
    }
    lo
}

/// Speed of the stopping curve `remaining` mm before the stop: the speed
/// from which a constant deceleration `decel` stops the train there, that
/// is `sqrt(7.2 * decel * remaining)` in the library's units.
pub open spec fn curve_speed(decel: int, remaining: int) -> int {
    isqrt((36 * decel * remaining / 5) as nat) as int
}

/// The deceleration needed to stop from `speed` in `remaining` mm: below
/// the fine speed `speed^2 / (7.2 * remaining)`; above it the two-point form
/// `(speed^2 - curve(remaining / 2)^2) / (7.2 * remaining / 2)`, which comes
/// to `speed^2 / (3.6 * remaining) - decel`.
pub open spec fn required_deceleration(speed: int, remaining: int, a: ATOSettings) -> int {
    if speed > a.tasc_fine_speed {
        10 * (speed * speed) / (36 * remaining) - a.tasc_deceleration
    } else {
        5 * (speed * speed) / (36 * remaining)
    }
}

/// The brake notch that follows the curve: the required deceleration as a
/// share of the full-service deceleration over the service notches, less a
/// correction of one notch per km/h the curve lies above the speed, at most
/// ten notches either way; rounded, and held within the service notches.
pub open spec fn curve_brake_notch(speed: int, remaining: int, v: VehicleSettings, a: ATOSettings) -> int {
    let full = v.output_brake_notches as int;
    let raw = required_deceleration(speed, remaining, a) * full * 1000 / a.tasc_max_deceleration as int;
    let correction = clamp_int(curve_speed(a.tasc_deceleration as int, remaining) - speed, -10_000, 10_000);
    clamp_int((raw - correction + 500) / 1000, 0, full)
}

/// The brake notch of a braking command.
pub open spec fn brake_notch_of(c: TascCommand) -> int {
    match c {
        TascCommand::Brake(n) => n as int,
        _ => 0,
    }
}

/// What distance braking commands.
#[derive(Clone, Copy, Debug, PartialEq, Eq, Structural)]
pub enum TascCommand {
    /// Past the stopping point, where the curve gives no speed: keep the
    /// last command.
    Hold,
    /// The curve is still well above the speed: regulate the cruise speed.
    Cruise,
    /// Brake with this notch, power off; at the stopping point itself the
    /// full service notch.
    Brake(i32),
}

pub open spec fn tasc_command_spec(speed: int, remaining: int, v: VehicleSettings, a: ATOSettings) -> TascCommand {
    if remaining < 0 {
        TascCommand::Hold
    } else if remaining == 0 {
        TascCommand::Brake(v.output_brake_notches)
    } else if curve_speed(a.tasc_deceleration as int, remaining) > speed + a.tasc_brake_margin {
        TascCommand::Cruise
    } else {
        TascCommand::Brake(curve_brake_notch(speed, remaining, v, a) as i32)
    }
}

/// Speed of the stopping curve at a remaining distance.
pub fn tasc_target_speed(decel: i32, remaining: i128) -> (r: i128)
    requires
        decel > 0,
        0 <= remaining <= MAX_REMAINING,
    ensures
        r == curve_speed(decel as int, remaining as int),
        0 <= r < 0x8000_0000_0000_0000,
{
    proof {
        assert(0 <= 36 * decel * remaining <= 36 * 0x7fff_ffff * MAX_REMAINING) by (nonlinear_arith)
            requires
                0 < decel <= 0x7fff_ffff,
                0 <= remaining <= MAX_REMAINING,
        ;
    }
    let sq: i128 = 36 * (decel as i128) * remaining / 5;
    let r = integer_sqrt(sq as u128);
    proof {
        lemma_isqrt_bounds(sq as nat);
        assert(r < 0x8000_0000_0000_0000) by (nonlinear_arith)
            requires
                r * r <= sq,
                sq < 0x4000_0000_0000_0000_0000_0000_0000_0000,
        ;
    }
    r as i128
}

/// The command of distance braking at `speed` with `remaining` mm to the
/// stopping point.
pub fn tasc_command(speed: i32, remaining: i128, v: &VehicleSettings, a: &ATOSettings) -> (r: TascCommand)
    requires
        notches_ok(*v),
        braking_ok(*a),
        remaining <= MAX_REMAINING,
    ensures
        r == tasc_command_spec(speed as int, remaining as int, *v, *a),
        r matches TascCommand::Brake(n) ==> 0 <= n <= v.output_brake_notches,
{
    if remaining < 0 {
        return TascCommand::Hold;
    }
    if remaining == 0 {
        return TascCommand::Brake(v.output_brake_notches);
    }
    let target = tasc_target_speed(a.tasc_deceleration, remaining);
    if target > (speed as i128) + (a.tasc_brake_margin as i128) {
        return TascCommand::Cruise;
    }
    let s = speed as i128;
    proof {
        assert(0 <= s * s <= 0x4000_0000_0000_0000) by (nonlinear_arith)
            requires
                -0x8000_0000 <= s <= 0x7fff_ffff,
        ;
    }
    let sq: i128 = s * s;
    proof {
        assert(36 * remaining >= 36) by (nonlinear_arith)
            requires
                remaining >= 1,
        ;
    }
    let decel: i128 = if s > a.tasc_fine_speed as i128 {
        10 * sq / (36 * remaining) - a.tasc_deceleration as i128
    } else {
        5 * sq / (36 * remaining)
    };
    let full = v.output_brake_notches as i128;
    proof {
        let n = 10 * sq;
        let d = 36 * remaining;
        assert(0 <= 10 * sq / (36 * remaining) <= 10 * sq) by {
            vstd::arithmetic::div_mod::lemma_div_is_ordered_by_denominator(n as int, 1, d as int);
            vstd::arithmetic::div_mod::lemma_div_pos_is_pos(n as int, d as int);
        }
        assert(0 <= 5 * sq / (36 * remaining) <= 5 * sq) by {
            vstd::arithmetic::div_mod::lemma_div_is_ordered_by_denominator(5 * sq as int, 1, d as int);
            vstd::arithmetic::div_mod::lemma_div_pos_is_pos(5 * sq as int, d as int);
        }
        assert(-0x4000_0000_0000_0000_0000_0000_0000 <= decel * full * 1000 <= 0x4000_0000_0000_0000_0000_0000_0000) by (nonlinear_arith)
            requires
                -0x8000_0000 <= decel <= 10 * 0x4000_0000_0000_0000,
                1 <= full <= 0x8000_0000,
        ;
    }
    let raw = floor_div(decel * full * 1000, a.tasc_max_deceleration as i128);
    proof {
        let n = (decel * full * 1000) as int;
        let d = a.tasc_max_deceleration as int;
        vstd::arithmetic::div_mod::lemma_fundamental_div_mod(n, d);
        let q = n / d;
        let m = n % d;
        assert(-0x4000_0000_0000_0000_0000_0000_0000 <= q <= 0x4000_0000_0000_0000_0000_0000_0000) by (nonlinear_arith)
            requires
                n == d * q + m,
                0 <= m < d,
                d >= 1,
                -0x4000_0000_0000_0000_0000_0000_0000 <= n <= 0x4000_0000_0000_0000_0000_0000_0000,
        ;
    }
    let diff: i128 = target - s;
    let correction: i128 = if diff < -10_000 { -10_000 } else if diff > 10_000 { 10_000 } else { diff };
    let rounded = floor_div(raw - correction + 500, 1000);
    let notch: i128 = if rounded < 0 { 0 } else if rounded > full { full } else { rounded };
    TascCommand::Brake(notch as i32)
}

/// Distance braking at a fixed speed: once the command at some distance is
/// to brake, it is to brake at every shorter distance down to the stopping
/// point too (a braking command cuts power), and with a brake notch at least
/// as high.
pub proof fn lemma_curve_brake_monotone(
    speed: int,
    near: int,
    far: int,
    v: VehicleSettings,
    a: ATOSettings,
)
    requires
        notches_ok(v),
        braking_ok(a),
        0 <= near <= far,
        tasc_command_spec(speed, far, v, a) is Brake,
    ensures
        tasc_command_spec(speed, near, v, a) is Brake,
        brake_notch_of(tasc_command_spec(speed, far, v, a)) <= brake_notch_of(tasc_command_spec(speed, near, v, a)),
{
    if near == 0 || far == near {
        if far > 0 {
            assert(0 <= curve_brake_notch(speed, far, v, a) <= v.output_brake_notches);
        }
        return;
    }
    let dec = a.tasc_deceleration as int;
    let full = v.output_brake_notches as int;
    let amax = a.tasc_max_deceleration as int;
    // the curve speed grows with the distance
    assert(36 * dec * near / 5 <= 36 * dec * far / 5) by {
        assert(36 * dec * near <= 36 * dec * far) by (nonlinear_arith)
            requires
                dec > 0,
                near <= far,
        ;
        vstd::arithmetic::div_mod::lemma_div_is_ordered(36 * dec * near, 36 * dec * far, 5);
    }
    assert(0 <= 36 * dec * near / 5) by {
        assert(0 <= 36 * dec * near) by (nonlinear_arith)
            requires
                dec > 0,
                near > 0,
        ;
        vstd::arithmetic::div_mod::lemma_div_pos_is_pos(36 * dec * near, 5);
    }
    lemma_isqrt_monotone((36 * dec * near / 5) as nat, (36 * dec * far / 5) as nat);
    let vn = curve_speed(dec, near);
    let vf = curve_speed(dec, far);
    assert(vn <= vf);
    // the required deceleration shrinks with the distance
    let sq = speed * speed;
    assert(sq >= 0) by (nonlinear_arith)
        requires
            sq == speed * speed,
    ;
    assert(36 * near <= 36 * far);
    vstd::arithmetic::div_mod::lemma_div_is_ordered_by_denominator(10 * sq, 36 * near, 36 * far);
    vstd::arithmetic::div_mod::lemma_div_is_ordered_by_denominator(5 * sq, 36 * near, 36 * far);
    let dn = required_deceleration(speed, near, a);
    let df = required_deceleration(speed, far, a);
    assert(df <= dn);
    assert(df * full * 1000 <= dn * full * 1000) by (nonlinear_arith)
        requires
            df <= dn,
            full >= 1,
    ;
    vstd::arithmetic::div_mod::lemma_div_is_ordered(df * full * 1000, dn * full * 1000, amax);
    let rn = dn * full * 1000 / amax;
    let rf = df * full * 1000 / amax;
    let cn = clamp_int(vn - speed, -10_000, 10_000);
    let cf = clamp_int(vf - speed, -10_000, 10_000);
    assert(cn <= cf);
    vstd::arithmetic::div_mod::lemma_div_is_ordered(rf - cf + 500, rn - cn + 500, 1000);
}

} // verus!
