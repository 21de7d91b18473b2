//! Conversion between the driver's controller notches and the vehicle's.
use vstd::prelude::*;
use crate::settings::{VehicleSettings, notches_ok};

verus! {

/// `num / den` rounded to the nearest integer, halves upwards.
pub open spec fn round_div(num: int, den: int) -> int
    recommends
        den > 0,
{
    (2 * num + den) / (2 * den)
}

/// A notch of a `from`-step range scaled to a `to`-step range.
pub open spec fn scale_notch(n: int, from: int, to: int) -> int {
    round_div(n * to, from)
}

/// Floor division by a positive divisor.
pub fn floor_div(a: i128, b: i128) -> (r: i128)
    requires
        b > 0,
        a > i128::MIN,
    ensures
        r == a as int / b as int,
{
    if a >= 0 {
        a / b
    } else {
        let na: i128 = -(a + 1);
        let q: i128 = na / b;
        proof {
            let ai = a as int;
            let bi = b as int;
            let qi = q as int;
            let ri = na as int % bi;
            assert(na as int == qi * bi + ri && 0 <= ri < bi) by {
                vstd::arithmetic::div_mod::lemma_fundamental_div_mod(na as int, bi);
            }
            assert(ai == (-qi - 1) * bi + (bi - 1 - ri)) by (nonlinear_arith)
                requires
                    na as int == qi * bi + ri,
                    na as int == -(ai + 1),
            ;
            vstd::arithmetic::div_mod::lemma_fundamental_div_mod_converse(ai, bi, -qi - 1, bi - 1 - ri);
        }
        -q - 1
    }
}

/// `n` scaled from a `from`-step range to a `to`-step range, rounded.
pub fn scale(n: i64, from: i32, to: i32) -> (r: i128)
    requires
        -0x1_0000_0000 <= n <= 0x1_0000_0000,
        1 <= from,
        1 <= to,
    ensures
        r == scale_notch(n as int, from as int, to as int),
{
    proof {
        let ni = n as int;
        let ti = to as int;
        assert(-0x1_0000_0000 * 0x8000_0000 <= ni * ti <= 0x1_0000_0000 * 0x8000_0000) by (nonlinear_arith)
            requires
                -0x1_0000_0000 <= ni <= 0x1_0000_0000,
                1 <= ti <= 0x8000_0000,
        ;
    }
    let prod: i128 = (n as i128) * (to as i128);
    let num: i128 = 2 * prod + from as i128;
    let den: i128 = 2 * from as i128;
    floor_div(num, den)
}

/// A driver's brake notch as a vehicle brake notch.
pub fn to_output_brake(v: &VehicleSettings, n: i32) -> (r: i128)
    requires
        notches_ok(*v),
    ensures
        r == scale_notch(n as int, v.input_brake_notches as int, v.output_brake_notches as int),
{
    scale(n as i64, v.input_brake_notches, v.output_brake_notches)
}

/// A vehicle brake notch as a driver's brake notch.
pub fn to_input_brake(v: &VehicleSettings, n: i32) -> (r: i128)
    requires
        notches_ok(*v),
    ensures
        r == scale_notch(n as int, v.output_brake_notches as int, v.input_brake_notches as int),
{
    scale(n as i64, v.output_brake_notches, v.input_brake_notches)
}

/// A driver's power notch as a vehicle power notch.
pub fn to_output_power(v: &VehicleSettings, n: i32) -> (r: i128)
    requires
        notches_ok(*v),
    ensures
        r == scale_notch(n as int, v.input_power_notches as int, v.output_power_notches as int),
{
    scale(n as i64, v.input_power_notches, v.output_power_notches)
}

/// Bounds of a rounded quotient: `k == round_div(num, den)` means
/// `2*k*den <= 2*num + den < 2*k*den + 2*den`.
proof fn lemma_round_div_bounds(num: int, den: int)
    requires
        den > 0,
    ensures
        2 * round_div(num, den) * den <= 2 * num + den,
        2 * num + den < 2 * round_div(num, den) * den + 2 * den,
{
    let k = round_div(num, den);
    let m = 2 * num + den;
    let d = 2 * den;
    vstd::arithmetic::div_mod::lemma_fundamental_div_mod(m, d);
    let r = m % d;
    assert(m == d * k + r && 0 <= r < d);
    assert(2 * k * den == d * k) by (nonlinear_arith)
        requires
            d == 2 * den,
    ;
}

/// Converting a vehicle brake notch to the driver's range and back lands at
/// most one notch away from where it started, on every configuration whose
/// vehicle range has at most twice as many steps as the driver's.
pub proof fn lemma_brake_round_trip(v: VehicleSettings, n: int)
    requires
        notches_ok(v),
        v.output_brake_notches <= 2 * v.input_brake_notches,
    ensures
        ({
            let input = v.input_brake_notches as int;
            let output = v.output_brake_notches as int;
            let back = scale_notch(scale_notch(n, output, input), input, output);
            n - 1 <= back <= n + 1
        }),
{
    let i = v.input_brake_notches as int;
    let o = v.output_brake_notches as int;
    let m = scale_notch(n, o, i);
    let k = scale_notch(m, i, o);
    lemma_round_div_bounds(n * i, o);
    lemma_round_div_bounds(m * o, i);
    assert(2 * m * o <= 2 * (n * i) + o);
    assert(2 * (n * i) + o < 2 * m * o + 2 * o);
    assert(2 * k * i <= 2 * (m * o) + i);
    assert(2 * (m * o) + i < 2 * k * i + 2 * i);
    assert(k <= n + 1) by (nonlinear_arith)
        requires
            2 * k * i <= 2 * (m * o) + i,
            2 * m * o <= 2 * (n * i) + o,
            o <= 2 * i,
            i >= 1,
    ;
    assert(k >= n - 1) by (nonlinear_arith)
        requires
            2 * (m * o) + i < 2 * k * i + 2 * i,
            2 * (n * i) + o < 2 * m * o + 2 * o,
            o <= 2 * i,
            i >= 1,
    ;
}

} // verus!
