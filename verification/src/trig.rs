//! Fixed-point circular functions, for rotation transforms and the
//! camera's field of view.
//!
//! A polynomial approximates the sine on the reduced range; the contracts
//! state the exact raw value each function computes.

use vstd::prelude::*;
use crate::fixed::{fx_mul_s, fx_sub_s, fx_div_s, fx_add_s, fx_mul, fx_sub, fx_div, fx_add,
    tdiv, SCALE};

verus! {

/// Half turn, in raw radians.
pub const PI_RAW: i64 = 3_141_593;

/// Full turn, in raw radians.
pub const TWO_PI_RAW: i64 = 6_283_185;

/// Quarter turn, in raw radians.
pub const HALF_PI_RAW: i64 = 1_570_796;

/// Truncating remainder, the `%` of the machine: `p - d * tdiv(p, d)`.
pub open spec fn trem(p: int, d: int) -> int {
    p - d * tdiv(p, d)
}

/// Degrees to radians: `d * pi / 180`.
pub open spec fn degs_to_rads_s(d: int) -> int {
    fx_div_s(fx_mul_s(d, PI_RAW as int), 180 * SCALE as int)
}

/// Degrees to radians.
pub fn degs_to_rads(d: i64) -> (r: i64)
    ensures
        r as int == degs_to_rads_s(d as int),
{
    fx_div(fx_mul(d, PI_RAW), 180 * SCALE)
}

/// Sine polynomial on the reduced range, by Horner's rule:
/// `x (1 - x^2/6 (1 - x^2/20 (1 - x^2/42 (1 - x^2/72))))`.
pub open spec fn sin_core_s(x: int) -> int {
    let x2 = fx_mul_s(x, x);
    let t4 = fx_sub_s(SCALE as int, fx_div_s(x2, 72 * SCALE as int));
    let t3 = fx_sub_s(SCALE as int, fx_mul_s(fx_div_s(x2, 42 * SCALE as int), t4));
    let t2 = fx_sub_s(SCALE as int, fx_mul_s(fx_div_s(x2, 20 * SCALE as int), t3));
    let t1 = fx_sub_s(SCALE as int, fx_mul_s(fx_div_s(x2, 6 * SCALE as int), t2));
    fx_mul_s(x, t1)
}

/// Angle folded into `[0, 2 pi)`.
pub open spec fn fold_turn_s(x: int) -> int {
    let r = trem(x, TWO_PI_RAW as int);
    if r < 0 {
        r + TWO_PI_RAW
    } else {
        r
    }
}

/// Raw sine of a raw angle in radians: fold into one turn, mirror into
/// the quarter-turn range, apply the polynomial.
pub open spec fn sin_s(x: int) -> int {
    let r = fold_turn_s(x);
    if r < HALF_PI_RAW {
        sin_core_s(r)
    } else if r <= PI_RAW + HALF_PI_RAW {
        sin_core_s(PI_RAW - r)
    } else {
        sin_core_s(r - TWO_PI_RAW)
    }
}

/// Raw cosine: the sine a quarter turn ahead.
pub open spec fn cos_s(x: int) -> int {
    sin_s(fx_add_s(x, HALF_PI_RAW as int))
}

fn sin_core(x: i64) -> (r: i64)
    ensures
        r as int == sin_core_s(x as int),
{
    let x2 = fx_mul(x, x);
    let t4 = fx_sub(SCALE, fx_div(x2, 72 * SCALE));
    let t3 = fx_sub(SCALE, fx_mul(fx_div(x2, 42 * SCALE), t4));
    let t2 = fx_sub(SCALE, fx_mul(fx_div(x2, 20 * SCALE), t3));
    let t1 = fx_sub(SCALE, fx_mul(fx_div(x2, 6 * SCALE), t2));
    fx_mul(x, t1)
}

/// Sine of a raw angle in radians.
pub fn sin_fx(x: i64) -> (r: i64)
    ensures
        r as int == sin_s(x as int),
{
    let m = x % TWO_PI_RAW;
    let r = if m < 0 {
        m + TWO_PI_RAW
    } else {
        m
    };
    if r < HALF_PI_RAW {
        sin_core(r)
    } else if r <= PI_RAW + HALF_PI_RAW {
        sin_core(PI_RAW - r)
    } else {
        sin_core(r - TWO_PI_RAW)
    }
}

/// Cosine of a raw angle in radians.
pub fn cos_fx(x: i64) -> (r: i64)
    ensures
        r as int == cos_s(x as int),
{
    sin_fx(fx_add(x, HALF_PI_RAW))
}

/// Tangent of a raw angle in radians: sine over cosine.
pub fn tan_fx(x: i64) -> (r: i64)
    ensures
        r as int == fx_div_s(sin_s(x as int), cos_s(x as int)),
{
    fx_div(sin_fx(x), cos_fx(x))
}

} // verus!
