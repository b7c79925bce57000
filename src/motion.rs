//! Distances covered in one tick, and saturation of coordinates.
use vstd::prelude::*;
use crate::config::MICROS_PER_SEC;

verus! {

/// Distance covered at `speed` (milli-units per second) in `dt` microseconds,
/// rounded down.
pub open spec fn spec_distance(speed: int, dt: int) -> int {
    speed * dt / 1_000_000
}

/// Signed displacement at velocity `v` over `dt`: the distance at `|v|`, rounded
/// towards zero, with the sign of `v`.
pub open spec fn spec_displacement(v: int, dt: int) -> int {
    if v < 0 {
        -spec_distance(-v, dt)
    } else {
        spec_distance(v, dt)
    }
}

/// The nearest value in `[lo, hi]`.
pub open spec fn clamp(v: int, lo: int, hi: int) -> int {
    if v < lo {
        lo
    } else if v > hi {
        hi
    } else {
        v
    }
}

/// The nearest value that an `i64` can hold.
pub open spec fn saturate(v: int) -> int {
    clamp(v, i64::MIN as int, i64::MAX as int)
}

/// A bound on every distance covered in one tick.
pub const DISTANCE_BOUND: u128 = 0x2000_0000_0000_0000_0000_0000_0000;

pub fn distance(speed: u64, dt: u64) -> (r: u128)
    ensures
        r == spec_distance(speed as int, dt as int),
        r < DISTANCE_BOUND,
{
    proof {
        assert(0 <= speed as int * dt as int <= u64::MAX as int * u64::MAX as int) by (nonlinear_arith);
        assert(u64::MAX as int * u64::MAX as int <= u128::MAX);
        assert(speed as int * dt as int / 1_000_000 <= speed as int * dt as int) by (nonlinear_arith)
            requires speed as int * dt as int >= 0;
    }
    let p: u128 = speed as u128 * dt as u128;
    let r: u128 = p / MICROS_PER_SEC as u128;
    proof {
        assert(r < DISTANCE_BOUND) by (nonlinear_arith)
            requires r == p / 1_000_000, p <= u64::MAX as int * u64::MAX as int;
    }
    r
}

/// `v` moved by `d`, saturated to the range of `i64`.
pub fn offset(v: i64, d: i128) -> (r: i64)
    requires
        -(DISTANCE_BOUND as int) < d < DISTANCE_BOUND,
    ensures
        r == saturate(v + d),
{
    let s: i128 = v as i128 + d;
    if s < i64::MIN as i128 {
        i64::MIN
    } else if s > i64::MAX as i128 {
        i64::MAX
    } else {
        s as i64
    }
}

/// `v` moved by the displacement at velocity `vel` over `dt`, saturated.
pub fn displace(v: i64, vel: i64, dt: u64) -> (r: i64)
    ensures
        r == saturate(v + spec_displacement(vel as int, dt as int)),
{
    if vel < 0 {
        let m: u64 = (0 - (vel as i128)) as u64;
        let d: u128 = distance(m, dt);
        offset(v, -(d as i128))
    } else {
        let d: u128 = distance(vel as u64, dt);
        offset(v, d as i128)
    }
}

} // verus!
