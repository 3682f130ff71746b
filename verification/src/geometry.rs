//! Points of the world plane and exact distance comparisons.

use vstd::prelude::*;

verus! {

/// A point of the world plane. Coordinates are in thousandths of a world
/// unit.
#[derive(Clone, Copy, Debug, PartialEq, Eq, Structural)]
pub struct WorldPos {
    pub x: i32,
    pub y: i32,
}

/// Squared Euclidean distance between two points.
pub open spec fn dist_sq(a: WorldPos, b: WorldPos) -> int {
    (a.x - b.x) * (a.x - b.x) + (a.y - b.y) * (a.y - b.y)
}

/// The distance between `a` and `b` is strictly below `reach`.
pub open spec fn closer_than(a: WorldPos, b: WorldPos, reach: int) -> bool {
    dist_sq(a, b) < reach * reach
}

/// The distance between `a` and `b` is at most `reach`.
pub open spec fn within(a: WorldPos, b: WorldPos, reach: int) -> bool {
    dist_sq(a, b) <= reach * reach
}

/// Absolute difference of two coordinates.
fn coordinate_gap(p: i32, q: i32) -> (gap: u64)
    ensures
        gap == if p >= q { p - q } else { q - p },
        gap < 0x1_0000_0000,
{
    let diff: i64 = p as i64 - q as i64;
    if diff >= 0 {
        diff as u64
    } else {
        (-diff) as u64
    }
}

/// Squared distance between two points; never overflows.
pub fn distance_squared(a: WorldPos, b: WorldPos) -> (d: u128)
    ensures
        d == dist_sq(a, b),
        d <= 0x2_0000_0000_0000_0000,
{
    let gx: u128 = coordinate_gap(a.x, b.x) as u128;
    let gy: u128 = coordinate_gap(a.y, b.y) as u128;
    assert(gx * gx <= 0x1_0000_0000_0000_0000 && gx * gx == (a.x - b.x) * (a.x - b.x))
        by (nonlinear_arith)
        requires
            gx < 0x1_0000_0000,
            gx == a.x - b.x || gx == b.x - a.x,
    ;
    assert(gy * gy <= 0x1_0000_0000_0000_0000 && gy * gy == (a.y - b.y) * (a.y - b.y))
        by (nonlinear_arith)
        requires
            gy < 0x1_0000_0000,
            gy == a.y - b.y || gy == b.y - a.y,
    ;
    gx * gx + gy * gy
}

/// Whether `a` lies strictly closer to `b` than `reach`.
pub fn is_closer_than(a: WorldPos, b: WorldPos, reach: u32) -> (r: bool)
    ensures
        r == closer_than(a, b, reach as int),
{
    let d: u128 = distance_squared(a, b);
    let t: u128 = reach as u128;
    assert(t * t <= 0x1_0000_0000_0000_0000) by (nonlinear_arith)
        requires
            t < 0x1_0000_0000,
    ;
    d < t * t
}

/// Whether `a` lies at most `reach` from `b`.
pub fn is_within(a: WorldPos, b: WorldPos, reach: u32) -> (r: bool)
    ensures
        r == within(a, b, reach as int),
{
    let d: u128 = distance_squared(a, b);
    let t: u128 = reach as u128;
    assert(t * t <= 0x1_0000_0000_0000_0000) by (nonlinear_arith)
        requires
            t < 0x1_0000_0000,
    ;
    d <= t * t
}

/// The value nearest to `value` that an `i32` can hold.
pub open spec fn clamped(value: int) -> int {
    if value < i32::MIN {
        i32::MIN as int
    } else if value > i32::MAX {
        i32::MAX as int
    } else {
        value
    }
}

/// The coordinate nearest to `value` that the world has.
pub fn clamp(value: i64) -> (r: i32)
    ensures
        r == clamped(value as int),
{
    if value < i32::MIN as i64 {
        i32::MIN
    } else if value > i32::MAX as i64 {
        i32::MAX
    } else {
        value as i32
    }
}

} // verus!
