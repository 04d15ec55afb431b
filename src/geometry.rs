//! Exact distance tests on integer coordinates.

use vstd::prelude::*;

verus! {

/// Whether point `(ax, ay)` lies within Euclidean distance `r` of `(bx, by)`
/// (boundary included).
pub open spec fn within_radius(ax: int, ay: int, bx: int, by: int, r: int) -> bool {
    (ax - bx) * (ax - bx) + (ay - by) * (ay - by) <= r * r
}

/// Absolute difference of two coordinates; it always fits in a `u64`.
fn abs_diff(a: i64, b: i64) -> (d: u64)
    ensures
        d as int == if a >= b { a - b } else { b - a },
{
    if a >= b {
        (a as i128 - b as i128) as u64
    } else {
        (b as i128 - a as i128) as u64
    }
}

fn square(d: u64) -> (s: u128)
    ensures
        s as int == d as int * d as int,
{
    proof {
        assert(d as int * d as int <= u64::MAX as int * u64::MAX as int) by (nonlinear_arith)
            requires
                0 <= d <= u64::MAX,
        ;
    }
    (d as u128) * (d as u128)
}

/// Exact, overflow-free test of `within_radius`.
pub fn is_within_radius(ax: i64, ay: i64, bx: i64, by: i64, r: u64) -> (b: bool)
    ensures
        b == within_radius(ax as int, ay as int, bx as int, by as int, r as int),
{
    let dx = abs_diff(ax, bx);
    let dy = abs_diff(ay, by);
    let dx2 = square(dx);
    let dy2 = square(dy);
    let r2 = square(r);
    proof {
        let ddx = ax as int - bx as int;
        let ddy = ay as int - by as int;
        assert(dx as int * dx as int == ddx * ddx) by (nonlinear_arith)
            requires
                dx as int == ddx || dx as int == -ddx,
        ;
        assert(dy as int * dy as int == ddy * ddy) by (nonlinear_arith)
            requires
                dy as int == ddy || dy as int == -ddy,
        ;
    }
    dx2 <= r2 && dy2 <= r2 - dx2
}

} // verus!
