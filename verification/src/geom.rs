//! Fixed-point plane geometry for the game world.
//!
//! World coordinates use 1000 fixed-point steps per world unit, so a
//! radius of 30 units is 30_000 steps.  All proximity rules of the
//! game compare squared distances, which keeps every computation in
//! `i64` integers; `POS_LIMIT` bounds coordinates so that a squared
//! distance can never overflow.

use vstd::prelude::*;

verus! {

/// Fixed-point steps per world unit.
pub const MILLI: i64 = 1000;

/// Bound on either coordinate of a point of the world.  The map of the
/// game is far smaller; the bound only serves the overflow proofs.
pub const POS_LIMIT: i64 = 1_000_000_000;

/// Bound on either coordinate of an intended knockback target: a
/// point of the world pushed out by at most one knockback step.
pub const TARGET_LIMIT: i64 = 1_000_100_000;

/// Largest radius (in fixed-point steps) that `within` accepts.
pub const RADIUS_LIMIT: i64 = 1_000_000;

/// A point or direction of the world plane, in fixed-point steps.
#[derive(Clone, Copy, PartialEq, Eq, Structural, Debug)]
pub struct Vec2Fx {
    pub x: i64,
    pub y: i64,
}

impl Vec2Fx {
    /// Both coordinates lie within `POS_LIMIT`.
    pub open spec fn in_bounds(self) -> bool {
        &&& -POS_LIMIT <= self.x <= POS_LIMIT
        &&& -POS_LIMIT <= self.y <= POS_LIMIT
    }

    /// Both coordinates lie within `TARGET_LIMIT`; holds of every
    /// in-bounds point and of every intended knockback target.
    pub open spec fn near_bounds(self) -> bool {
        &&& -TARGET_LIMIT <= self.x <= TARGET_LIMIT
        &&& -TARGET_LIMIT <= self.y <= TARGET_LIMIT
    }

    /// Squared distance between two points, as a mathematical integer.
    pub open spec fn spec_dist_sq(a: Vec2Fx, b: Vec2Fx) -> int {
        (a.x - b.x) * (a.x - b.x) + (a.y - b.y) * (a.y - b.y)
    }

    /// `a` lies strictly within `radius` of `b`.
    pub open spec fn spec_within(a: Vec2Fx, b: Vec2Fx, radius: i64) -> bool {
        Self::spec_dist_sq(a, b) < radius * radius
    }

    pub fn new(x: i64, y: i64) -> (r: Vec2Fx)
        ensures
            r.x == x,
            r.y == y,
    {
        Vec2Fx { x, y }
    }

    /// The origin; also the "no knockback in flight" velocity.
    pub fn zero() -> (r: Vec2Fx)
        ensures
            r == (Vec2Fx { x: 0, y: 0 }),
    {
        Vec2Fx { x: 0, y: 0 }
    }

    /// Squared distance between two near-bounds points.
    pub fn dist_sq(a: Vec2Fx, b: Vec2Fx) -> (r: i64)
        requires
            a.near_bounds(),
            b.near_bounds(),
        ensures
            r == Self::spec_dist_sq(a, b),
    {
        let dx: i64 = a.x - b.x;
        let dy: i64 = a.y - b.y;
        proof {
            assert(dx * dx <= 4_001_600_040_000_000_000 && dx * dx >= 0) by (nonlinear_arith)
                requires -2_000_200_000 <= dx <= 2_000_200_000;
            assert(dy * dy <= 4_001_600_040_000_000_000 && dy * dy >= 0) by (nonlinear_arith)
                requires -2_000_200_000 <= dy <= 2_000_200_000;
        }
        dx * dx + dy * dy
    }

    /// Whether `a` lies strictly within `radius` of `b`.
    pub fn within(a: Vec2Fx, b: Vec2Fx, radius: i64) -> (r: bool)
        requires
            a.near_bounds(),
            b.near_bounds(),
            0 <= radius <= RADIUS_LIMIT,
        ensures
            r == Self::spec_within(a, b, radius),
    {
        proof {
            assert(0 <= radius * radius <= 1_000_000_000_000) by (nonlinear_arith)
                requires 0 <= radius <= 1_000_000;
        }
        Self::dist_sq(a, b) < radius * radius
    }
}

} // verus!
