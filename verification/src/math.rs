//! Fixed-point vectors and quaternion components.
//!
//! Coordinates, velocities and quaternion components are carried as `i64`
//! micro-units (`1_000_000` per world unit), so that every controller step is
//! exact integer arithmetic.

use vstd::prelude::*;

verus! {

/// Largest coordinate magnitude (in micro-units) the controllers accept.
/// Far beyond any reachable scene position; it only keeps sums inside `i64`.
pub const COORD_LIMIT: i64 = 1_000_000_000_000_000;

/// A three-component vector in micro-units.
#[derive(Clone, Copy, Debug, PartialEq, Eq, Structural)]
pub struct Vec3Fx {
    pub x: i64,
    pub y: i64,
    pub z: i64,
}

/// The zero vector.
pub open spec fn vec3_zero_spec() -> Vec3Fx {
    Vec3Fx { x: 0, y: 0, z: 0 }
}

/// Whether every component of `v` is within the coordinate limit.
pub open spec fn vec3_in_range(v: Vec3Fx) -> bool {
    &&& -COORD_LIMIT <= v.x <= COORD_LIMIT
    &&& -COORD_LIMIT <= v.y <= COORD_LIMIT
    &&& -COORD_LIMIT <= v.z <= COORD_LIMIT
}

impl Vec3Fx {
    /// Builds the vector with the given components.
    pub fn new(x: i64, y: i64, z: i64) -> (r: Vec3Fx)
        ensures
            r == (Vec3Fx { x, y, z }),
    {
        Vec3Fx { x, y, z }
    }

    /// The zero vector: every component is zero.
    pub fn zero() -> (r: Vec3Fx)
        ensures
            r == vec3_zero_spec(),
    {
        Vec3Fx { x: 0, y: 0, z: 0 }
    }
}

/// A rotation as quaternion components in micro-units.
///
/// The controllers never compose or normalize quaternions; they only carry a
/// body's rotation through unchanged or overwrite it with a fixed constant,
/// so plain fixed-point components suffice.
#[derive(Clone, Copy, Debug, PartialEq, Eq, Structural)]
pub struct QuatFx {
    pub x: i64,
    pub y: i64,
    pub z: i64,
    pub w: i64,
}

impl QuatFx {
    /// Builds the quaternion with the given components.
    pub fn new(x: i64, y: i64, z: i64, w: i64) -> (r: QuatFx)
        ensures
            r == (QuatFx { x, y, z, w }),
    {
        QuatFx { x, y, z, w }
    }
}

} // verus!
