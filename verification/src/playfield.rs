//! Fixed geometry of the pinball scene.
//!
//! The playfield dimensions, the start poses of the ball and the table, and
//! the table's resting tilt are session constants; every controller decision
//! is stated against them.  All lengths are micro-units.

use vstd::prelude::*;
use crate::math::{QuatFx, Vec3Fx};

verus! {

/// Width of the playfield (0.51435 world units).
pub const PLAYFIELD_WIDTH: i64 = 514_350;

/// Length of the playfield (1.06068 world units).
pub const PLAYFIELD_LENGTH: i64 = 1_060_680;

/// Half the playfield width.
pub const HALF_PLAYFIELD_WIDTH: i64 = 257_175;

/// Half the playfield length.
pub const HALF_PLAYFIELD_LENGTH: i64 = 530_340;

/// Height of the table's start position above the floor (0.07 world units).
pub const PLAYFIELD_Y: i64 = 70_000;

/// Radius of the pinball (0.0135 world units).
pub const BALL_RADIUS: i64 = 13_500;

/// Height from which a reset drops the ball (0.50 world units).
pub const BALL_DROP_HEIGHT: i64 = 500_000;

/// The fixed world point that scroll-driven camera movement re-aims toward:
/// the center of the playfield at floor height.
pub open spec fn playfield_center_spec() -> Vec3Fx {
    Vec3Fx { x: HALF_PLAYFIELD_WIDTH, y: 0, z: HALF_PLAYFIELD_LENGTH }
}

/// The pose a ball reset restores: centered over the playfield width, at the
/// drop height, one ball radius along the depth axis.
pub open spec fn ball_start_spec() -> Vec3Fx {
    Vec3Fx { x: HALF_PLAYFIELD_WIDTH, y: BALL_DROP_HEIGHT, z: BALL_RADIUS }
}

/// The position a table reset restores: the playfield center raised to the
/// table's resting height.
pub open spec fn table_start_spec() -> Vec3Fx {
    Vec3Fx { x: HALF_PLAYFIELD_WIDTH, y: PLAYFIELD_Y, z: HALF_PLAYFIELD_LENGTH }
}

/// The table's resting rotation: a tilt of 6.5 degrees about the lateral
/// (x) axis.  The components are sine and cosine of the half angle, rounded
/// to micro-units.
pub open spec fn table_tilt_spec() -> QuatFx {
    QuatFx { x: 56_693, y: 0, z: 0, w: 998_392 }
}

/// Returns the fixed look-at target of the camera.
pub fn playfield_center() -> (r: Vec3Fx)
    ensures
        r == playfield_center_spec(),
{
    Vec3Fx { x: HALF_PLAYFIELD_WIDTH, y: 0, z: HALF_PLAYFIELD_LENGTH }
}

/// Returns the ball's start position.
pub fn ball_start_position() -> (r: Vec3Fx)
    ensures
        r == ball_start_spec(),
{
    Vec3Fx { x: HALF_PLAYFIELD_WIDTH, y: BALL_DROP_HEIGHT, z: BALL_RADIUS }
}

/// Returns the table's start position.
pub fn table_start_position() -> (r: Vec3Fx)
    ensures
        r == table_start_spec(),
{
    Vec3Fx { x: HALF_PLAYFIELD_WIDTH, y: PLAYFIELD_Y, z: HALF_PLAYFIELD_LENGTH }
}

/// Returns the table's resting tilt rotation.
pub fn table_tilt() -> (r: QuatFx)
    ensures
        r == table_tilt_spec(),
{
    QuatFx { x: 56_693, y: 0, z: 0, w: 998_392 }
}

} // verus!
