//! The free-orbiting player camera.
//!
//! Each frame the host hands the controller the camera's current position and
//! the frame's accumulated input, and receives the next position together
//! with a rotation update to carry out:
//!
//! * a nonzero wheel delta moves the camera vertically and re-aims it at the
//!   playfield center (a hard look-at that discards prior orientation drift);
//! * a drag with the primary button and the modifier held pans the position
//!   in world x/y without touching the rotation;
//! * a drag with the primary button alone orbits: yaw about the world up
//!   axis, then pitch about the camera's pre-yaw local right axis, both
//!   pivoting on the camera's own position, so the position never moves.
//!
//! Input deltas are milli-counts: one wheel line or one pointer pixel is
//! `1_000`, so fractional device deltas stay exact.

use vstd::prelude::*;
use crate::math::{Vec3Fx, vec3_in_range};
use crate::playfield::{playfield_center, playfield_center_spec};

verus! {

/// Height gained per milli-line of wheel scroll: 0.05 world units per line.
pub const SCROLL_SENSITIVITY: i64 = 50;

/// Micro-units of translation, or micro-radians of rotation, per milli-pixel
/// of pointer motion: 0.01 per pixel.
pub const DRAG_SENSITIVITY: i64 = 10;

/// Largest input delta magnitude (in milli-counts) the controller accepts.
/// Far beyond any real device's per-frame motion; it only keeps products
/// inside `i64`.
pub const DELTA_LIMIT: i64 = 1_000_000_000_000;

/// Whether a single input delta is within the accepted range.
pub open spec fn delta_in_range(d: i64) -> bool {
    -DELTA_LIMIT <= d <= DELTA_LIMIT
}

/// One frame's accumulated pointer-drag input: the summed motion delta in
/// milli-pixels and the two modifier states.
#[derive(Clone, Copy, Debug, PartialEq, Eq, Structural)]
pub struct PointerDrag {
    /// Primary (left) pointer button is held.
    pub primary_held: bool,
    /// Secondary modifier (ctrl) is held.
    pub modifier_held: bool,
    /// Summed horizontal pointer motion, milli-pixels.
    pub delta_x: i64,
    /// Summed vertical pointer motion, milli-pixels.
    pub delta_y: i64,
}

/// What the host must do to the camera's rotation this frame.
#[derive(Clone, Copy, Debug, PartialEq, Eq, Structural)]
pub enum RotationUpdate {
    /// Leave the rotation untouched.
    Keep,
    /// Rebuild the rotation from scratch so the camera faces `target` from
    /// its new position, with world up as the up vector.
    LookAt { target: Vec3Fx },
    /// Rotate in place: `yaw` micro-radians about the world up axis, then
    /// `pitch` micro-radians about the camera's local right axis as it was
    /// before the yaw, both around the camera's own position.
    Orbit { yaw: i64, pitch: i64 },
}

/// One frame's outcome for the camera: the next position and the rotation
/// update to apply.
#[derive(Clone, Copy, Debug, PartialEq, Eq, Structural)]
pub struct CameraStep {
    /// The camera's position after this frame.
    pub position: Vec3Fx,
    /// The rotation update to carry out.
    pub rotation: RotationUpdate,
}

/// The scroll behavior: a nonzero accumulated wheel delta raises the camera
/// by `delta * SCROLL_SENSITIVITY` and re-aims it at the playfield center; a
/// zero delta leaves everything unchanged.
pub open spec fn scroll_step_spec(position: Vec3Fx, wheel_delta: i64) -> CameraStep {
    if wheel_delta == 0 {
        CameraStep { position, rotation: RotationUpdate::Keep }
    } else {
        CameraStep {
            position: Vec3Fx {
                x: position.x,
                y: (position.y + wheel_delta * SCROLL_SENSITIVITY) as i64,
                z: position.z,
            },
            rotation: RotationUpdate::LookAt { target: playfield_center_spec() },
        }
    }
}

/// Whether this frame's drag input pans: primary button and modifier held,
/// with some pointer motion.
pub open spec fn pan_active(input: PointerDrag) -> bool {
    input.primary_held && input.modifier_held && !(input.delta_x == 0 && input.delta_y == 0)
}

/// Whether this frame's drag input orbits: primary button held without the
/// modifier, with some pointer motion.
pub open spec fn orbit_active(input: PointerDrag) -> bool {
    input.primary_held && !input.modifier_held && !(input.delta_x == 0 && input.delta_y == 0)
}

/// The drag behavior.  A pan moves the position by
/// `(-dx, +dy, 0) * DRAG_SENSITIVITY` and keeps the rotation; an orbit keeps
/// the position and turns in place by yaw `-dx * DRAG_SENSITIVITY` and pitch
/// `-dy * DRAG_SENSITIVITY`; anything else is a no-op.
pub open spec fn drag_step_spec(position: Vec3Fx, input: PointerDrag) -> CameraStep {
    if pan_active(input) {
        CameraStep {
            position: Vec3Fx {
                x: (position.x - input.delta_x * DRAG_SENSITIVITY) as i64,
                y: (position.y + input.delta_y * DRAG_SENSITIVITY) as i64,
                z: position.z,
            },
            rotation: RotationUpdate::Keep,
        }
    } else if orbit_active(input) {
        CameraStep {
            position,
            rotation: RotationUpdate::Orbit {
                yaw: (0 - input.delta_x * DRAG_SENSITIVITY) as i64,
                pitch: (0 - input.delta_y * DRAG_SENSITIVITY) as i64,
            },
        }
    } else {
        CameraStep { position, rotation: RotationUpdate::Keep }
    }
}

/// Runs the scroll behavior for one frame.
pub fn scroll_step(position: Vec3Fx, wheel_delta: i64) -> (r: CameraStep)
    requires
        vec3_in_range(position),
        delta_in_range(wheel_delta),
    ensures
        r == scroll_step_spec(position, wheel_delta),
{
    if wheel_delta == 0 {
        CameraStep { position, rotation: RotationUpdate::Keep }
    } else {
        let y: i64 = position.y + wheel_delta * SCROLL_SENSITIVITY;
        CameraStep {
            position: Vec3Fx { x: position.x, y, z: position.z },
            rotation: RotationUpdate::LookAt { target: playfield_center() },
        }
    }
}

/// Runs the drag behavior (pan or orbit) for one frame.
pub fn drag_step(position: Vec3Fx, input: PointerDrag) -> (r: CameraStep)
    requires
        vec3_in_range(position),
        delta_in_range(input.delta_x),
        delta_in_range(input.delta_y),
    ensures
        r == drag_step_spec(position, input),
{
    let moving = input.delta_x != 0 || input.delta_y != 0;
    if input.primary_held && input.modifier_held && moving {
        let x: i64 = position.x - input.delta_x * DRAG_SENSITIVITY;
        let y: i64 = position.y + input.delta_y * DRAG_SENSITIVITY;
        CameraStep {
            position: Vec3Fx { x, y, z: position.z },
            rotation: RotationUpdate::Keep,
        }
    } else if input.primary_held && !input.modifier_held && moving {
        let yaw: i64 = 0 - input.delta_x * DRAG_SENSITIVITY;
        let pitch: i64 = 0 - input.delta_y * DRAG_SENSITIVITY;
        CameraStep { position, rotation: RotationUpdate::Orbit { yaw, pitch } }
    } else {
        CameraStep { position, rotation: RotationUpdate::Keep }
    }
}

/// Law: a nonzero wheel delta always re-aims the camera at the playfield
/// center, whatever its position or prior rotation.
pub proof fn lemma_scroll_reaims_at_center(position: Vec3Fx, wheel_delta: i64)
    requires
        wheel_delta != 0,
    ensures
        scroll_step_spec(position, wheel_delta).rotation == (RotationUpdate::LookAt {
            target: playfield_center_spec(),
        }),
{
}

/// Law: a zero wheel delta changes nothing.
pub proof fn lemma_zero_scroll_is_no_op(position: Vec3Fx)
    ensures
        scroll_step_spec(position, 0) == (CameraStep { position, rotation: RotationUpdate::Keep }),
{
}

/// Law: a pan never changes the camera rotation.
pub proof fn lemma_pan_keeps_rotation(position: Vec3Fx, input: PointerDrag)
    requires
        pan_active(input),
    ensures
        drag_step_spec(position, input).rotation == RotationUpdate::Keep,
{
}

/// Law: an orbit never changes the camera position.
pub proof fn lemma_orbit_keeps_position(position: Vec3Fx, input: PointerDrag)
    requires
        orbit_active(input),
    ensures
        drag_step_spec(position, input).position == position,
{
}

/// Law: a drag frame with zero pointer delta is a no-op, whatever buttons
/// are held.
pub proof fn lemma_zero_drag_is_no_op(position: Vec3Fx, input: PointerDrag)
    requires
        input.delta_x == 0,
        input.delta_y == 0,
    ensures
        drag_step_spec(position, input) == (CameraStep {
            position,
            rotation: RotationUpdate::Keep,
        }),
{
}

} // verus!
