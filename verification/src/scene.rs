//! Discrete scene actions: ball reset, table reset, table nudge.
//!
//! Each action is gated on a "just pressed this frame" key edge.  A reset
//! rewrites a body's pose and zeroes its velocities directly; a nudge is a
//! fire-and-forget impulse command handed to the physics engine.  The
//! actions are independent and apply to every body of the matching kind; an
//! empty set of bodies makes the action a silent no-op.

use vstd::prelude::*;
use crate::math::{QuatFx, Vec3Fx, vec3_zero_spec};
use crate::playfield::{
    ball_start_position, ball_start_spec, table_start_position, table_start_spec, table_tilt,
    table_tilt_spec,
};

verus! {

/// Magnitude of the nudge impulse: 5.0 force-units.
pub const NUDGE_STRENGTH: i64 = 5_000_000;

/// Depth component of the nudge impulse: the full strength along negative z.
pub const NUDGE_IMPULSE_Z: i64 = -5_000_000;

/// The full dynamic state of one tracked rigid body, as the controller sees
/// it: pose plus linear and angular velocity, all in micro-units.
#[derive(Clone, Copy, Debug, PartialEq, Eq, Structural)]
pub struct BodyState {
    /// World position.
    pub position: Vec3Fx,
    /// World rotation.
    pub rotation: QuatFx,
    /// Linear velocity.
    pub linear_velocity: Vec3Fx,
    /// Angular velocity.
    pub angular_velocity: Vec3Fx,
}

/// One frame's key edges: true only on the frame the key went down.
#[derive(Clone, Copy, Debug, PartialEq, Eq, Structural)]
pub struct ResetKeys {
    /// Ball-reset key (B) was just pressed.
    pub ball_reset: bool,
    /// Table-reset key (T) was just pressed.
    pub table_reset: bool,
    /// Nudge key (Space) was just pressed.
    pub nudge: bool,
}

/// A one-shot impulse for the physics engine to apply to a table body on its
/// next integration step.
#[derive(Clone, Copy, Debug, PartialEq, Eq, Structural)]
pub struct ImpulseCommand {
    /// The impulse vector, micro-units.
    pub impulse: Vec3Fx,
}

/// The nudge impulse: full strength along the negative depth axis.
pub open spec fn nudge_impulse_spec() -> Vec3Fx {
    Vec3Fx { x: 0, y: 0, z: NUDGE_IMPULSE_Z }
}

/// What a ball reset makes of a ball's state: the fixed start position,
/// both velocities zero, and the rotation kept (a sphere's orientation is
/// visually irrelevant).
pub open spec fn ball_reset_spec(s: BodyState) -> BodyState {
    BodyState {
        position: ball_start_spec(),
        rotation: s.rotation,
        linear_velocity: vec3_zero_spec(),
        angular_velocity: vec3_zero_spec(),
    }
}

/// What a table reset makes of a table's state: the fixed start position,
/// the resting tilt rotation, and both velocities zero.
pub open spec fn table_reset_spec(s: BodyState) -> BodyState {
    BodyState {
        position: table_start_spec(),
        rotation: table_tilt_spec(),
        linear_velocity: vec3_zero_spec(),
        angular_velocity: vec3_zero_spec(),
    }
}

/// Resets one ball body.
pub fn ball_reset(s: &BodyState) -> (r: BodyState)
    ensures
        r == ball_reset_spec(*s),
{
    BodyState {
        position: ball_start_position(),
        rotation: s.rotation,
        linear_velocity: Vec3Fx::zero(),
        angular_velocity: Vec3Fx::zero(),
    }
}

/// Resets one table body.
pub fn table_reset(s: &BodyState) -> (r: BodyState)
    ensures
        r == table_reset_spec(*s),
{
    BodyState {
        position: table_start_position(),
        rotation: table_tilt(),
        linear_velocity: Vec3Fx::zero(),
        angular_velocity: Vec3Fx::zero(),
    }
}

/// Builds the one nudge impulse command.
pub fn nudge_impulse() -> (r: ImpulseCommand)
    ensures
        r.impulse == nudge_impulse_spec(),
{
    ImpulseCommand { impulse: Vec3Fx { x: 0, y: 0, z: NUDGE_IMPULSE_Z } }
}

/// One frame's outcome for the scene controller: the new states of every
/// ball and table body, and the impulse commands to hand to the physics
/// engine.
pub struct SceneStep {
    /// Ball bodies after this frame, in input order.
    pub balls: Vec<BodyState>,
    /// Table bodies after this frame, in input order.
    pub tables: Vec<BodyState>,
    /// One nudge impulse per table body if the nudge key was just pressed,
    /// otherwise none.
    pub impulses: Vec<ImpulseCommand>,
}

/// Runs the three discrete actions for one frame over every tracked body.
///
/// Each action fires only on its key edge; a held key without a new edge
/// does nothing, and an empty body set leaves that action a silent no-op.
pub fn scene_step(keys: &ResetKeys, balls: &Vec<BodyState>, tables: &Vec<BodyState>) -> (r:
    SceneStep)
    ensures
        r.balls@.len() == balls@.len(),
        r.tables@.len() == tables@.len(),
        forall|i: int|
            0 <= i < balls@.len() ==> r.balls@[i] == (if keys.ball_reset {
                ball_reset_spec(balls@[i])
            } else {
                balls@[i]
            }),
        forall|i: int|
            0 <= i < tables@.len() ==> r.tables@[i] == (if keys.table_reset {
                table_reset_spec(tables@[i])
            } else {
                tables@[i]
            }),
        keys.nudge ==> r.impulses@.len() == tables@.len(),
        !keys.nudge ==> r.impulses@.len() == 0,
        forall|i: int|
            0 <= i < r.impulses@.len() ==> r.impulses@[i].impulse == nudge_impulse_spec(),
{
    let mut new_balls: Vec<BodyState> = Vec::new();
    let mut i: usize = 0;
    while i < balls.len()
        invariant
            i <= balls@.len(),
            new_balls@.len() == i,
            forall|j: int|
                0 <= j < i ==> new_balls@[j] == (if keys.ball_reset {
                    ball_reset_spec(balls@[j])
                } else {
                    balls@[j]
                }),
        decreases balls@.len() - i,
    {
        let b = balls[i];
        if keys.ball_reset {
            new_balls.push(ball_reset(&b));
        } else {
            new_balls.push(b);
        }
        i = i + 1;
    }
    let mut new_tables: Vec<BodyState> = Vec::new();
    let mut impulses: Vec<ImpulseCommand> = Vec::new();
    let mut k: usize = 0;
    while k < tables.len()
        invariant
            k <= tables@.len(),
            new_tables@.len() == k,
            forall|j: int|
                0 <= j < k ==> new_tables@[j] == (if keys.table_reset {
                    table_reset_spec(tables@[j])
                } else {
                    tables@[j]
                }),
            keys.nudge ==> impulses@.len() == k,
            !keys.nudge ==> impulses@.len() == 0,
            forall|j: int| 0 <= j < impulses@.len() ==> impulses@[j].impulse == nudge_impulse_spec(),
        decreases tables@.len() - k,
    {
        let t = tables[k];
        if keys.table_reset {
            new_tables.push(table_reset(&t));
        } else {
            new_tables.push(t);
        }
        if keys.nudge {
            impulses.push(nudge_impulse());
        }
        k = k + 1;
    }
    SceneStep { balls: new_balls, tables: new_tables, impulses }
}

/// Law: resetting the ball twice in a row gives the same state as once; in
/// particular the position is the fixed start position and both velocities
/// are zero after either.
pub proof fn lemma_ball_reset_idempotent(s: BodyState)
    ensures
        ball_reset_spec(ball_reset_spec(s)) == ball_reset_spec(s),
        ball_reset_spec(s).position == ball_start_spec(),
        ball_reset_spec(s).linear_velocity == vec3_zero_spec(),
        ball_reset_spec(s).angular_velocity == vec3_zero_spec(),
{
}

/// Law: a table reset sets the rotation to exactly the resting tilt,
/// whatever the table's rotation was beforehand.
pub proof fn lemma_table_reset_rotation(s: BodyState)
    ensures
        table_reset_spec(s).rotation == table_tilt_spec(),
{
}

} // verus!
