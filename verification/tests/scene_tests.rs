use pinball_control::math::{QuatFx, Vec3Fx};
use pinball_control::scene::{
    ball_reset, nudge_impulse, scene_step, table_reset, BodyState, ResetKeys, NUDGE_STRENGTH,
};

fn moving_ball() -> BodyState {
    BodyState {
        position: Vec3Fx { x: 401_000, y: 22_000, z: 913_500 },
        rotation: QuatFx { x: 120_000, y: -330_000, z: 5_000, w: 935_000 },
        linear_velocity: Vec3Fx { x: -50_000, y: 0, z: 275_000 },
        angular_velocity: Vec3Fx { x: 9_000, y: 1_000, z: -4_000 },
    }
}

fn drifted_table() -> BodyState {
    BodyState {
        position: Vec3Fx { x: 260_000, y: 64_000, z: 531_000 },
        rotation: QuatFx { x: 91_000, y: 44_000, z: -12_000, w: 994_000 },
        linear_velocity: Vec3Fx { x: 1_000, y: -2_000, z: 0 },
        angular_velocity: Vec3Fx { x: 0, y: 3_000, z: 500 },
    }
}

#[test]
fn ball_reset_restores_start_state() {
    let r = ball_reset(&moving_ball());
    assert_eq!(r.position, Vec3Fx { x: 257_175, y: 500_000, z: 13_500 });
    assert_eq!(r.linear_velocity, Vec3Fx { x: 0, y: 0, z: 0 });
    assert_eq!(r.angular_velocity, Vec3Fx { x: 0, y: 0, z: 0 });
    // The sphere's orientation is deliberately left alone.
    assert_eq!(r.rotation, moving_ball().rotation);
}

#[test]
fn ball_reset_is_idempotent() {
    let once = ball_reset(&moving_ball());
    let twice = ball_reset(&once);
    assert_eq!(twice, once);
}

#[test]
fn table_reset_restores_tilted_rest_pose() {
    let r = table_reset(&drifted_table());
    assert_eq!(r.position, Vec3Fx { x: 257_175, y: 70_000, z: 530_340 });
    // Exactly the 6.5-degree tilt about the lateral axis, whatever the
    // rotation was beforehand.
    assert_eq!(r.rotation, QuatFx { x: 56_693, y: 0, z: 0, w: 998_392 });
    assert_eq!(r.linear_velocity, Vec3Fx { x: 0, y: 0, z: 0 });
    assert_eq!(r.angular_velocity, Vec3Fx { x: 0, y: 0, z: 0 });
}

#[test]
fn nudge_impulse_points_down_the_depth_axis() {
    let c = nudge_impulse();
    assert_eq!(c.impulse, Vec3Fx { x: 0, y: 0, z: -5_000_000 });
    assert_eq!(c.impulse.z.abs(), NUDGE_STRENGTH);
}

#[test]
fn nudge_issues_one_impulse_per_table() {
    let keys = ResetKeys { ball_reset: false, table_reset: false, nudge: true };
    let tables = vec![drifted_table(), drifted_table()];
    let r = scene_step(&keys, &vec![moving_ball()], &tables);
    assert_eq!(r.impulses.len(), 2);
    for c in &r.impulses {
        assert_eq!(c.impulse, Vec3Fx { x: 0, y: 0, z: -5_000_000 });
    }
    // Without a reset edge, every body is untouched.
    assert_eq!(r.balls, vec![moving_ball()]);
    assert_eq!(r.tables, tables);
}

#[test]
fn held_key_without_new_edge_issues_nothing() {
    let keys = ResetKeys { ball_reset: false, table_reset: false, nudge: false };
    let r = scene_step(&keys, &vec![moving_ball()], &vec![drifted_table()]);
    assert_eq!(r.impulses.len(), 0);
    assert_eq!(r.balls, vec![moving_ball()]);
    assert_eq!(r.tables, vec![drifted_table()]);
}

#[test]
fn resets_apply_to_every_matching_body() {
    let keys = ResetKeys { ball_reset: true, table_reset: true, nudge: false };
    let balls = vec![moving_ball(), ball_reset(&moving_ball())];
    let r = scene_step(&keys, &balls, &vec![drifted_table()]);
    assert_eq!(r.balls.len(), 2);
    for b in &r.balls {
        assert_eq!(b.position, Vec3Fx { x: 257_175, y: 500_000, z: 13_500 });
        assert_eq!(b.linear_velocity, Vec3Fx { x: 0, y: 0, z: 0 });
        assert_eq!(b.angular_velocity, Vec3Fx { x: 0, y: 0, z: 0 });
    }
    assert_eq!(r.tables[0], table_reset(&drifted_table()));
    assert_eq!(r.impulses.len(), 0);
}

#[test]
fn actions_over_no_bodies_are_silent_no_ops() {
    let keys = ResetKeys { ball_reset: true, table_reset: true, nudge: true };
    let r = scene_step(&keys, &vec![], &vec![]);
    assert_eq!(r.balls.len(), 0);
    assert_eq!(r.tables.len(), 0);
    assert_eq!(r.impulses.len(), 0);
}
