//! Frame-by-frame checks of the planar motion controller on concrete inputs.

use planar_motion::motion::{target_velocity, resolve_relative, KeySet, PlayerMove};

fn held(forward: bool, back: bool, left: bool, right: bool, jump: bool) -> KeySet {
    KeySet { forward, back, left, right, jump }
}

#[test]
fn default_matches_spawn_tuning() {
    let m = PlayerMove::default();
    assert_eq!(m.sensitivity, 150);
    assert_eq!(m.speed, 2_000_000);
    assert_eq!(m.speed_x, 0);
    assert_eq!(m.speed_z, 0);
    assert_eq!(m.accel, 10_000_000);
    assert_eq!(m.jump_v, 2_000_000);
    assert!(!m.jumping);
}

#[test]
fn single_key_target_is_diagonal_scaled() {
    // Forward alone is a diagonal of the key layout: both components live,
    // each scaled by 1/sqrt(2): 3_000_000 * 70710678 / 100000000.
    let cap: i64 = 3_000_000;
    let (tx, tz) = target_velocity(cap, &held(true, false, false, false, false));
    assert_eq!(tx, -2_121_320);
    assert_eq!(tz, -2_121_320);
    // The magnitude is the cap within truncation error, not cap * sqrt(2).
    let sq: i64 = tx * tx + tz * tz;
    assert!(sq <= cap * cap);
    assert!(sq >= (cap - 1) * (cap - 1));
}

#[test]
fn forward_left_target_is_full_cap_exactly() {
    let cap: i64 = 3_000_000;
    let (tx, tz) = target_velocity(cap, &held(true, false, true, false, false));
    assert_eq!(tx, -cap);
    assert_eq!(tz, 0);
    assert_eq!(tx * tx + tz * tz, cap * cap);
}

#[test]
fn opposing_keys_cancel() {
    let cap: i64 = 2_000_000;
    let both = target_velocity(cap, &held(true, true, false, false, false));
    assert_eq!(both, (0, 0));
    let all = target_velocity(cap, &held(true, true, true, true, false));
    assert_eq!(all, (0, 0));
    // Forward and back cancel even while another key stays held.
    let with_left = target_velocity(cap, &held(true, true, true, false, false));
    let left_alone = target_velocity(cap, &held(false, false, true, false, false));
    assert_eq!(with_left, left_alone);
}

#[test]
fn counter_strafe_snaps_through_zero() {
    let mut m = PlayerMove::new(150, 2_000_000, 10_000_000, 0);
    m.speed_x = -1_500_000;
    // Back and right target +cap on X; one hundredth of a second allows a
    // step of 100_000.
    let out = m.update(&held(false, true, false, true, false), 10_000, false);
    assert_eq!(m.speed_x, 100_000);
    assert_eq!(out.delta_x, 1_000);
}

#[test]
fn gradual_reversal_does_not_happen() {
    let mut m = PlayerMove::new(150, 2_000_000, 10_000_000, 0);
    m.speed_x = -1_500_000;
    let before = m.speed_x;
    m.update(&held(false, true, false, true, false), 10_000, false);
    // Without the snap the speed would only have crept up by the step.
    assert_ne!(m.speed_x, before + 100_000);
    assert!(m.speed_x >= 0);
}

#[test]
fn single_step_convergence_lands_exactly() {
    let mut m = PlayerMove::new(150, 2_000_000, 10_000_000, 0);
    m.speed_x = 1_900_000;
    // Back and right target +cap on X; 15 ms allow a step of 150_000,
    // larger than the 100_000 gap: the speed snaps to the target.
    m.update(&held(false, true, false, true, false), 15_000, false);
    assert_eq!(m.speed_x, 2_000_000);
}

#[test]
fn forward_held_scenario() {
    // Cap 3.0, acceleration 10.0, forward held, dt 0.1 s from rest: the
    // target is (-3, -3)/sqrt(2) and each tick moves the speed by 1.0
    // toward it, snapping on the third tick.
    let mut m = PlayerMove::new(150, 3_000_000, 10_000_000, 0);
    let keys = held(true, false, false, false, false);
    let dt: i64 = 100_000;
    let mut pos_x: i64 = 0;
    let mut pos_z: i64 = 0;

    let out1 = m.update(&keys, dt, false);
    assert_eq!(m.speed_x, -1_000_000);
    assert_eq!(out1.delta_x, -100_000);
    pos_x += out1.delta_x;
    pos_z += out1.delta_z;

    let out2 = m.update(&keys, dt, false);
    assert_eq!(m.speed_x, -2_000_000);
    assert_eq!(out2.delta_x, -200_000);
    pos_x += out2.delta_x;
    pos_z += out2.delta_z;

    let out3 = m.update(&keys, dt, false);
    assert_eq!(m.speed_x, -2_121_320);
    assert_eq!(m.speed_z, -2_121_320);
    assert_eq!(out3.delta_x, -212_132);
    pos_x += out3.delta_x;
    pos_z += out3.delta_z;

    // The position advanced by the per-tick sum, not by target * elapsed.
    assert_eq!(pos_x, -512_132);
    assert_eq!(pos_z, -512_132);
    assert_ne!(pos_x, -2_121_320 * 300_000 / 1_000_000);
}

#[test]
fn idle_decay_reaches_exact_rest() {
    let mut m = PlayerMove::new(150, 2_000_000, 10_000_000, 0);
    m.speed_x = 2_000_000;
    m.speed_z = -2_000_000;
    let keys = KeySet::released();
    let dt: i64 = 100_000;
    m.update(&keys, dt, false);
    assert_eq!(m.speed_x, 1_000_000);
    assert_eq!(m.speed_z, -1_000_000);
    m.update(&keys, dt, false);
    assert_eq!(m.speed_x, 0);
    assert_eq!(m.speed_z, 0);
    // Rest is stable, not dithering.
    m.update(&keys, dt, false);
    assert_eq!(m.speed_x, 0);
    assert_eq!(m.speed_z, 0);
}

#[test]
fn speeds_stay_capped_on_a_stalled_frame() {
    let mut m = PlayerMove::new(150, 2_000_000, 10_000_000, 0);
    m.speed_x = -2_000_000;
    // A full second: the allowed step dwarfs every gap, so the axes land
    // exactly on the target, never beyond the cap.
    m.update(&held(false, true, false, true, false), 1_000_000, false);
    assert_eq!(m.speed_x, 2_000_000);
    assert_eq!(m.speed_z, 0);
    assert!(m.speed_x.abs() <= m.speed);
    assert!(m.speed_z.abs() <= m.speed);
}

#[test]
fn jump_latch_blocks_refire_until_grounded() {
    let mut m = PlayerMove::default();
    let jump_held = held(false, false, false, false, true);
    let out1 = m.update(&jump_held, 10_000, false);
    assert_eq!(out1.jump, Some(2_000_000));
    assert!(m.jumping);
    // Held in the air: the latch blocks a second launch.
    let out2 = m.update(&jump_held, 10_000, false);
    assert_eq!(out2.jump, None);
    assert!(m.jumping);
    // Ground contact clears the latch, so the held key fires again.
    let out3 = m.update(&jump_held, 10_000, true);
    assert_eq!(out3.jump, Some(2_000_000));
    assert!(m.jumping);
    // Ground contact without the key just clears the latch.
    let out4 = m.update(&KeySet::released(), 10_000, true);
    assert_eq!(out4.jump, None);
    assert!(!m.jumping);
}

#[test]
fn resolve_relative_faces_the_forward_vector() {
    // Facing +X: forward motion goes to +X, rightward motion to +Z.
    let w = resolve_relative(500_000, 700_000, 1_000_000, 0);
    assert_eq!(w, (700_000, 500_000));
    // Facing +Z: forward motion goes to +Z, rightward motion to -X.
    let w = resolve_relative(500_000, 700_000, 0, 1_000_000);
    assert_eq!(w, (-500_000, 700_000));
}
