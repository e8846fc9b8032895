//! Sample-by-sample checks of the mouse-look controller on concrete inputs.

use planar_motion::look::{LookState, MouseSample};

#[test]
fn new_state_is_level_and_unread() {
    let s = LookState::new();
    assert_eq!(s.pitch, 0);
    assert_eq!(s.yaw, 0);
    assert_eq!(s.consumed, 0);
}

#[test]
fn one_sample_turns_the_yaw() {
    // Sensitivity 0.00015, window 800x600 (scale 600), one sample dx=100:
    // yaw falls by (0.00015 * 100 * 600) degrees = 9 degrees, about
    // 0.157080 radians; the pitch is untouched.
    let mut s = LookState::new();
    let samples = vec![MouseSample { dx: 100, dy: 0 }];
    s.process_samples(150, &samples, true, 800, 600);
    assert_eq!(s.yaw, -157_079);
    assert_eq!(s.pitch, 0);
    assert_eq!(s.consumed, 1);
}

#[test]
fn window_scale_uses_the_smaller_dimension() {
    let mut wide = LookState::new();
    let mut tall = LookState::new();
    let samples = vec![MouseSample { dx: 100, dy: 40 }];
    wide.process_samples(150, &samples, true, 800, 600);
    tall.process_samples(150, &samples, true, 600, 800);
    assert_eq!(wide.yaw, tall.yaw);
    assert_eq!(wide.pitch, tall.pitch);
}

#[test]
fn extreme_delta_clamps_the_pitch() {
    let mut s = LookState::new();
    // A single huge downward sweep asks for far more than a quarter turn.
    let samples = vec![MouseSample { dx: 0, dy: 1_000_000 }];
    s.process_samples(150, &samples, true, 800, 600);
    assert_eq!(s.pitch, -1_540_000);
    // A huge sweep the other way pins the opposite bound.
    let samples2 = vec![
        MouseSample { dx: 0, dy: 1_000_000 },
        MouseSample { dx: 0, dy: -1_000_000 },
    ];
    let mut s2 = LookState::new();
    s2.process_samples(150, &samples2, true, 800, 600);
    assert_eq!(s2.pitch, 1_540_000);
    assert!(s2.pitch.abs() <= 1_540_000);
}

#[test]
fn samples_apply_oldest_to_newest() {
    let big_down = MouseSample { dx: 0, dy: 1_000_000 };
    let small_up = MouseSample { dx: 0, dy: -100 };
    let mut a = LookState::new();
    a.process_samples(150, &vec![big_down, small_up], true, 800, 600);
    // The huge sweep clamps first, then the small one eases off the bound.
    assert_eq!(a.pitch, -1_382_921);
    let mut b = LookState::new();
    b.process_samples(150, &vec![small_up, big_down], true, 800, 600);
    // In the other order the huge sweep lands last and the clamp holds.
    assert_eq!(b.pitch, -1_540_000);
}

#[test]
fn uncaptured_cursor_consumes_without_turning() {
    let mut s = LookState::new();
    let samples = vec![MouseSample { dx: 100, dy: 100 }, MouseSample { dx: -40, dy: 7 }];
    s.process_samples(150, &samples, false, 800, 600);
    assert_eq!(s.yaw, 0);
    assert_eq!(s.pitch, 0);
    assert_eq!(s.consumed, 2);
}

#[test]
fn uncaptured_cursor_still_corrects_the_pitch() {
    let mut s = LookState::new();
    // A pitch that drifted out of range self-corrects on the next sample
    // even while the cursor is free.
    s.pitch = 5_000_000;
    let samples = vec![MouseSample { dx: 3, dy: 3 }];
    s.process_samples(150, &samples, false, 800, 600);
    assert_eq!(s.pitch, 1_540_000);
}

#[test]
fn a_sample_is_never_consumed_twice() {
    let mut s = LookState::new();
    let samples = vec![MouseSample { dx: 100, dy: 0 }];
    s.process_samples(150, &samples, true, 800, 600);
    let after_first = s.yaw;
    // The same stream read again holds nothing new past the cursor.
    s.process_samples(150, &samples, true, 800, 600);
    assert_eq!(s.yaw, after_first);
    assert_eq!(s.consumed, 1);
}

#[test]
fn only_the_unread_tail_is_applied() {
    let mut s = LookState::new();
    let first = vec![MouseSample { dx: 100, dy: 0 }];
    s.process_samples(150, &first, true, 800, 600);
    // The stream grows by one sample; only the new one turns the camera.
    let grown = vec![MouseSample { dx: 100, dy: 0 }, MouseSample { dx: -100, dy: 0 }];
    s.process_samples(150, &grown, true, 800, 600);
    assert_eq!(s.yaw, 0);
    assert_eq!(s.consumed, 2);
}

#[test]
fn zero_size_window_skips_the_rotation() {
    let mut s = LookState::new();
    let samples = vec![MouseSample { dx: 100, dy: 100 }];
    s.process_samples(150, &samples, true, 0, 600);
    assert_eq!(s.yaw, 0);
    assert_eq!(s.pitch, 0);
    assert_eq!(s.consumed, 1);
}

#[test]
fn yaw_wraps_within_one_turn() {
    let mut s = LookState::new();
    // Ten full-screen sweeps: the yaw stays within one turn of zero.
    let mut samples: Vec<MouseSample> = Vec::new();
    for _ in 0..10 {
        samples.push(MouseSample { dx: 1_000_000, dy: 0 });
    }
    s.process_samples(150, &samples, true, 800, 600);
    assert!(s.yaw.abs() < 6_283_185);
    assert_eq!(s.consumed, 10);
}
