//! The planar motion controller: converts a pressed-key set into a smoothly
//! accelerating signed velocity along the two horizontal world axes, plus an
//! optional jump impulse, once per simulation frame.

use vstd::prelude::*;

use crate::units::{
    clamp_i64, mul_scaled, spec_abs, spec_clamp, spec_max, tdiv, tdiv_i64, DT_LIMIT, SCALE,
    SENS_LIMIT, TUNING_LIMIT,
};

verus! {

/// Numerator of the fixed-point approximation of `1 / sqrt(2)`, used to keep
/// diagonal motion at the speed cap rather than `cap * sqrt(2)`.
pub const INV_SQRT2_NUM: i64 = 70_710_678;

/// Denominator of the fixed-point approximation of `1 / sqrt(2)`.
pub const INV_SQRT2_DEN: i64 = 100_000_000;

/// The movement keys held down during one frame.
#[derive(Clone, Copy, PartialEq, Eq, Structural, Debug)]
pub struct KeySet {
    pub forward: bool,
    pub back: bool,
    pub left: bool,
    pub right: bool,
    pub jump: bool,
}

impl KeySet {
    /// A frame with no key held.
    pub fn released() -> (k: KeySet)
        ensures
            k == (KeySet { forward: false, back: false, left: false, right: false, jump: false }),
    {
        KeySet { forward: false, back: false, left: false, right: false, jump: false }
    }
}

/// 1 if the key is held, else 0.
pub open spec fn key_unit(k: bool) -> int {
    if k {
        1int
    } else {
        0int
    }
}

/// Net key contribution along world X: `back` and `right` push `+1` each,
/// `forward` and `left` push `-1` each, so opposing keys cancel additively.
pub open spec fn units_x(keys: KeySet) -> int {
    key_unit(keys.back) + key_unit(keys.right) - key_unit(keys.forward) - key_unit(keys.left)
}

/// Net key contribution along world Z: `back` and `left` push `+1` each,
/// `forward` and `right` push `-1` each.
pub open spec fn units_z(keys: KeySet) -> int {
    key_unit(keys.back) + key_unit(keys.left) - key_unit(keys.forward) - key_unit(keys.right)
}

/// One component of the target velocity: the net key contribution times the
/// cap, scaled down by `1 / sqrt(2)` when the other component is also live
/// (diagonal input), then clamped to `[-cap, cap]`.
pub open spec fn target_component(cap: int, u: int, other: int) -> int {
    let raw = u * cap;
    let scaled = if u != 0 && other != 0 {
        tdiv(raw * INV_SQRT2_NUM as int, INV_SQRT2_DEN as int)
    } else {
        raw
    };
    spec_clamp(scaled, -cap, cap)
}

/// Target velocity along world X for a key set and a speed cap.
pub open spec fn target_x(cap: int, keys: KeySet) -> int {
    target_component(cap, units_x(keys), units_z(keys))
}

/// Target velocity along world Z for a key set and a speed cap.
pub open spec fn target_z(cap: int, keys: KeySet) -> int {
    target_component(cap, units_z(keys), units_x(keys))
}

/// 1 if the key is held, else 0.
fn key_unit_i64(k: bool) -> (r: i64)
    ensures
        r as int == key_unit(k),
{
    if k {
        1
    } else {
        0
    }
}

/// One executable target component, equal to `target_component`.
fn target_component_i64(cap: i64, u: i64, other: i64) -> (t: i64)
    requires
        0 <= cap <= TUNING_LIMIT,
        -2 <= u <= 2,
        -2 <= other <= 2,
    ensures
        t as int == target_component(cap as int, u as int, other as int),
        -cap <= t <= cap,
{
    proof {
        assert(-2 * TUNING_LIMIT <= u as int * cap as int <= 2 * TUNING_LIMIT
            && (u as int * cap as int) * INV_SQRT2_NUM as int <= 2 * TUNING_LIMIT
            * INV_SQRT2_NUM as int && (u as int * cap as int) * INV_SQRT2_NUM as int >= -2
            * TUNING_LIMIT * INV_SQRT2_NUM as int) by (nonlinear_arith)
            requires
                0 <= cap <= TUNING_LIMIT,
                -2 <= u <= 2,
        ;
    }
    let raw: i64 = u * cap;
    let scaled: i64 = if u != 0 && other != 0 {
        tdiv_i64(raw * INV_SQRT2_NUM, INV_SQRT2_DEN)
    } else {
        raw
    };
    clamp_i64(scaled, -cap, cap)
}

/// Computes the target planar velocity `(tx, tz)` that the pressed keys ask
/// for: each held directional key adds its contribution, diagonal input is
/// scaled down by `1 / sqrt(2)`, and each component is clamped to the cap.
pub fn target_velocity(cap: i64, keys: &KeySet) -> (t: (i64, i64))
    requires
        0 <= cap <= TUNING_LIMIT,
    ensures
        t.0 as int == target_x(cap as int, *keys),
        t.1 as int == target_z(cap as int, *keys),
        -cap <= t.0 <= cap,
        -cap <= t.1 <= cap,
{
    let ux: i64 = key_unit_i64(keys.back) + key_unit_i64(keys.right) - key_unit_i64(keys.forward)
        - key_unit_i64(keys.left);
    let uz: i64 = key_unit_i64(keys.back) + key_unit_i64(keys.left) - key_unit_i64(keys.forward)
        - key_unit_i64(keys.right);
    let tx = target_component_i64(cap, ux, uz);
    let tz = target_component_i64(cap, uz, ux);
    (tx, tz)
}

/// Largest per-frame speed step: the largest acceleration times the largest
/// frame delta, rescaled.
pub const STEP_LIMIT: i64 = 1_000_000_000_000;

/// The counter-strafe reset: a current speed whose sign opposes the new
/// target snaps to zero before accelerating, so a direction reversal does not
/// fight residual momentum.
pub open spec fn counter_strafed(cur: int, tgt: int) -> int {
    if (cur > 0 && tgt < 0) || (cur < 0 && tgt > 0) {
        0int
    } else {
        cur
    }
}

/// One acceleration step: the current speed moves toward the target by at
/// most `step`, and snaps to the target exactly once the remaining gap is
/// within `step`, so the speed never oscillates around it.
pub open spec fn step_toward(cur: int, tgt: int, step: int) -> int {
    if spec_abs(cur - tgt) < step {
        tgt
    } else if cur < tgt {
        cur + step
    } else {
        cur - step
    }
}

/// The per-frame advance of one speed axis: counter-strafe reset, then one
/// acceleration step, then a defensive clamp to `[-cap, cap]`.
pub open spec fn axis_step(cur: int, tgt: int, step: int, cap: int) -> int {
    spec_clamp(step_toward(counter_strafed(cur, tgt), tgt, step), -cap, cap)
}

/// The speed step a frame allows: acceleration times frame delta, rescaled.
pub open spec fn accel_step(accel: int, dt: int) -> int {
    tdiv(accel * dt, SCALE as int)
}

/// Advances one speed axis by one frame, exactly as `axis_step` says.
pub fn axis_update(cur: i64, tgt: i64, step: i64, cap: i64) -> (next: i64)
    requires
        0 <= cap <= TUNING_LIMIT,
        -cap <= cur <= cap,
        -cap <= tgt <= cap,
        0 <= step <= STEP_LIMIT,
    ensures
        next as int == axis_step(cur as int, tgt as int, step as int, cap as int),
        -cap <= next <= cap,
{
    let cur: i64 = if (cur > 0 && tgt < 0) || (cur < 0 && tgt > 0) {
        0
    } else {
        cur
    };
    let gap: i64 = if cur >= tgt {
        cur - tgt
    } else {
        tgt - cur
    };
    let moved: i64 = if gap < step {
        tgt
    } else if cur < tgt {
        cur + step
    } else {
        cur - step
    };
    clamp_i64(moved, -cap, cap)
}

/// Per-entity movement state: tuning constants fixed at spawn, the current
/// signed planar speeds, and the jump latch.
///
/// `speed` is the per-axis speed ceiling, `sensitivity` the mouse gain the
/// look controller reads, `jump_v` the vertical launch speed, and `jumping`
/// the latch that blocks a second jump until a ground contact clears it.
#[derive(Clone, Copy, Debug)]
pub struct PlayerMove {
    pub sensitivity: i64,
    pub speed: i64,
    pub speed_x: i64,
    pub speed_z: i64,
    pub accel: i64,
    pub jump_v: i64,
    pub jumping: bool,
}

/// What one motion frame hands back: the translation to apply this frame
/// (new speed times frame delta, rescaled) and, when a jump fires, the
/// vertical speed to launch with.
#[derive(Clone, Copy, Debug)]
pub struct MotionOutput {
    pub delta_x: i64,
    pub delta_z: i64,
    pub jump: Option<i64>,
}

impl PlayerMove {
    /// The tuning constants are within machine range and the current speeds
    /// within the cap: the controller keeps this invariant across frames.
    pub open spec fn wf(self) -> bool {
        &&& 0 <= self.sensitivity <= SENS_LIMIT
        &&& 0 <= self.speed <= TUNING_LIMIT
        &&& 0 <= self.accel <= TUNING_LIMIT
        &&& 0 <= self.jump_v <= TUNING_LIMIT
        &&& -self.speed <= self.speed_x <= self.speed
        &&& -self.speed <= self.speed_z <= self.speed
    }

    /// Builds a state at rest with the given tuning, the jump latch clear.
    pub fn new(sensitivity: i64, speed: i64, accel: i64, jump_v: i64) -> (m: PlayerMove)
        requires
            0 <= sensitivity <= SENS_LIMIT,
            0 <= speed <= TUNING_LIMIT,
            0 <= accel <= TUNING_LIMIT,
            0 <= jump_v <= TUNING_LIMIT,
        ensures
            m == (PlayerMove {
                sensitivity,
                speed,
                speed_x: 0i64,
                speed_z: 0i64,
                accel,
                jump_v,
                jumping: false,
            }),
            m.wf(),
    {
        PlayerMove { sensitivity, speed, speed_x: 0, speed_z: 0, accel, jump_v, jumping: false }
    }

    /// Advances the controller by one frame.
    ///
    /// The pressed keys fix a target velocity; each speed axis counter-strafes
    /// and accelerates toward it by at most `accel * dt` and is clamped to the
    /// cap; the returned translation is the new speed times `dt`. A held jump
    /// key launches at `jump_v` only while the latch is clear, and `grounded`
    /// (the host's ground-contact signal) is what clears the latch.
    pub fn update(&mut self, keys: &KeySet, dt: i64, grounded: bool) -> (out: MotionOutput)
        requires
            old(self).wf(),
            0 <= dt <= DT_LIMIT,
        ensures
            final(self).wf(),
            final(self).sensitivity == old(self).sensitivity,
            final(self).speed == old(self).speed,
            final(self).accel == old(self).accel,
            final(self).jump_v == old(self).jump_v,
            final(self).speed_x as int == axis_step(
                old(self).speed_x as int,
                target_x(old(self).speed as int, *keys),
                accel_step(old(self).accel as int, dt as int),
                old(self).speed as int,
            ),
            final(self).speed_z as int == axis_step(
                old(self).speed_z as int,
                target_z(old(self).speed as int, *keys),
                accel_step(old(self).accel as int, dt as int),
                old(self).speed as int,
            ),
            -final(self).speed <= final(self).speed_x <= final(self).speed,
            -final(self).speed <= final(self).speed_z <= final(self).speed,
            out.delta_x as int == tdiv(final(self).speed_x as int * dt as int, SCALE as int),
            out.delta_z as int == tdiv(final(self).speed_z as int * dt as int, SCALE as int),
            ({
                let latched = old(self).jumping && !grounded;
                &&& (keys.jump && !latched) ==> out.jump == Some(old(self).jump_v)
                    && final(self).jumping
                &&& !(keys.jump && !latched) ==> out.jump == Option::<i64>::None
                    && final(self).jumping == latched
            }),
    {
        let (tx, tz) = target_velocity(self.speed, keys);
        proof {
            assert(0 <= self.accel as int * dt as int <= TUNING_LIMIT * DT_LIMIT)
                by (nonlinear_arith)
                requires
                    0 <= self.accel <= TUNING_LIMIT,
                    0 <= dt <= DT_LIMIT,
            ;
        }
        let step: i64 = (self.accel * dt) / SCALE;
        if grounded {
            self.jumping = false;
        }
        let jump: Option<i64> = if keys.jump && !self.jumping {
            self.jumping = true;
            Some(self.jump_v)
        } else {
            None
        };
        self.speed_x = axis_update(self.speed_x, tx, step, self.speed);
        self.speed_z = axis_update(self.speed_z, tz, step, self.speed);
        let delta_x = mul_scaled(self.speed_x, dt);
        let delta_z = mul_scaled(self.speed_z, dt);
        MotionOutput { delta_x, delta_z, jump }
    }
}

impl Default for PlayerMove {
    /// The spawn-time tuning: gain 0.00015, cap 2 units/s, acceleration
    /// 10 units/s^2, jump speed 2 units/s, at rest with the latch clear.
    fn default() -> (m: PlayerMove)
        ensures
            m == (PlayerMove {
                sensitivity: 150i64,
                speed: 2_000_000i64,
                speed_x: 0i64,
                speed_z: 0i64,
                accel: 10_000_000i64,
                jump_v: 2_000_000i64,
                jumping: false,
            }),
            m.wf(),
    {
        PlayerMove {
            sensitivity: 150,
            speed: 2_000_000,
            speed_x: 0,
            speed_z: 0,
            accel: 10_000_000,
            jump_v: 2_000_000,
            jumping: false,
        }
    }
}

/// Rotates a planar translation out of the entity's local axes into world
/// axes, given the planar forward direction `(fwd_x, fwd_z)` in micro-units
/// of a unit vector (the host's trigonometry supplies it). `delta_z` moves
/// along the forward vector and `delta_x` along its right-hand perpendicular
/// `(-fwd_z, fwd_x)`.
pub fn resolve_relative(delta_x: i64, delta_z: i64, fwd_x: i64, fwd_z: i64) -> (w: (i64, i64))
    requires
        -STEP_LIMIT <= delta_x <= STEP_LIMIT,
        -STEP_LIMIT <= delta_z <= STEP_LIMIT,
        -SCALE <= fwd_x <= SCALE,
        -SCALE <= fwd_z <= SCALE,
    ensures
        w.0 as int == tdiv(fwd_x as int * delta_z as int - fwd_z as int * delta_x as int, SCALE as int),
        w.1 as int == tdiv(fwd_z as int * delta_z as int + fwd_x as int * delta_x as int, SCALE as int),
{
    proof {
        assert(-SCALE * STEP_LIMIT <= fwd_x as int * delta_z as int <= SCALE * STEP_LIMIT
            && -SCALE * STEP_LIMIT <= fwd_z as int * delta_x as int <= SCALE * STEP_LIMIT
            && -SCALE * STEP_LIMIT <= fwd_z as int * delta_z as int <= SCALE * STEP_LIMIT
            && -SCALE * STEP_LIMIT <= fwd_x as int * delta_x as int <= SCALE * STEP_LIMIT)
            by (nonlinear_arith)
            requires
                -STEP_LIMIT <= delta_x <= STEP_LIMIT,
                -STEP_LIMIT <= delta_z <= STEP_LIMIT,
                -SCALE <= fwd_x <= SCALE,
                -SCALE <= fwd_z <= SCALE,
        ;
    }
    let wx = tdiv_i64(fwd_x * delta_z - fwd_z * delta_x, SCALE);
    let wz = tdiv_i64(fwd_z * delta_z + fwd_x * delta_x, SCALE);
    (wx, wz)
}

/// The target one axis gets from a `+/-1` net key contribution scaled by
/// `1 / sqrt(2)` is non-negative, at most the cap, and small enough that a
/// diagonal target stays within the cap in magnitude: `2 * d * d <= cap^2`.
proof fn lemma_diag_sq(cap: int)
    requires
        0 <= cap,
    ensures
        ({
            let d = tdiv(cap * INV_SQRT2_NUM as int, INV_SQRT2_DEN as int);
            0 <= d <= cap && 2 * d * d <= cap * cap
        }),
{
    let num = INV_SQRT2_NUM as int;
    let den = INV_SQRT2_DEN as int;
    let d = (cap * num) / den;
    assert(0 <= cap * num) by (nonlinear_arith)
        requires
            0 <= cap,
            num == INV_SQRT2_NUM as int,
    ;
    vstd::arithmetic::div_mod::lemma_fundamental_div_mod(cap * num, den);
    assert(den * d <= cap * num);
    assert(0 <= d) by (nonlinear_arith)
        requires
            den * d <= cap * num,
            0 <= cap * num,
            cap * num < den * (d + 1),
            den == INV_SQRT2_DEN as int,
    ;
    assert(d <= cap) by (nonlinear_arith)
        requires
            den * d <= cap * num,
            0 <= cap,
            0 <= d,
            num == INV_SQRT2_NUM as int,
            den == INV_SQRT2_DEN as int,
    ;
    assert(2 * d * d <= cap * cap) by (nonlinear_arith)
        requires
            den * d <= cap * num,
            0 <= cap,
            0 <= d,
            num == INV_SQRT2_NUM as int,
            den == INV_SQRT2_DEN as int,
    ;
}

/// Every target velocity fits in the cap, componentwise and in magnitude:
/// `tx^2 + tz^2 <= cap^2` for every key set, so diagonal input cannot move
/// faster than a single axis at full speed.
pub proof fn lemma_target_within_cap(cap: int, keys: KeySet)
    requires
        0 <= cap,
    ensures
        -cap <= target_x(cap, keys) <= cap,
        -cap <= target_z(cap, keys) <= cap,
        target_x(cap, keys) * target_x(cap, keys) + target_z(cap, keys) * target_z(cap, keys)
            <= cap * cap,
{
    let ux = units_x(keys);
    let uz = units_z(keys);
    let tx = target_x(cap, keys);
    let tz = target_z(cap, keys);
    lemma_diag_sq(cap);
    let d = tdiv(cap * INV_SQRT2_NUM as int, INV_SQRT2_DEN as int);
    if ux != 0 && uz != 0 {
        assert(ux == 1 || ux == -1);
        assert(uz == 1 || uz == -1);
        assert(ux * cap == cap || ux * cap == -cap) by (nonlinear_arith)
            requires
                ux == 1 || ux == -1,
        ;
        assert(uz * cap == cap || uz * cap == -cap) by (nonlinear_arith)
            requires
                uz == 1 || uz == -1,
        ;
        assert(tx == d || tx == -d);
        assert(tz == d || tz == -d);
        assert(tx * tx + tz * tz == 2 * d * d) by (nonlinear_arith)
            requires
                tx == d || tx == -d,
                tz == d || tz == -d,
        ;
    } else {
        assert(tx == 0 || tz == 0);
        assert(tx * tx + tz * tz <= cap * cap) by (nonlinear_arith)
            requires
                tx == 0 || tz == 0,
                -cap <= tx <= cap,
                -cap <= tz <= cap,
        ;
    }
}

/// Holding forward and left together (a diagonal of the key layout) targets
/// exactly `(-cap, 0)`: magnitude exactly the cap, not `cap * sqrt(2)`.
pub proof fn lemma_diagonal_pair_exact(cap: int, keys: KeySet)
    requires
        0 <= cap,
        keys.forward,
        keys.left,
        !keys.back,
        !keys.right,
    ensures
        target_x(cap, keys) == -cap,
        target_z(cap, keys) == 0,
        target_x(cap, keys) * target_x(cap, keys) + target_z(cap, keys) * target_z(cap, keys)
            == cap * cap,
{
    assert(units_x(keys) == -2 && units_z(keys) == 0);
    assert((-2) * cap == -(2 * cap));
    assert(-cap * -cap == cap * cap) by (nonlinear_arith);
}

/// Opposing keys cancel additively, not by precedence: holding both
/// `forward` and `back` gives the same target as holding neither, whatever
/// else is held; likewise `left` and `right`.
pub proof fn lemma_opposing_keys_cancel(cap: int, keys: KeySet)
    ensures
        keys.forward == keys.back ==> target_x(cap, keys) == target_x(
            cap,
            (KeySet { forward: false, back: false, ..keys }),
        ) && target_z(cap, keys) == target_z(
            cap,
            (KeySet { forward: false, back: false, ..keys }),
        ),
        keys.left == keys.right ==> target_x(cap, keys) == target_x(
            cap,
            (KeySet { left: false, right: false, ..keys }),
        ) && target_z(cap, keys) == target_z(
            cap,
            (KeySet { left: false, right: false, ..keys }),
        ),
{
}

/// Opposing keys on both axes leave the entity targeting rest: with
/// `forward == back` and `left == right` the target is `(0, 0)`.
pub proof fn lemma_opposing_keys_rest(cap: int, keys: KeySet)
    requires
        0 <= cap,
        keys.forward == keys.back,
        keys.left == keys.right,
    ensures
        target_x(cap, keys) == 0,
        target_z(cap, keys) == 0,
{
    assert(units_x(keys) == 0 && units_z(keys) == 0);
}

/// Counter-strafe: when the current speed's sign opposes the new target,
/// the frame behaves exactly as if the axis started from rest.
pub proof fn lemma_counter_strafe_resets(cur: int, tgt: int, step: int, cap: int)
    requires
        (cur > 0 && tgt < 0) || (cur < 0 && tgt > 0),
    ensures
        axis_step(cur, tgt, step, cap) == axis_step(0, tgt, step, cap),
{
}

/// Single-step convergence: once the gap to the target is within one
/// frame's step, the axis lands on the target exactly, never overshooting.
pub proof fn lemma_single_step_convergence(cur: int, tgt: int, step: int, cap: int)
    requires
        0 <= step,
        0 <= cap,
        -cap <= cur <= cap,
        -cap <= tgt <= cap,
        spec_abs(cur - tgt) <= step,
    ensures
        axis_step(cur, tgt, step, cap) == tgt,
{
}

/// With no movement key held, the target velocity is zero on both axes.
pub proof fn lemma_idle_target_zero(cap: int, keys: KeySet)
    requires
        0 <= cap,
        !keys.forward,
        !keys.back,
        !keys.left,
        !keys.right,
    ensures
        target_x(cap, keys) == 0,
        target_z(cap, keys) == 0,
{
}

/// The planar speed of one axis after a run of idle frames (target zero),
/// frame `i` allowing a speed step of `accel_step(accel, dts[i])`.
pub open spec fn idle_speed_after(cur: int, accel: int, cap: int, dts: Seq<int>) -> int
    decreases dts.len(),
{
    if dts.len() == 0 {
        cur
    } else {
        axis_step(
            idle_speed_after(cur, accel, cap, dts.drop_last()),
            0,
            accel_step(accel, dts.last()),
            cap,
        )
    }
}

/// The total speed change a run of frames allows.
pub open spec fn total_step(accel: int, dts: Seq<int>) -> int
    decreases dts.len(),
{
    if dts.len() == 0 {
        0int
    } else {
        total_step(accel, dts.drop_last()) + accel_step(accel, dts.last())
    }
}

/// One frame's allowed speed step is non-negative.
proof fn lemma_accel_step_nonneg(accel: int, dt: int)
    requires
        0 <= accel,
        0 <= dt,
    ensures
        0 <= accel_step(accel, dt),
{
    assert(0 <= accel * dt) by (nonlinear_arith)
        requires
            0 <= accel,
            0 <= dt,
    ;
    assert(0 <= (accel * dt) / (SCALE as int));
}

/// Across idle frames, the speed magnitude falls by the full allowed step
/// each frame until it reaches zero, and never leaves the cap.
proof fn lemma_idle_speed_bound(cur: int, accel: int, cap: int, dts: Seq<int>)
    requires
        0 <= accel,
        0 <= cap,
        -cap <= cur <= cap,
        forall|i: int| 0 <= i < dts.len() ==> 0 <= #[trigger] dts[i],
    ensures
        spec_abs(idle_speed_after(cur, accel, cap, dts)) <= spec_max(
            spec_abs(cur) - total_step(accel, dts),
            0,
        ),
        spec_abs(idle_speed_after(cur, accel, cap, dts)) <= cap,
    decreases dts.len(),
{
    if dts.len() > 0 {
        let head = dts.drop_last();
        assert(forall|i: int| 0 <= i < head.len() ==> 0 <= #[trigger] head[i]);
        lemma_idle_speed_bound(cur, accel, cap, head);
        lemma_accel_step_nonneg(accel, dts.last());
        let prev = idle_speed_after(cur, accel, cap, head);
        let s = accel_step(accel, dts.last());
        assert(spec_abs(axis_step(prev, 0, s, cap)) <= spec_max(spec_abs(prev) - s, 0));
        assert(spec_abs(axis_step(prev, 0, s, cap)) <= cap);
    }
}

/// If no movement key is pressed and the frames' total allowed speed change
/// covers the current speed's magnitude (cumulative time of at least
/// `cap / accel` does, since the speed is capped), the axis speed converges
/// to exactly zero.
pub proof fn lemma_idle_convergence(cur: int, accel: int, cap: int, dts: Seq<int>)
    requires
        0 <= accel,
        0 <= cap,
        -cap <= cur <= cap,
        forall|i: int| 0 <= i < dts.len() ==> 0 <= #[trigger] dts[i],
        total_step(accel, dts) >= spec_abs(cur),
    ensures
        idle_speed_after(cur, accel, cap, dts) == 0,
{
    lemma_idle_speed_bound(cur, accel, cap, dts);
}

} // verus!
