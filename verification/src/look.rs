//! The mouse-look controller: folds the frame's mouse-motion samples into a
//! clamped pitch and a wrapped yaw, consuming each sample exactly once.

use vstd::prelude::*;

use crate::units::{clamp_i64, spec_clamp, spec_min, tdiv, SENS_LIMIT};

verus! {

/// Numerator of the fixed-point `pi / 180`, the degree-to-radian conversion
/// the per-sample rotation applies.
pub const DEG_TO_RAD_NUM: i64 = 3_141_592_653;

/// Denominator of the fixed-point `pi / 180`.
pub const DEG_TO_RAD_DEN: i64 = 180_000_000_000;

/// The pitch clamp bound, just under a quarter turn, in micro-radians:
/// the camera may not flip over the vertical.
pub const PITCH_LIMIT: i64 = 1_540_000;

/// One full turn, `2 * pi`, in micro-radians; the yaw is kept within one
/// turn of zero, as quaternion composition would keep it in effect.
pub const FULL_TURN: i64 = 6_283_185;

/// Largest mouse delta accepted in one motion sample, in counts.
pub const SAMPLE_LIMIT: i64 = 1_000_000;

/// Largest window dimension accepted, in pixels.
pub const WINDOW_LIMIT: i64 = 1_000_000;

/// Largest starting pitch the controller accepts, well outside the clamp
/// bounds: an out-of-range pitch self-corrects on the next sample.
pub const PITCH_SLACK: i64 = 1_000_000_000;

/// One mouse-motion sample: the pointer delta in counts, rightward `dx`
/// and downward `dy`.
#[derive(Clone, Copy, PartialEq, Eq, Structural, Debug)]
pub struct MouseSample {
    pub dx: i64,
    pub dy: i64,
}

/// A camera orientation as the ghost pair of its accumulated pitch and yaw,
/// in micro-radians.
pub ghost struct Orientation {
    pub pitch: int,
    pub yaw: int,
}

/// The rotation one sample applies to one angle, in micro-radians:
/// sensitivity times delta times window scale, read as degrees and converted
/// to radians, truncating toward zero.
pub open spec fn look_delta(sens: int, d: int, wscale: int) -> int {
    tdiv(sens * d * wscale * DEG_TO_RAD_NUM as int, DEG_TO_RAD_DEN as int)
}

/// An angle brought within one full turn of zero, keeping its sign, as the
/// machine's `%` computes it.
pub open spec fn wrap_angle(a: int) -> int {
    if a >= 0 {
        a % FULL_TURN as int
    } else {
        -((-a) % FULL_TURN as int)
    }
}

/// One sample's effect on the orientation: while the cursor is captured,
/// yaw and pitch each turn by the sample's delta; the pitch is clamped
/// after every sample, captured or not, so an out-of-range pitch
/// self-corrects.
pub open spec fn look_step(
    o: Orientation,
    sens: int,
    s: MouseSample,
    captured: bool,
    wscale: int,
) -> Orientation {
    let pitch1 = if captured {
        o.pitch - look_delta(sens, s.dy as int, wscale)
    } else {
        o.pitch
    };
    let yaw1 = if captured {
        wrap_angle(o.yaw - look_delta(sens, s.dx as int, wscale))
    } else {
        o.yaw
    };
    Orientation {
        pitch: spec_clamp(pitch1, -PITCH_LIMIT as int, PITCH_LIMIT as int),
        yaw: yaw1,
    }
}

/// The orientation after a run of samples, applied oldest to newest.
pub open spec fn look_after(
    o: Orientation,
    sens: int,
    samples: Seq<MouseSample>,
    captured: bool,
    wscale: int,
) -> Orientation
    decreases samples.len(),
{
    if samples.len() == 0 {
        o
    } else {
        look_step(
            look_after(o, sens, samples.drop_last(), captured, wscale),
            sens,
            samples.last(),
            captured,
            wscale,
        )
    }
}

/// Largest magnitude one sample's rotation can reach under the input bounds.
pub const DELTA_LIMIT: i64 = 20_000_000_000_000_000;

/// Computes `look_delta`: the signed rotation of one sample on one angle.
fn look_delta_i64(sens: i64, d: i64, wscale: i64) -> (r: i64)
    requires
        0 <= sens <= SENS_LIMIT,
        -SAMPLE_LIMIT <= d <= SAMPLE_LIMIT,
        0 <= wscale <= WINDOW_LIMIT,
    ensures
        r as int == look_delta(sens as int, d as int, wscale as int),
        -DELTA_LIMIT <= r <= DELTA_LIMIT,
{
    let m: i64 = if d >= 0 {
        d
    } else {
        -d
    };
    proof {
        assert(0 <= sens as int * m as int <= SENS_LIMIT * SAMPLE_LIMIT && 0 <= sens as int
            * m as int * wscale as int <= SENS_LIMIT * SAMPLE_LIMIT * WINDOW_LIMIT && 0 <= sens as int
            * m as int * wscale as int * DEG_TO_RAD_NUM as int <= SENS_LIMIT * SAMPLE_LIMIT
            * WINDOW_LIMIT * DEG_TO_RAD_NUM as int) by (nonlinear_arith)
            requires
                0 <= sens <= SENS_LIMIT,
                0 <= m <= SAMPLE_LIMIT,
                0 <= wscale <= WINDOW_LIMIT,
        ;
    }
    let q: i128 = (sens as i128) * (m as i128) * (wscale as i128) * (DEG_TO_RAD_NUM as i128);
    let mag: i128 = q / (DEG_TO_RAD_DEN as i128);
    proof {
        vstd::arithmetic::div_mod::lemma_fundamental_div_mod(
            q as int,
            DEG_TO_RAD_DEN as int,
        );
        assert(0 <= q as int / (DEG_TO_RAD_DEN as int) <= DELTA_LIMIT) by (nonlinear_arith)
            requires
                0 <= q as int <= SENS_LIMIT * SAMPLE_LIMIT * WINDOW_LIMIT * DEG_TO_RAD_NUM as int,
                q as int == DEG_TO_RAD_DEN as int * (q as int / DEG_TO_RAD_DEN as int) + (
                q as int % (DEG_TO_RAD_DEN as int)),
                0 <= (q as int % (DEG_TO_RAD_DEN as int)) < (DEG_TO_RAD_DEN as int),
        ;
        assert(sens as int * d as int * wscale as int * DEG_TO_RAD_NUM as int == if d >= 0 {
            q as int
        } else {
            -(q as int)
        }) by (nonlinear_arith)
            requires
                q as int == sens as int * m as int * wscale as int * DEG_TO_RAD_NUM as int,
                m as int == if d >= 0 {
                    d as int
                } else {
                    -(d as int)
                },
        ;
    }
    let mag64: i64 = mag as i64;
    if d >= 0 {
        mag64
    } else {
        -mag64
    }
}

/// Brings an angle within one full turn of zero, keeping its sign.
fn wrap_i64(a: i64) -> (r: i64)
    requires
        i64::MIN < a,
    ensures
        r as int == wrap_angle(a as int),
        -FULL_TURN < r < FULL_TURN,
{
    if a >= 0 {
        a % FULL_TURN
    } else {
        -((-a) % FULL_TURN)
    }
}

/// Applies one sample to a pitch/yaw pair, exactly as `look_step` says.
fn apply_sample(pitch: i64, yaw: i64, sens: i64, s: &MouseSample, captured: bool, wscale: i64) -> (r:
    (i64, i64))
    requires
        0 <= sens <= SENS_LIMIT,
        -SAMPLE_LIMIT <= s.dx <= SAMPLE_LIMIT,
        -SAMPLE_LIMIT <= s.dy <= SAMPLE_LIMIT,
        0 <= wscale <= WINDOW_LIMIT,
        -PITCH_SLACK <= pitch <= PITCH_SLACK,
        -FULL_TURN < yaw < FULL_TURN,
    ensures
        (Orientation { pitch: r.0 as int, yaw: r.1 as int }) == look_step(
            (Orientation { pitch: pitch as int, yaw: yaw as int }),
            sens as int,
            *s,
            captured,
            wscale as int,
        ),
        -PITCH_LIMIT <= r.0 <= PITCH_LIMIT,
        -FULL_TURN < r.1 < FULL_TURN,
{
    let pitch1: i64 = if captured {
        pitch - look_delta_i64(sens, s.dy, wscale)
    } else {
        pitch
    };
    let yaw1: i64 = if captured {
        wrap_i64(yaw - look_delta_i64(sens, s.dx, wscale))
    } else {
        yaw
    };
    let pitch2 = clamp_i64(pitch1, -PITCH_LIMIT, PITCH_LIMIT);
    (pitch2, yaw1)
}

/// The look controller's state: the accumulated pitch and yaw, and the
/// cursor of the last-consumed motion sample, so a sample read from the
/// host's event stream is never applied twice.
#[derive(Clone, Copy, Debug)]
pub struct LookState {
    pub pitch: i64,
    pub yaw: i64,
    pub consumed: usize,
}

impl LookState {
    /// The pitch and yaw this state holds, as a ghost orientation.
    pub open spec fn orientation(self) -> Orientation {
        Orientation { pitch: self.pitch as int, yaw: self.yaw as int }
    }

    /// The pitch is within the clamp bounds and the yaw within one turn:
    /// established at spawn and kept by every update.
    pub open spec fn wf(self) -> bool {
        &&& -PITCH_LIMIT <= self.pitch <= PITCH_LIMIT
        &&& -FULL_TURN < self.yaw < FULL_TURN
    }

    /// A level look with no sample consumed yet.
    pub fn new() -> (s: LookState)
        ensures
            s == (LookState { pitch: 0i64, yaw: 0i64, consumed: 0usize }),
            s.wf(),
    {
        LookState { pitch: 0, yaw: 0, consumed: 0 }
    }

    /// Folds the not-yet-consumed tail of the host's mouse-motion stream
    /// into the orientation, oldest sample first, and advances the cursor
    /// past it, so the same physical sample is never read twice.
    ///
    /// The window scale is the smaller window dimension, which keeps the
    /// turn rate independent of aspect ratio; a zero-size window turns the
    /// samples into no-ops while still consuming them.
    pub fn process_samples(
        &mut self,
        sens: i64,
        samples: &Vec<MouseSample>,
        captured: bool,
        width: i64,
        height: i64,
    )
        requires
            0 <= sens <= SENS_LIMIT,
            old(self).consumed <= samples@.len(),
            forall|i: int|
                0 <= i < samples@.len() ==> -SAMPLE_LIMIT <= (#[trigger] samples@[i]).dx
                    <= SAMPLE_LIMIT && -SAMPLE_LIMIT <= samples@[i].dy <= SAMPLE_LIMIT,
            0 <= width <= WINDOW_LIMIT,
            0 <= height <= WINDOW_LIMIT,
            -PITCH_SLACK <= old(self).pitch <= PITCH_SLACK,
            -FULL_TURN < old(self).yaw < FULL_TURN,
        ensures
            final(self).consumed == samples@.len(),
            final(self).orientation() == look_after(
                old(self).orientation(),
                sens as int,
                samples@.subrange(old(self).consumed as int, samples@.len() as int),
                captured,
                spec_min(width as int, height as int),
            ),
            old(self).consumed < samples@.len() || old(self).wf() ==> final(self).wf(),
            -FULL_TURN < final(self).yaw < FULL_TURN,
    {
        let wscale: i64 = if width < height {
            width
        } else {
            height
        };
        let ghost start = self.consumed as int;
        let ghost o0 = self.orientation();
        let mut i: usize = self.consumed;
        while i < samples.len()
            invariant
                0 <= sens <= SENS_LIMIT,
                0 <= wscale <= WINDOW_LIMIT,
                wscale as int == spec_min(width as int, height as int),
                0 <= start <= i as int <= samples@.len(),
                forall|j: int|
                    0 <= j < samples@.len() ==> -SAMPLE_LIMIT <= (#[trigger] samples@[j]).dx
                        <= SAMPLE_LIMIT && -SAMPLE_LIMIT <= samples@[j].dy <= SAMPLE_LIMIT,
                (Orientation { pitch: self.pitch as int, yaw: self.yaw as int }) == look_after(
                    o0,
                    sens as int,
                    samples@.subrange(start, i as int),
                    captured,
                    wscale as int,
                ),
                -PITCH_SLACK <= self.pitch <= PITCH_SLACK,
                -FULL_TURN < self.yaw < FULL_TURN,
                i as int > start ==> -PITCH_LIMIT <= self.pitch <= PITCH_LIMIT,
                i as int == start ==> self.pitch == o0.pitch && self.yaw == o0.yaw,
            decreases samples@.len() - i as int,
        {
            let s = samples[i];
            let (p, y) = apply_sample(self.pitch, self.yaw, sens, &s, captured, wscale);
            proof {
                assert(samples@.subrange(start, i as int + 1).drop_last() =~= samples@.subrange(
                    start,
                    i as int,
                ));
                assert(samples@.subrange(start, i as int + 1).last() == samples@[i as int]);
            }
            self.pitch = p;
            self.yaw = y;
            i = i + 1;
        }
        proof {
            assert(samples@.subrange(start, samples@.len() as int) =~= samples@.subrange(
                start,
                i as int,
            ));
        }
        self.consumed = samples.len();
    }
}

/// The pitch after any run of samples stays within the clamp bounds,
/// whatever the deltas: every processed sample ends in the clamp, so one
/// sample corrects even an out-of-range starting pitch.
pub proof fn lemma_pitch_clamped(
    o: Orientation,
    sens: int,
    samples: Seq<MouseSample>,
    captured: bool,
    wscale: int,
)
    requires
        samples.len() > 0 || -PITCH_LIMIT <= o.pitch <= PITCH_LIMIT,
    ensures
        -PITCH_LIMIT <= look_after(o, sens, samples, captured, wscale).pitch <= PITCH_LIMIT,
{
}

} // verus!
