//! Mouse look: integrating pointer motion into a yaw/pitch/roll orientation.
//!
//! Angles are fixed-point integers in nanoradians. Pointer motion is given in
//! thousandths of a device count and sensitivity in microradians per count,
//! so the product of a motion and a sensitivity is an angle in nanoradians,
//! exactly.
use vstd::prelude::*;

verus! {

/// Largest pitch magnitude, in nanoradians: pi/2 - 0.01, rounded down.
/// Keeping pitch short of a quarter turn avoids gimbal lock.
pub const PITCH_LIMIT: i64 = 1_560_796_326;

/// A camera orientation as yaw, pitch and roll, in nanoradians.
#[derive(Clone, Copy, Debug, PartialEq, Eq, Structural)]
pub struct Orientation {
    pub yaw: i64,
    pub pitch: i64,
    pub roll: i64,
}

/// Pointer displacement since the last sample, in thousandths of a count.
#[derive(Clone, Copy, Debug, PartialEq, Eq, Structural)]
pub struct PointerDelta {
    pub x: i32,
    pub y: i32,
}

/// Scale from pointer motion to rotation, in microradians per count, for the
/// horizontal (yaw) and the vertical (pitch) axis.
#[derive(Clone, Copy, Debug, PartialEq, Eq, Structural)]
pub struct CameraSensitivity {
    pub horizontal: i32,
    pub vertical: i32,
}

impl Default for CameraSensitivity {
    /// A faster horizontal than vertical sensitivity: 0.003 and 0.002 radians
    /// per count.
    fn default() -> (r: Self)
        ensures
            r.horizontal == 3000,
            r.vertical == 2000,
    {
        CameraSensitivity { horizontal: 3000, vertical: 2000 }
    }
}

/// `p` lies within the pitch range that avoids gimbal lock.
pub open spec fn pitch_in_limits(p: int) -> bool {
    -PITCH_LIMIT <= p <= PITCH_LIMIT
}

/// `p` brought into `[-PITCH_LIMIT, PITCH_LIMIT]`.
pub open spec fn clamp_pitch(p: int) -> int {
    if p < -PITCH_LIMIT {
        -PITCH_LIMIT as int
    } else if p > PITCH_LIMIT {
        PITCH_LIMIT as int
    } else {
        p
    }
}

/// The delta carries no motion at all.
pub open spec fn is_still(d: PointerDelta) -> bool {
    d.x == 0 && d.y == 0
}

/// Yaw after the motion: turning right (positive x) lowers yaw. Unbounded.
pub open spec fn yaw_after(o: Orientation, d: PointerDelta, s: CameraSensitivity) -> int {
    o.yaw - d.x * s.horizontal
}

/// Pitch after the motion, before clamping: moving down (positive y) lowers pitch.
pub open spec fn raw_pitch_after(o: Orientation, d: PointerDelta, s: CameraSensitivity) -> int {
    o.pitch - d.y * s.vertical
}

/// The new yaw fits the fixed-point representation.
pub open spec fn yaw_fits(o: Orientation, d: PointerDelta, s: CameraSensitivity) -> bool {
    i64::MIN <= yaw_after(o, d, s) <= i64::MAX
}

/// The orientation after pointer motion `d`: nothing changes without motion;
/// otherwise yaw and pitch move by the scaled motion, pitch is clamped, and
/// roll is kept.
pub open spec fn integrated(o: Orientation, d: PointerDelta, s: CameraSensitivity) -> Orientation {
    if is_still(d) {
        o
    } else {
        Orientation {
            yaw: yaw_after(o, d, s) as i64,
            pitch: clamp_pitch(raw_pitch_after(o, d, s)) as i64,
            roll: o.roll,
        }
    }
}

/// The exact product of a motion and a sensitivity; it stays within
/// `(-2^62, 2^62]`, so its negation fits too.
fn scaled(m: i32, s: i32) -> (r: i64)
    ensures
        r == m * s,
        -0x4000_0000_0000_0000 < r <= 0x4000_0000_0000_0000,
{
    assert(-0x4000_0000_0000_0000 < m * s <= 0x4000_0000_0000_0000) by (nonlinear_arith)
        requires
            -0x8000_0000 <= m < 0x8000_0000,
            -0x8000_0000 <= s < 0x8000_0000,
    ;
    (m as i64) * (s as i64)
}

/// Applies pointer motion `delta`, scaled by `sensitivity`, to `current`.
pub fn integrate(current: Orientation, delta: PointerDelta, sensitivity: CameraSensitivity) -> (r:
    Orientation)
    requires
        yaw_fits(current, delta, sensitivity),
    ensures
        r == integrated(current, delta, sensitivity),
        is_still(delta) ==> r == current,
        !is_still(delta) ==> r.yaw == yaw_after(current, delta, sensitivity) && r.pitch
            == clamp_pitch(raw_pitch_after(current, delta, sensitivity)) && r.roll == current.roll,
{
    if delta.x == 0 && delta.y == 0 {
        return current;
    }
    let delta_yaw: i64 = -scaled(delta.x, sensitivity.horizontal);
    let delta_pitch: i64 = -scaled(delta.y, sensitivity.vertical);
    let yaw: i64 = current.yaw + delta_yaw;
    let raw_pitch: i128 = current.pitch as i128 + delta_pitch as i128;
    let pitch: i64 = if raw_pitch < -(PITCH_LIMIT as i128) {
        -PITCH_LIMIT
    } else if raw_pitch > PITCH_LIMIT as i128 {
        PITCH_LIMIT
    } else {
        raw_pitch as i64
    };
    Orientation { yaw, pitch, roll: current.roll }
}

/// Without pointer motion the orientation is left exactly as it was, whatever
/// the sensitivity.
pub proof fn lemma_still_pointer_keeps_orientation(o: Orientation, s: CameraSensitivity)
    ensures
        integrated(o, (PointerDelta { x: 0, y: 0 }), s) == o,
{
}

/// Starting from a pitch within the limits, the pitch stays within the
/// limits, however large the motion.
pub proof fn lemma_pitch_stays_in_limits(o: Orientation, d: PointerDelta, s: CameraSensitivity)
    requires
        pitch_in_limits(o.pitch as int),
    ensures
        pitch_in_limits(integrated(o, d, s).pitch as int),
{
}

/// After any motion at all, the pitch is within the limits, wherever it started.
pub proof fn lemma_moved_pitch_in_limits(o: Orientation, d: PointerDelta, s: CameraSensitivity)
    requires
        !is_still(d),
    ensures
        pitch_in_limits(integrated(o, d, s).pitch as int),
{
}

/// Yaw accumulates linearly: motion `d1` then `d2` turns the yaw exactly as far
/// as their sum `d` in one step.
pub proof fn lemma_yaw_accumulates(
    o: Orientation,
    d1: PointerDelta,
    d2: PointerDelta,
    d: PointerDelta,
    s: CameraSensitivity,
)
    requires
        d.x == d1.x + d2.x,
        d.y == d1.y + d2.y,
        yaw_fits(o, d1, s),
        yaw_fits(integrated(o, d1, s), d2, s),
    ensures
        yaw_fits(o, d, s),
        integrated(integrated(o, d1, s), d2, s).yaw == integrated(o, d, s).yaw,
{
    assert(d.x * s.horizontal == d1.x * s.horizontal + d2.x * s.horizontal) by (nonlinear_arith)
        requires
            d.x == d1.x + d2.x,
    ;
    let m = integrated(o, d1, s);
    assert(m.yaw == yaw_after(o, d1, s));
    assert(integrated(m, d2, s).yaw == yaw_after(m, d2, s));
    assert(yaw_fits(o, d, s));
    if is_still(d) {
        assert(d.x * s.horizontal == 0) by (nonlinear_arith)
            requires
                d.x == 0,
        ;
    }
    assert(integrated(o, d, s).yaw == yaw_after(o, d, s));
}

} // verus!
