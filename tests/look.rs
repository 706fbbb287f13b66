use bevy_test::look::{integrate, CameraSensitivity, Orientation, PointerDelta, PITCH_LIMIT};

fn orient(yaw: i64, pitch: i64, roll: i64) -> Orientation {
    Orientation { yaw, pitch, roll }
}

#[test]
fn default_sensitivity_is_faster_horizontally() {
    let s = CameraSensitivity::default();
    assert_eq!(s.horizontal, 3000);
    assert_eq!(s.vertical, 2000);
}

#[test]
fn still_pointer_keeps_orientation() {
    let s = CameraSensitivity::default();
    let o = orient(123_456, -7_890, 42);
    assert_eq!(integrate(o, PointerDelta { x: 0, y: 0 }, s), o);
}

#[test]
fn still_pointer_keeps_even_an_out_of_range_pitch() {
    let s = CameraSensitivity::default();
    let o = orient(0, PITCH_LIMIT + 5, 0);
    assert_eq!(integrate(o, PointerDelta { x: 0, y: 0 }, s), o);
}

#[test]
fn motion_turns_yaw_and_pitch_and_keeps_roll() {
    let s = CameraSensitivity::default();
    let o = orient(10, 20, 30);
    // one count right and two counts down
    let r = integrate(o, PointerDelta { x: 1000, y: 2000 }, s);
    assert_eq!(r.yaw, 10 - 3_000_000);
    assert_eq!(r.pitch, 20 - 4_000_000);
    assert_eq!(r.roll, 30);
}

#[test]
fn pitch_clamps_at_the_limits() {
    let s = CameraSensitivity::default();
    let up = integrate(orient(0, 0, 0), PointerDelta { x: 0, y: i32::MIN }, s);
    assert_eq!(up.pitch, PITCH_LIMIT);
    let down = integrate(orient(0, 0, 0), PointerDelta { x: 0, y: i32::MAX }, s);
    assert_eq!(down.pitch, -PITCH_LIMIT);
    let extreme = CameraSensitivity { horizontal: i32::MAX, vertical: i32::MIN };
    let r = integrate(orient(0, i64::MAX, 0), PointerDelta { x: 1, y: i32::MIN }, extreme);
    assert_eq!(r.pitch, PITCH_LIMIT);
    assert_eq!(r.yaw, -(i32::MAX as i64));
}

#[test]
fn pitch_limit_is_a_hundredth_short_of_a_quarter_turn() {
    let limit = PITCH_LIMIT as f64 / 1e9;
    assert!((limit - (std::f64::consts::FRAC_PI_2 - 0.01)).abs() < 1e-9);
}

#[test]
fn yaw_accumulates_linearly() {
    let s = CameraSensitivity::default();
    let o = orient(5, 0, 0);
    let d1 = PointerDelta { x: 1500, y: 0 };
    let d2 = PointerDelta { x: -4250, y: 0 };
    let twice = integrate(integrate(o, d1, s), d2, s);
    let once = integrate(o, PointerDelta { x: 1500 - 4250, y: 0 }, s);
    assert_eq!(twice.yaw, once.yaw);
    assert_eq!(once.yaw, 5 + 2750 * 3000);
}

#[test]
fn yaw_is_not_wrapped() {
    let s = CameraSensitivity::default();
    let mut o = orient(0, 0, 0);
    for _ in 0..10 {
        o = integrate(o, PointerDelta { x: -1_000_000, y: 0 }, s);
    }
    // 30 radians: well past a full turn
    assert_eq!(o.yaw, 30_000_000_000);
}
