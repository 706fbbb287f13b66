use bevy_test::movement::{local_motion, HeldDirections, LocalMotion};

fn none() -> HeldDirections {
    HeldDirections { forward: false, back: false, left: false, right: false, up: false, down: false }
}

fn len_sq(m: LocalMotion) -> i32 {
    let (x, y, z) = (m.right as i32, m.up as i32, m.back as i32);
    x * x + y * y + z * z
}

#[test]
fn nothing_held_means_no_motion() {
    assert_eq!(local_motion(none()), LocalMotion { right: 0, up: 0, back: 0 });
}

#[test]
fn each_direction_is_one_unit_step() {
    let f = local_motion(HeldDirections { forward: true, ..none() });
    assert_eq!(f, LocalMotion { right: 0, up: 0, back: -1 });
    let b = local_motion(HeldDirections { back: true, ..none() });
    assert_eq!(b, LocalMotion { right: 0, up: 0, back: 1 });
    let l = local_motion(HeldDirections { left: true, ..none() });
    assert_eq!(l, LocalMotion { right: -1, up: 0, back: 0 });
    let r = local_motion(HeldDirections { right: true, ..none() });
    assert_eq!(r, LocalMotion { right: 1, up: 0, back: 0 });
    let u = local_motion(HeldDirections { up: true, ..none() });
    assert_eq!(u, LocalMotion { right: 0, up: 1, back: 0 });
    let d = local_motion(HeldDirections { down: true, ..none() });
    assert_eq!(d, LocalMotion { right: 0, up: -1, back: 0 });
}

#[test]
fn opposite_directions_cancel() {
    let all = HeldDirections { forward: true, back: true, left: true, right: true, up: true, down: true };
    assert_eq!(local_motion(all), LocalMotion { right: 0, up: 0, back: 0 });
}

#[test]
fn diagonal_movement_is_not_renormalised() {
    let speed = 1.0_f64;
    let dt = 1.0_f64;
    let single = local_motion(HeldDirections { forward: true, ..none() });
    let diagonal = local_motion(HeldDirections { forward: true, right: true, ..none() });
    assert_eq!(diagonal, LocalMotion { right: 1, up: 0, back: -1 });
    assert_eq!(len_sq(single), 1);
    assert_eq!(len_sq(diagonal), 2);
    let single_len = (len_sq(single) as f64).sqrt() * speed * dt;
    let diagonal_len = (len_sq(diagonal) as f64).sqrt() * speed * dt;
    assert!((diagonal_len - std::f64::consts::SQRT_2 * single_len).abs() < 1e-12);
}

#[test]
fn three_axes_at_once() {
    let m = local_motion(HeldDirections { back: true, left: true, up: true, ..none() });
    assert_eq!(m, LocalMotion { right: -1, up: 1, back: 1 });
    assert_eq!(len_sq(m), 3);
}
