//! Keyboard movement: which way the camera moves for the keys held this frame.
//!
//! The result is given in the camera's local frame as one step per axis
//! (right, up, back), each -1, 0 or 1. The caller turns it into a world
//! displacement with the camera's rotation and scales it by `speed * dt`.
//! Vertical movement follows the camera's local up axis. Keys on different
//! axes add up independently and the sum is not renormalised, so diagonal
//! movement is faster than movement along one axis.
use vstd::prelude::*;

verus! {

/// A movement direction relative to the camera.
#[derive(Clone, Copy, Debug, PartialEq, Eq, Structural)]
pub enum Direction {
    Forward,
    Back,
    Left,
    Right,
    Up,
    Down,
}

/// The set of movement directions held down this frame.
#[derive(Clone, Copy, Debug, PartialEq, Eq, Structural)]
pub struct HeldDirections {
    pub forward: bool,
    pub back: bool,
    pub left: bool,
    pub right: bool,
    pub up: bool,
    pub down: bool,
}

impl View for HeldDirections {
    type V = Set<Direction>;

    open spec fn view(&self) -> Set<Direction> {
        Set::new(
            |d: Direction|
                match d {
                    Direction::Forward => self.forward,
                    Direction::Back => self.back,
                    Direction::Left => self.left,
                    Direction::Right => self.right,
                    Direction::Up => self.up,
                    Direction::Down => self.down,
                },
        )
    }
}

/// One step along each local axis: +x is right, +y is up, +z is back (the
/// camera looks along -z).
#[derive(Clone, Copy, Debug, PartialEq, Eq, Structural)]
pub struct LocalMotion {
    pub right: i8,
    pub up: i8,
    pub back: i8,
}

/// 1 when `d` is held, else 0.
pub open spec fn held_count(held: Set<Direction>, d: Direction) -> int {
    if held.contains(d) {
        1
    } else {
        0
    }
}

/// Step along one axis: the positive direction minus the negative one.
pub open spec fn axis_step(held: Set<Direction>, pos: Direction, neg: Direction) -> int {
    held_count(held, pos) - held_count(held, neg)
}

/// The motion asked for by the held set: each held direction adds its unit
/// step, opposite directions cancel.
pub open spec fn motion_of(held: Set<Direction>) -> LocalMotion {
    LocalMotion {
        right: axis_step(held, Direction::Right, Direction::Left) as i8,
        up: axis_step(held, Direction::Up, Direction::Down) as i8,
        back: axis_step(held, Direction::Back, Direction::Forward) as i8,
    }
}

/// Squared length of a local motion; the local axes are orthonormal.
pub open spec fn norm_sq(m: LocalMotion) -> int {
    m.right * m.right + m.up * m.up + m.back * m.back
}

/// Number of axes on which a direction is held without its opposite.
pub open spec fn active_axes(held: Set<Direction>) -> int {
    (if axis_step(held, Direction::Right, Direction::Left) != 0 { 1int } else { 0 }) + (if axis_step(
        held,
        Direction::Up,
        Direction::Down,
    ) != 0 {
        1int
    } else {
        0
    }) + (if axis_step(held, Direction::Back, Direction::Forward) != 0 {
        1int
    } else {
        0
    })
}

fn step(pos: bool, neg: bool) -> (r: i8)
    ensures
        r == (if pos { 1int } else { 0 }) - (if neg { 1int } else { 0 }),
{
    let mut r: i8 = 0;
    if pos {
        r = r + 1;
    }
    if neg {
        r = r - 1;
    }
    r
}

/// The local motion for the directions held this frame.
pub fn local_motion(held: HeldDirections) -> (r: LocalMotion)
    ensures
        r == motion_of(held@),
        r.right == held_count(held@, Direction::Right) - held_count(held@, Direction::Left),
        r.up == held_count(held@, Direction::Up) - held_count(held@, Direction::Down),
        r.back == held_count(held@, Direction::Back) - held_count(held@, Direction::Forward),
{
    assert(held@.contains(Direction::Forward) == held.forward);
    assert(held@.contains(Direction::Back) == held.back);
    assert(held@.contains(Direction::Left) == held.left);
    assert(held@.contains(Direction::Right) == held.right);
    assert(held@.contains(Direction::Up) == held.up);
    assert(held@.contains(Direction::Down) == held.down);
    LocalMotion {
        right: step(held.right, held.left),
        up: step(held.up, held.down),
        back: step(held.back, held.forward),
    }
}

/// Movement is not renormalised: the squared length of the motion is the
/// number of axes on which a direction is held without its opposite, so two
/// axes at once move sqrt(2) times as far as one.
pub proof fn lemma_motion_not_normalised(held: Set<Direction>)
    ensures
        norm_sq(motion_of(held)) == active_axes(held),
{
    let m = motion_of(held);
    lemma_unit_square(m.right as int);
    lemma_unit_square(m.up as int);
    lemma_unit_square(m.back as int);
}

proof fn lemma_unit_square(x: int)
    requires
        -1 <= x <= 1,
    ensures
        x * x == (if x != 0 { 1int } else { 0 }),
{
    if x == -1 {
        assert(x * x == 1);
    } else if x == 0 {
        assert(x * x == 0);
    } else {
        assert(x * x == 1);
    }
}

} // verus!
