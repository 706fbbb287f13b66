//! The debug grid overlay: an on/off state machine that owns the handles of
//! the two spawned line sets, the line geometry, and how the line sets follow
//! the camera.
//!
//! Grid coordinates are whole world units.
use vstd::prelude::*;

verus! {

/// Whether the grid is shown. While shown it holds the handles of the two
/// spawned line sets: the X-axis set, then the Y-axis set. So either none or
/// both of them exist, never one.
#[derive(Clone, Copy, Debug, PartialEq, Eq)]
pub enum GridState<H> {
    On(H, H),
    Off,
}

/// What a trigger asks of the scene.
#[derive(Clone, Copy, Debug, PartialEq, Eq)]
pub enum GridCommand<H> {
    /// Spawn the two line sets.
    Spawn,
    /// Despawn the two line sets with these handles.
    Despawn(H, H),
}

/// What the scene reports once it has carried out a command.
#[derive(Clone, Copy, Debug, PartialEq, Eq)]
pub enum GridEvent<H> {
    /// The two line sets were spawned with these handles.
    Spawned(H, H),
    /// Both line sets were despawned.
    Despawned,
}

impl<H> Default for GridState<H> {
    /// The grid starts hidden.
    fn default() -> (r: Self)
        ensures
            r == GridState::<H>::Off,
    {
        GridState::Off
    }
}

/// The command a trigger issues from state `s`.
pub open spec fn command_of<H>(s: GridState<H>) -> GridCommand<H> {
    match s {
        GridState::On(x, y) => GridCommand::Despawn(x, y),
        GridState::Off => GridCommand::Spawn,
    }
}

/// The event fits the state: spawning only while hidden, despawning only
/// while shown.
pub open spec fn event_fits<H>(s: GridState<H>, e: GridEvent<H>) -> bool {
    (s is Off && e is Spawned) || (s is On && e is Despawned)
}

/// The state once event `e` has happened.
pub open spec fn applied<H>(e: GridEvent<H>) -> GridState<H> {
    match e {
        GridEvent::Spawned(x, y) => GridState::On(x, y),
        GridEvent::Despawned => GridState::Off,
    }
}

/// The event reported after carrying out `c`, where a spawn yields the
/// handles `fresh`.
pub open spec fn outcome<H>(c: GridCommand<H>, fresh: (H, H)) -> GridEvent<H> {
    match c {
        GridCommand::Spawn => GridEvent::Spawned(fresh.0, fresh.1),
        GridCommand::Despawn(_, _) => GridEvent::Despawned,
    }
}

/// One full trigger from state `s`: issue the command, carry it out, apply
/// the outcome.
pub open spec fn toggled<H>(s: GridState<H>, fresh: (H, H)) -> GridState<H> {
    applied(outcome(command_of(s), fresh))
}

/// The state after `n` triggers from the initial hidden state, where the
/// `i`-th trigger, if it spawns, yields the handles `fresh[i]`.
pub open spec fn after_triggers<H>(n: nat, fresh: Seq<(H, H)>) -> GridState<H>
    decreases n,
{
    if n == 0 {
        GridState::Off
    } else {
        toggled(after_triggers((n - 1) as nat, fresh), fresh[n - 1])
    }
}

impl<H: Copy> GridState<H> {
    /// The grid is shown.
    pub fn is_on(&self) -> (r: bool)
        ensures
            r == (*self is On),
    {
        match self {
            GridState::On(_, _) => true,
            GridState::Off => false,
        }
    }

    /// What a trigger asks of the scene: despawn both line sets while shown,
    /// spawn them while hidden.
    pub fn command(&self) -> (r: GridCommand<H>)
        ensures
            r == command_of(*self),
    {
        match self {
            GridState::On(x, y) => GridCommand::Despawn(*x, *y),
            GridState::Off => GridCommand::Spawn,
        }
    }

    /// The state once the scene has carried out the command. A spawn while
    /// shown, or a despawn while hidden, breaks the state machine and is
    /// ruled out.
    pub fn apply(self, event: GridEvent<H>) -> (r: GridState<H>)
        requires
            event_fits(self, event),
        ensures
            r == applied(event),
    {
        match event {
            GridEvent::Spawned(x, y) => GridState::On(x, y),
            GridEvent::Despawned => GridState::Off,
        }
    }
}

/// Carrying out the command of a trigger always gives an event that fits.
pub proof fn lemma_outcome_fits<H>(s: GridState<H>, fresh: (H, H))
    ensures
        event_fits(s, outcome(command_of(s), fresh)),
{
}

/// The first trigger shows the grid with the two spawned handles; the second
/// despawns exactly those two and hides it again.
pub proof fn lemma_toggle_twice<H>(fresh: Seq<(H, H)>)
    requires
        fresh.len() >= 2,
    ensures
        after_triggers(1, fresh) == GridState::On(fresh[0].0, fresh[0].1),
        command_of(after_triggers(1, fresh)) == GridCommand::Despawn(fresh[0].0, fresh[0].1),
        after_triggers(2, fresh) == GridState::<H>::Off,
{
    assert(after_triggers(0, fresh) == GridState::<H>::Off);
    assert(after_triggers(1, fresh) == GridState::On(fresh[0].0, fresh[0].1));
}

/// After an odd number of triggers the grid is shown, after an even number
/// it is hidden.
pub proof fn lemma_trigger_parity<H>(n: nat, fresh: Seq<(H, H)>)
    requires
        fresh.len() >= n,
    ensures
        (after_triggers(n, fresh) is On) == (n % 2 == 1),
    decreases n,
{
    if n > 0 {
        lemma_trigger_parity((n - 1) as nat, fresh);
    }
}

/// Lines in each set of the grid.
pub const GRID_LINES: usize = 20;

/// Half-length of each grid line, in world units.
pub const DEFAULT_LINE_LEN: u32 = 30;

/// A point in space.
#[derive(Clone, Copy, Debug, PartialEq, Eq)]
pub struct Point3<T> {
    pub x: T,
    pub y: T,
    pub z: T,
}

/// A line segment from its first point to its second.
pub type Segment = (Point3<i64>, Point3<i64>);

/// Offset of the `k`-th line across its primary axis: lines come in pairs
/// at `+i` and `-i` for `i = 0, 1, 2, ...`.
pub open spec fn line_offset(k: int) -> int {
    if k % 2 == 0 {
        k / 2
    } else {
        -(k / 2)
    }
}

/// The `k`-th line of the X-axis set: it spans `[-len, len]` along x at
/// height 0, offset along z.
pub open spec fn x_line(k: int, len: u32) -> Segment {
    (
        Point3 { x: -len as i64, y: 0, z: line_offset(k) as i64 },
        Point3 { x: len as i64, y: 0, z: line_offset(k) as i64 },
    )
}

/// The `k`-th line of the Y-axis set: it spans `[-len, len]` along y at
/// x = 0, offset along z.
pub open spec fn y_line(k: int, len: u32) -> Segment {
    (
        Point3 { x: 0, y: -len as i64, z: line_offset(k) as i64 },
        Point3 { x: 0, y: len as i64, z: line_offset(k) as i64 },
    )
}

/// Two lines for each `i` below `n / 2`.
pub open spec fn line_count(n: usize) -> int {
    2 * (n / 2)
}

/// The X-axis line set: `n` lines (one fewer for odd `n`) of half-length `len`.
pub fn gen_x_lines(n: usize, len: u32) -> (r: Vec<Segment>)
    ensures
        r@.len() == line_count(n),
        forall|k: int| 0 <= k < r@.len() ==> #[trigger] r@[k] == x_line(k, len),
{
    let mut v: Vec<Segment> = Vec::new();
    let half: usize = n / 2;
    let l: i64 = len as i64;
    let mut i: usize = 0;
    while i < half
        invariant
            i <= half,
            half == n / 2,
            l == len,
            v@.len() == 2 * i,
            forall|k: int| 0 <= k < v@.len() ==> #[trigger] v@[k] == x_line(k, len),
        decreases half - i,
    {
        let off: i64 = i as i64;
        v.push((Point3 { x: -l, y: 0, z: off }, Point3 { x: l, y: 0, z: off }));
        v.push((Point3 { x: -l, y: 0, z: -off }, Point3 { x: l, y: 0, z: -off }));
        assert(line_offset(2 * i) == i);
        assert(line_offset(2 * i + 1) == -i);
        i = i + 1;
    }
    v
}

/// The Y-axis line set: `n` lines (one fewer for odd `n`) of half-length `len`.
pub fn gen_y_lines(n: usize, len: u32) -> (r: Vec<Segment>)
    ensures
        r@.len() == line_count(n),
        forall|k: int| 0 <= k < r@.len() ==> #[trigger] r@[k] == y_line(k, len),
{
    let mut v: Vec<Segment> = Vec::new();
    let half: usize = n / 2;
    let l: i64 = len as i64;
    let mut i: usize = 0;
    while i < half
        invariant
            i <= half,
            half == n / 2,
            l == len,
            v@.len() == 2 * i,
            forall|k: int| 0 <= k < v@.len() ==> #[trigger] v@[k] == y_line(k, len),
        decreases half - i,
    {
        let off: i64 = i as i64;
        v.push((Point3 { x: 0, y: -l, z: off }, Point3 { x: 0, y: l, z: off }));
        v.push((Point3 { x: 0, y: -l, z: -off }, Point3 { x: 0, y: l, z: -off }));
        assert(line_offset(2 * i) == i);
        assert(line_offset(2 * i + 1) == -i);
        i = i + 1;
    }
    v
}

/// Every line of both sets has its two ends apart along the primary axis
/// alone: they share the other two coordinates, and the first end is at
/// `-len`, the second at `len`.
pub proof fn lemma_lines_span_primary_axis(k: int, len: u32)
    ensures
        x_line(k, len).0.y == x_line(k, len).1.y,
        x_line(k, len).0.z == x_line(k, len).1.z,
        x_line(k, len).0.x == -len,
        x_line(k, len).1.x == len,
        y_line(k, len).0.x == y_line(k, len).1.x,
        y_line(k, len).0.z == y_line(k, len).1.z,
        y_line(k, len).0.y == -len,
        y_line(k, len).1.y == len,
{
}

/// Where the X-axis line set goes this frame: under the camera in x and z,
/// keeping its own height.
pub fn follow_x_lines<T: Copy>(lines: Point3<T>, camera: Point3<T>) -> (r: Point3<T>)
    ensures
        r == (Point3 { x: camera.x, y: lines.y, z: camera.z }),
{
    Point3 { x: camera.x, y: lines.y, z: camera.z }
}

/// Where the Y-axis line set goes this frame: level with the camera in y
/// and z, keeping its own x.
pub fn follow_y_lines<T: Copy>(lines: Point3<T>, camera: Point3<T>) -> (r: Point3<T>)
    ensures
        r == (Point3 { x: lines.x, y: camera.y, z: camera.z }),
{
    Point3 { x: lines.x, y: camera.y, z: camera.z }
}

} // verus!
