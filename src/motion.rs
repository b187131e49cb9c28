use vstd::prelude::*;
use crate::screen::{Point, Screen, SUBUNITS, MAX_EXTENT};
use crate::timer::{Timer, TimerMode, MAX_DURATION};

verus! {

/// Largest speed, in sub-units per second, on either axis.
pub const MAX_SPEED: i64 = 0x4000_0000;

/// Largest elapsed time, in microseconds, of one tick.
pub const MAX_TICK: u64 = 0x4000_0000;

/// Largest distance from the origin, on either axis, at which a body may start a move.
pub const MAX_COORD: i64 = 0x4_0000_0000_0000;

/// Microseconds in one second.
pub const MICROS: u64 = 1_000_000;

/// How far inside the arena a bounced body is put back: one unit.
pub const NUDGE: i64 = SUBUNITS;

/// How long a bounce holds off the re-application of held keys: 0.1 s.
pub const BOUNCE_COOLDOWN: u64 = 100_000;

/// Signed motion, in sub-units per second.
#[derive(Clone, Copy, Debug, PartialEq, Eq, Structural)]
pub struct Velocity {
    pub x: i64,
    pub y: i64,
}

/// The magnitude of motion on each axis, in sub-units per second.
#[derive(Clone, Copy, Debug, PartialEq, Eq, Structural)]
pub struct Speed {
    pub x: i64,
    pub y: i64,
}

/// Who steers a body.
#[derive(Clone, Copy, Debug, PartialEq, Eq, Structural)]
pub enum Controller {
    /// Steered by keys; the timer holds off re-applying held keys after a bounce.
    Player { bounce_timer: Timer },
    /// Steered by chance; the timer fires a new heading, rescheduled within
    /// `freq_min..=freq_max` microseconds.
    Ai { update_timer: Timer, freq_min: u64, freq_max: u64 },
}

/// One moving body of the arena.
#[derive(Clone, Copy, Debug, PartialEq, Eq, Structural)]
pub struct Entity {
    pub position: Point,
    pub velocity: Velocity,
    pub speed: Speed,
    pub controller: Controller,
}

/// `v` is one of `-s`, `0` and `s`.
pub open spec fn on_axis(v: i64, s: i64) -> bool {
    v == 0 || v == s || v == -s
}

/// The distance covered in `dt` microseconds at velocity `v`, rounded away from
/// zero, so that any motion at all leaves the starting point.
pub open spec fn spec_displacement(v: int, dt: int) -> int {
    if v >= 0 {
        (v * dt + (MICROS - 1)) / (MICROS as int)
    } else {
        -(((-v) * dt + (MICROS - 1)) / (MICROS as int))
    }
}

impl Controller {
    pub open spec fn wf(self) -> bool {
        match self {
            Controller::Player { bounce_timer } => bounce_timer.wf() && bounce_timer.mode
                == TimerMode::Once,
            Controller::Ai { update_timer, freq_min, freq_max } => {
                &&& update_timer.wf()
                &&& update_timer.mode == TimerMode::Once
                &&& freq_min <= freq_max < MAX_DURATION
            },
        }
    }
}

impl Entity {
    /// Speeds are positive and bounded, velocity is minus the speed, zero or the speed
    /// on each axis, and the controller is well formed.
    pub open spec fn wf(self) -> bool {
        &&& 0 < self.speed.x <= MAX_SPEED
        &&& 0 < self.speed.y <= MAX_SPEED
        &&& on_axis(self.velocity.x, self.speed.x)
        &&& on_axis(self.velocity.y, self.speed.y)
        &&& self.controller.wf()
    }

    /// The position is close enough to the origin for a move to be computed.
    pub open spec fn in_world(self) -> bool {
        -MAX_COORD <= self.position.x <= MAX_COORD && -MAX_COORD <= self.position.y <= MAX_COORD
    }
}

/// The distance covered in `dt` microseconds at velocity `v`, rounded away from zero.
pub fn displacement(v: i64, dt: u64) -> (d: i64)
    requires
        -MAX_SPEED <= v <= MAX_SPEED,
        dt <= MAX_TICK,
    ensures
        d == spec_displacement(v as int, dt as int),
        -MAX_COORD <= d <= MAX_COORD,
{
    let m: u64 = if v >= 0 { v as u64 } else { (-v) as u64 };
    assert(m * dt <= 0x4000_0000 * 0x4000_0000) by (nonlinear_arith)
        requires m <= 0x4000_0000, dt <= 0x4000_0000;
    let q: u64 = (m * dt + (MICROS - 1)) / MICROS;
    assert(q <= m * dt + (MICROS - 1));
    if v >= 0 {
        q as i64
    } else {
        -(q as i64)
    }
}

/// One axis of the bounce: `p` is clamped into `lo..=hi`; a clamped value on an
/// edge is put `NUDGE` back inside and the velocity on that axis turns around.
pub open spec fn bounce_axis(p: i64, v: i64, lo: i64, hi: i64) -> (i64, i64, bool) {
    let c = if p < lo { lo } else if p > hi { hi } else { p };
    if c == lo {
        ((lo + NUDGE) as i64, -v as i64, true)
    } else if c == hi {
        ((hi - NUDGE) as i64, -v as i64, true)
    } else {
        (c, v, false)
    }
}

fn bounce_exec(p: i64, v: i64, lo: i64, hi: i64) -> (r: (i64, i64, bool))
    requires
        -MAX_EXTENT <= lo < hi <= MAX_EXTENT,
        -MAX_SPEED <= v <= MAX_SPEED,
    ensures
        r == bounce_axis(p, v, lo, hi),
{
    let c = if p < lo { lo } else if p > hi { hi } else { p };
    if c == lo {
        (lo + NUDGE, -v, true)
    } else if c == hi {
        (hi - NUDGE, -v, true)
    } else {
        (c, v, false)
    }
}

/// The body after one move of `dt` microseconds in `screen`.
///
/// It moves by its velocity. A body that was inside the arena and is now outside
/// bounces: each axis is clamped to the arena, an axis on an edge is put back one
/// unit inside with its velocity reversed, and a player that bounced restarts its
/// bounce cooldown. Any other body keeps the moved position.
pub open spec fn moved(e: Entity, screen: Screen, dt: nat) -> Entity {
    let p = Point {
        x: (e.position.x + spec_displacement(e.velocity.x as int, dt as int)) as i64,
        y: (e.position.y + spec_displacement(e.velocity.y as int, dt as int)) as i64,
    };
    if !screen.spec_contains(e.position) || screen.spec_contains(p) {
        Entity { position: p, ..e }
    } else {
        let bx = bounce_axis(p.x, e.velocity.x, screen.min_x, screen.max_x);
        let by = bounce_axis(p.y, e.velocity.y, screen.min_y, screen.max_y);
        let controller = match e.controller {
            Controller::Player { bounce_timer } => if bx.2 || by.2 {
                Controller::Player {
                    bounce_timer: Timer {
                        elapsed: 0,
                        finished: false,
                        just_finished: false,
                        ..bounce_timer
                    },
                }
            } else {
                e.controller
            },
            _ => e.controller,
        };
        Entity {
            position: Point { x: bx.0, y: by.0 },
            velocity: Velocity { x: bx.1, y: by.1 },
            controller,
            ..e
        }
    }
}

impl Entity {
    /// Moves the body for `dt` microseconds and bounces it off the arena's edges.
    pub fn apply_move(&mut self, screen: &Screen, dt: u64)
        requires
            old(self).wf(),
            old(self).in_world(),
            screen.wf(),
            dt <= MAX_TICK,
        ensures
            final(self).wf(),
            *final(self) == moved(*old(self), *screen, dt as nat),
    {
        let was_onscreen = screen.contains(&self.position);
        let dx = displacement(self.velocity.x, dt);
        let dy = displacement(self.velocity.y, dt);
        self.position = Point { x: self.position.x + dx, y: self.position.y + dy };
        if !was_onscreen || screen.contains(&self.position) {
            return;
        }
        let (px, vx, bounced_x) = bounce_exec(self.position.x, self.velocity.x, screen.min_x, screen.max_x);
        let (py, vy, bounced_y) = bounce_exec(self.position.y, self.velocity.y, screen.min_y, screen.max_y);
        self.position = Point { x: px, y: py };
        self.velocity = Velocity { x: vx, y: vy };
        if bounced_x || bounced_y {
            match &mut self.controller {
                Controller::Player { bounce_timer } => bounce_timer.reset(),
                Controller::Ai { .. } => {},
            }
        }
    }
}

/// One frame of motion on every body (see `Entity::apply_move`).
pub fn apply_moves(bodies: &mut Vec<Entity>, screen: &Screen, dt: u64)
    requires
        forall|i: int| 0 <= i < old(bodies).len() ==> (#[trigger] old(bodies)@[i]).wf() && old(bodies)@[i].in_world(),
        screen.wf(),
        dt <= MAX_TICK,
    ensures
        final(bodies).len() == old(bodies).len(),
        forall|i: int| 0 <= i < final(bodies).len() ==> #[trigger] final(bodies)@[i] == moved(old(bodies)@[i], *screen, dt as nat),
        forall|i: int| 0 <= i < final(bodies).len() ==> (#[trigger] final(bodies)@[i]).wf(),
{
    let ghost b0 = bodies@;
    let mut i: usize = 0;
    while i < bodies.len()
        invariant
            i <= bodies.len(),
            bodies.len() == b0.len(),
            screen.wf(),
            dt <= MAX_TICK,
            forall|j: int| 0 <= j < b0.len() ==> (#[trigger] b0[j]).wf() && b0[j].in_world(),
            forall|j: int| i <= j < b0.len() ==> bodies@[j] == b0[j],
            forall|j: int| 0 <= j < i ==> #[trigger] bodies@[j] == moved(b0[j], *screen, dt as nat),
            forall|j: int| 0 <= j < i ==> (#[trigger] bodies@[j]).wf(),
        decreases b0.len() - i,
    {
        let mut e = bodies[i];
        e.apply_move(screen, dt);
        bodies.set(i, e);
        i = i + 1;
    }
}

proof fn lemma_moving_leaves(v: int, dt: int)
    requires
        -MAX_SPEED <= v <= MAX_SPEED,
        0 <= dt <= MAX_TICK,
    ensures
        -MAX_COORD <= spec_displacement(v, dt) <= MAX_COORD,
        dt > 0 && v > 0 ==> spec_displacement(v, dt) > 0,
        dt > 0 && v < 0 ==> spec_displacement(v, dt) < 0,
        v == 0 || dt == 0 ==> spec_displacement(v, dt) == 0,
{
    let m = if v < 0 { -v } else { v };
    assert(0 <= m * dt <= 0x4000_0000 * 0x4000_0000) by (nonlinear_arith)
        requires 0 <= m <= 0x4000_0000, 0 <= dt <= 0x4000_0000;
    if dt > 0 && m > 0 {
        assert(m * dt >= 1) by (nonlinear_arith)
            requires m > 0, dt > 0;
    }
    if v == 0 || dt == 0 {
        assert(m * dt == 0) by (nonlinear_arith)
            requires m == 0 || dt == 0;
    }
}

/// After a bounce, the velocity on each axis that met an edge points back into the
/// arena: away from the lower edge, or away from the upper one.
pub proof fn lemma_bounce_points_inward(e: Entity, screen: Screen, dt: nat)
    requires
        e.wf(),
        e.in_world(),
        screen.wf(),
        dt <= MAX_TICK,
        screen.spec_contains(e.position),
    ensures
        ({
            let q = Point {
                x: (e.position.x + spec_displacement(e.velocity.x as int, dt as int)) as i64,
                y: (e.position.y + spec_displacement(e.velocity.y as int, dt as int)) as i64,
            };
            let v = moved(e, screen, dt).velocity;
            &&& !screen.spec_contains(q) && q.x <= screen.min_x ==> v.x >= 0
            &&& !screen.spec_contains(q) && q.x >= screen.max_x ==> v.x <= 0
            &&& !screen.spec_contains(q) && q.y <= screen.min_y ==> v.y >= 0
            &&& !screen.spec_contains(q) && q.y >= screen.max_y ==> v.y <= 0
        }),
{
    lemma_moving_leaves(e.velocity.x as int, dt as int);
    lemma_moving_leaves(e.velocity.y as int, dt as int);
    let dx = spec_displacement(e.velocity.x as int, dt as int);
    let dy = spec_displacement(e.velocity.y as int, dt as int);
    let q = Point { x: (e.position.x + dx) as i64, y: (e.position.y + dy) as i64 };
    assert(q.x == e.position.x + dx && q.y == e.position.y + dy);
    if !screen.spec_contains(q) {
        let bx = bounce_axis(q.x, e.velocity.x, screen.min_x, screen.max_x);
        let by = bounce_axis(q.y, e.velocity.y, screen.min_y, screen.max_y);
        assert(moved(e, screen, dt).velocity == Velocity { x: bx.1, y: by.1 });
    }
}

pub open spec fn abs(v: int) -> int {
    if v < 0 { -v } else { v }
}

/// A move never changes how fast a body goes on either axis: a bounce only turns
/// the velocity around.
pub proof fn lemma_speed_preserved(e: Entity, screen: Screen, dt: nat)
    requires
        e.wf(),
        screen.wf(),
    ensures
        abs(moved(e, screen, dt).velocity.x as int) == abs(e.velocity.x as int),
        abs(moved(e, screen, dt).velocity.y as int) == abs(e.velocity.y as int),
{
}

/// A body that was inside an arena at least two units wide and high ends its move
/// inside it, and on each axis that bounced it stands at least a unit away from
/// both edges.
pub proof fn lemma_bounce_lands_inside(e: Entity, screen: Screen, dt: nat)
    requires
        e.wf(),
        e.in_world(),
        screen.wf(),
        dt <= MAX_TICK,
        screen.max_x - screen.min_x >= 2 * NUDGE,
        screen.max_y - screen.min_y >= 2 * NUDGE,
        screen.spec_contains(e.position),
    ensures
        screen.spec_contains(moved(e, screen, dt).position),
        ({
            let p = moved(e, screen, dt).position;
            let q = Point {
                x: (e.position.x + spec_displacement(e.velocity.x as int, dt as int)) as i64,
                y: (e.position.y + spec_displacement(e.velocity.y as int, dt as int)) as i64,
            };
            &&& bounce_axis(q.x, e.velocity.x, screen.min_x, screen.max_x).2 && !screen.spec_contains(q)
                ==> screen.min_x + NUDGE <= p.x <= screen.max_x - NUDGE
            &&& bounce_axis(q.y, e.velocity.y, screen.min_y, screen.max_y).2 && !screen.spec_contains(q)
                ==> screen.min_y + NUDGE <= p.y <= screen.max_y - NUDGE
        }),
{
}

} // verus!
