use vstd::prelude::*;
use crate::motion::{Controller, Entity, Velocity, MAX_SPEED, MAX_TICK};
use crate::rng::draw_in;
use crate::screen::Screen;
use crate::timer::Timer;

verus! {

/// A heading sample `u` stands for the fraction `u / SAMPLE_SCALE` of `-1.0..1.0`.
pub const SAMPLE_SCALE: i64 = 1_000_000;

/// `u / SAMPLE_SCALE` rounded to the nearest integer, halves away from zero.
pub open spec fn spec_round_unit(u: int) -> int {
    if u <= -(SAMPLE_SCALE / 2) {
        -1
    } else if u >= SAMPLE_SCALE / 2 {
        1
    } else {
        0
    }
}

/// A heading sample rounded to the nearest of -1, 0 and 1.
pub fn round_unit(u: i64) -> (r: i64)
    ensures
        r == spec_round_unit(u as int),
{
    if u <= -(SAMPLE_SCALE / 2) {
        -1
    } else if u >= SAMPLE_SCALE / 2 {
        1
    } else {
        0
    }
}

/// `s` times a rounded heading `r`.
fn scaled(s: i64, r: i64) -> (v: i64)
    requires
        0 < s <= MAX_SPEED,
        -1 <= r <= 1,
    ensures
        v == s * r,
        crate::motion::on_axis(v, s),
{
    if r < 0 {
        assert(r == -1);
        -s
    } else if r > 0 {
        assert(r == 1);
        s
    } else {
        assert(r == 0);
        0
    }
}

/// The heading of an off-screen fly on one axis: full speed toward the origin.
pub open spec fn homing(p: i64, s: i64) -> i64 {
    if p > 0 { (-s) as i64 } else { s }
}

/// What the draws of a retarget must satisfy: heading samples in `-1.0..1.0`, and
/// a next interval of the fly's range, both ends included.
pub open spec fn draws_ok(e: Entity, ux: i64, uy: i64, next: u64) -> bool {
    &&& -SAMPLE_SCALE <= ux < SAMPLE_SCALE
    &&& -SAMPLE_SCALE <= uy < SAMPLE_SCALE
    &&& match e.controller {
        Controller::Ai { freq_min, freq_max, .. } => freq_min <= next <= freq_max,
        _ => false,
    }
}

/// A fly after it picks a new heading. Inside the arena each axis gets its speed
/// times the rounded heading sample; outside it, each axis heads toward the origin at
/// full speed. Its timer starts over with `next` microseconds.
pub open spec fn retargeted(e: Entity, screen: Screen, ux: i64, uy: i64, next: u64) -> Entity {
    let velocity = if screen.spec_contains(e.position) {
        Velocity {
            x: (e.speed.x * spec_round_unit(ux as int)) as i64,
            y: (e.speed.y * spec_round_unit(uy as int)) as i64,
        }
    } else {
        Velocity { x: homing(e.position.x, e.speed.x), y: homing(e.position.y, e.speed.y) }
    };
    let controller = match e.controller {
        Controller::Ai { update_timer, freq_min, freq_max } => Controller::Ai {
            update_timer: Timer {
                elapsed: 0,
                duration: next,
                finished: false,
                just_finished: false,
                ..update_timer
            },
            freq_min,
            freq_max,
        },
        _ => e.controller,
    };
    Entity { velocity, controller, ..e }
}

/// The body with its controller's timer advanced by `dt`, if it is a fly.
pub open spec fn ai_ticked(e: Entity, dt: nat) -> Entity {
    match e.controller {
        Controller::Ai { update_timer, freq_min, freq_max } => Entity {
            controller: Controller::Ai { update_timer: update_timer.ticked(dt), freq_min, freq_max },
            ..e
        },
        _ => e,
    }
}

/// Whether a fly's timer went off during its latest tick.
pub open spec fn fired(e: Entity) -> bool {
    match e.controller {
        Controller::Ai { update_timer, .. } => update_timer.just_finished,
        _ => false,
    }
}

/// What one frame of the AI driver may make of body `e`: its timer (if a fly) ticks
/// by `dt`; if the timer went off, the fly retargets from some valid draws.
pub open spec fn ai_outcome(e: Entity, after: Entity, screen: Screen, dt: nat) -> bool {
    let t = ai_ticked(e, dt);
    &&& !fired(t) ==> after == t
    &&& fired(t) ==> exists|ux: i64, uy: i64, next: u64|
        draws_ok(e, ux, uy, next) && after == #[trigger] retargeted(t, screen, ux, uy, next)
}

impl Entity {
    /// Gives a fly a new heading from the heading samples `ux` and `uy` (see
    /// `retargeted`) and restarts its timer with `next` microseconds.
    pub fn retarget(&mut self, screen: &Screen, ux: i64, uy: i64, next: u64)
        requires
            old(self).wf(),
            screen.wf(),
            draws_ok(*old(self), ux, uy, next),
        ensures
            final(self).wf(),
            *final(self) == retargeted(*old(self), *screen, ux, uy, next),
    {
        if screen.contains(&self.position) {
            let vx = scaled(self.speed.x, round_unit(ux));
            let vy = scaled(self.speed.y, round_unit(uy));
            self.velocity = Velocity { x: vx, y: vy };
        } else {
            let vx = if self.position.x > 0 { -self.speed.x } else { self.speed.x };
            let vy = if self.position.y > 0 { -self.speed.y } else { self.speed.y };
            self.velocity = Velocity { x: vx, y: vy };
        }
        match &mut self.controller {
            Controller::Ai { update_timer, .. } => update_timer.reset_to(next),
            Controller::Player { .. } => {},
        }
    }

    /// Advances a fly's timer by `dt` microseconds; when it goes off, the fly draws
    /// its heading samples and next interval at random and retargets. A player's
    /// body is left as it is.
    pub fn ai_update(&mut self, screen: &Screen, dt: u64)
        requires
            old(self).wf(),
            screen.wf(),
            dt <= MAX_TICK,
        ensures
            final(self).wf(),
            ai_outcome(*old(self), *final(self), *screen, dt as nat),
    {
        let (lo, hi) = match &mut self.controller {
            Controller::Ai { update_timer, freq_min, freq_max } => {
                update_timer.tick(dt);
                if !update_timer.just_finished() {
                    return;
                }
                (*freq_min, *freq_max)
            },
            Controller::Player { .. } => {
                return;
            },
        };
        let ux = draw_in(-SAMPLE_SCALE, SAMPLE_SCALE);
        let uy = draw_in(-SAMPLE_SCALE, SAMPLE_SCALE);
        let next = draw_in(lo as i64, hi as i64 + 1) as u64;
        self.retarget(screen, ux, uy, next);
    }
}

/// One frame of the AI driver on every body (see `ai_update`).
pub fn ai_movement(bodies: &mut Vec<Entity>, screen: &Screen, dt: u64)
    requires
        forall|i: int| 0 <= i < old(bodies).len() ==> (#[trigger] old(bodies)@[i]).wf(),
        screen.wf(),
        dt <= MAX_TICK,
    ensures
        final(bodies).len() == old(bodies).len(),
        forall|i: int| 0 <= i < final(bodies).len() ==> (#[trigger] final(bodies)@[i]).wf(),
        forall|i: int| 0 <= i < final(bodies).len() ==> ai_outcome(
            old(bodies)@[i],
            #[trigger] final(bodies)@[i],
            *screen,
            dt as nat,
        ),
{
    let ghost b0 = bodies@;
    let mut i: usize = 0;
    while i < bodies.len()
        invariant
            i <= bodies.len(),
            bodies.len() == b0.len(),
            screen.wf(),
            dt <= MAX_TICK,
            forall|j: int| 0 <= j < b0.len() ==> (#[trigger] b0[j]).wf(),
            forall|j: int| i <= j < b0.len() ==> bodies@[j] == b0[j],
            forall|j: int| 0 <= j < i ==> (#[trigger] bodies@[j]).wf(),
            forall|j: int| 0 <= j < i ==> ai_outcome(b0[j], #[trigger] bodies@[j], *screen, dt as nat),
        decreases b0.len() - i,
    {
        let mut e = bodies[i];
        assert(b0[i as int].wf());
        e.ai_update(screen, dt);
        bodies.set(i, e);
        i = i + 1;
    }
}

/// Inside the arena, a new heading is one of the nine combinations of minus the
/// speed, zero and the speed on each axis.
pub proof fn lemma_heading_set(e: Entity, screen: Screen, ux: i64, uy: i64, next: u64)
    requires
        e.wf(),
        screen.wf(),
        draws_ok(e, ux, uy, next),
        screen.spec_contains(e.position),
    ensures
        crate::motion::on_axis(retargeted(e, screen, ux, uy, next).velocity.x, e.speed.x),
        crate::motion::on_axis(retargeted(e, screen, ux, uy, next).velocity.y, e.speed.y),
{
}

/// Outside the arena, a new heading points back at it: past the right edge the fly
/// moves left, past the left edge right, past the top down and past the bottom up.
pub proof fn lemma_homing(e: Entity, screen: Screen, ux: i64, uy: i64, next: u64)
    requires
        e.wf(),
        screen.wf(),
        draws_ok(e, ux, uy, next),
        !screen.spec_contains(e.position),
    ensures
        e.position.x >= screen.max_x ==> retargeted(e, screen, ux, uy, next).velocity.x < 0,
        e.position.x < screen.min_x ==> retargeted(e, screen, ux, uy, next).velocity.x > 0,
        e.position.y >= screen.max_y ==> retargeted(e, screen, ux, uy, next).velocity.y < 0,
        e.position.y < screen.min_y ==> retargeted(e, screen, ux, uy, next).velocity.y > 0,
{
}

} // verus!
