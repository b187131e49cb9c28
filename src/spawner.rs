use vstd::prelude::*;
use crate::ai::homing;
use crate::motion::{Controller, Entity, Speed, Velocity, BOUNCE_COOLDOWN, MAX_TICK};
use crate::rng::draw_in;
use crate::screen::{Point, Screen, SUBUNITS};
use crate::timer::{Timer, TimerMode};

verus! {

/// Time between spawn batches: 3 s.
pub const SPAWN_PERIOD: u64 = 3_000_000;

/// Population of flies at or above which no batch is spawned.
pub const MAX_FLIES: usize = 42;

/// Flies in one batch.
pub const BATCH: usize = 3;

/// Flies are placed in `-SPAWN_REACH..SPAWN_REACH` on both axes.
pub const SPAWN_REACH: i64 = 1500 * SUBUNITS;

/// The player starts in `-START_REACH..START_REACH` on both axes.
pub const START_REACH: i64 = 300 * SUBUNITS;

/// How many draws may fall inside the arena before the search for places stops.
pub const MAX_DRAWS: usize = 1000;

/// Shortest interval between a fly's retargets: 0.25 s.
pub const FLY_FREQ_MIN: u64 = 250_000;

/// Longest interval between a fly's retargets: 1.8 s.
pub const FLY_FREQ_MAX: u64 = 1_800_000;

/// Speed of every body: 666 units per second across, 600 up and down.
pub const SPEED_X: i64 = 666 * SUBUNITS;
pub const SPEED_Y: i64 = 600 * SUBUNITS;

/// The body a fly starts as: at `position`, heading toward the origin at full
/// speed, its first retarget due in `first_interval` microseconds.
pub open spec fn spec_fly(position: Point, first_interval: u64) -> Entity {
    Entity {
        position,
        velocity: Velocity { x: homing(position.x, SPEED_X), y: homing(position.y, SPEED_Y) },
        speed: Speed { x: SPEED_X, y: SPEED_Y },
        controller: Controller::Ai {
            update_timer: Timer {
                elapsed: 0,
                duration: first_interval,
                mode: TimerMode::Once,
                finished: false,
                just_finished: false,
            },
            freq_min: FLY_FREQ_MIN,
            freq_max: FLY_FREQ_MAX,
        },
    }
}

/// A fly as the spawner makes it: at a spawn place, its first retarget due within
/// its range.
pub open spec fn spawned_fly(screen: Screen, e: Entity) -> bool {
    &&& spawn_place(screen, e.position)
    &&& exists|d: u64| FLY_FREQ_MIN <= d <= FLY_FREQ_MAX && e == #[trigger] spec_fly(e.position, d)
}

/// The body the player starts as: at `position`, at rest.
pub open spec fn spec_player(position: Point) -> Entity {
    Entity {
        position,
        velocity: Velocity { x: 0, y: 0 },
        speed: Speed { x: SPEED_X, y: SPEED_Y },
        controller: Controller::Player {
            bounce_timer: Timer {
                elapsed: 0,
                duration: BOUNCE_COOLDOWN,
                mode: TimerMode::Once,
                finished: false,
                just_finished: false,
            },
        },
    }
}

impl Entity {
    /// A new fly at `position` whose first retarget is due in `first_interval`.
    pub fn fly(position: Point, first_interval: u64) -> (e: Entity)
        requires
            FLY_FREQ_MIN <= first_interval <= FLY_FREQ_MAX,
        ensures
            e.wf(),
            e == spec_fly(position, first_interval),
    {
        let vx = if position.x > 0 { -SPEED_X } else { SPEED_X };
        let vy = if position.y > 0 { -SPEED_Y } else { SPEED_Y };
        Entity {
            position,
            velocity: Velocity { x: vx, y: vy },
            speed: Speed { x: SPEED_X, y: SPEED_Y },
            controller: Controller::Ai {
                update_timer: Timer::new(first_interval, TimerMode::Once),
                freq_min: FLY_FREQ_MIN,
                freq_max: FLY_FREQ_MAX,
            },
        }
    }

    /// A new player's body at rest at `position`.
    pub fn player(position: Point) -> (e: Entity)
        ensures
            e.wf(),
            e == spec_player(position),
    {
        Entity {
            position,
            velocity: Velocity { x: 0, y: 0 },
            speed: Speed { x: SPEED_X, y: SPEED_Y },
            controller: Controller::Player { bounce_timer: Timer::new(BOUNCE_COOLDOWN, TimerMode::Once) },
        }
    }
}

/// The player's body at a random place near the origin.
pub fn setup() -> (e: Entity)
    ensures
        e.wf(),
        e == spec_player(e.position),
        -START_REACH <= e.position.x < START_REACH,
        -START_REACH <= e.position.y < START_REACH,
{
    let x = draw_in(-START_REACH, START_REACH);
    let y = draw_in(-START_REACH, START_REACH);
    Entity::player(Point { x, y })
}

/// Where a fly is put when the draws found too few places outside the arena: on
/// the arena's right edge, which the half-open arena leaves outside.
pub open spec fn fallback_place(screen: Screen) -> Point {
    Point { x: screen.max_x, y: 0 }
}

/// A place drawn for a fly: in reach of the origin on both axes.
pub open spec fn in_reach(p: Point) -> bool {
    -SPAWN_REACH <= p.x < SPAWN_REACH && -SPAWN_REACH <= p.y < SPAWN_REACH
}

/// A place where a fly may appear: outside the arena, and drawn or the fallback.
pub open spec fn spawn_place(screen: Screen, p: Point) -> bool {
    &&& !screen.spec_contains(p)
    &&& in_reach(p) || p == fallback_place(screen)
}

/// The draws that fall outside the arena, in the order drawn.
pub open spec fn outside_of(screen: Screen, draws: Seq<Point>) -> Seq<Point>
    decreases draws.len(),
{
    if draws.len() == 0 {
        Seq::empty()
    } else {
        let rest = outside_of(screen, draws.drop_last());
        if screen.spec_contains(draws.last()) {
            rest
        } else {
            rest.push(draws.last())
        }
    }
}

/// The places of `count` flies: the first `count` draws outside the arena, and the
/// fallback for each fly that they leave without one.
pub open spec fn spec_places(screen: Screen, count: nat, draws: Seq<Point>) -> Seq<Point> {
    let o = outside_of(screen, draws);
    Seq::new(count, |k: int| if k < o.len() { o[k] } else { fallback_place(screen) })
}

proof fn lemma_outside_of_from_draws(screen: Screen, draws: Seq<Point>)
    ensures
        outside_of(screen, draws).len() <= draws.len(),
        forall|k: int| 0 <= k < outside_of(screen, draws).len() ==> {
            &&& !screen.spec_contains(#[trigger] outside_of(screen, draws)[k])
            &&& draws.contains(outside_of(screen, draws)[k])
        },
    decreases draws.len(),
{
    if draws.len() > 0 {
        let d = draws.drop_last();
        lemma_outside_of_from_draws(screen, d);
        assert forall|k: int| 0 <= k < outside_of(screen, d).len() implies draws.contains(
            #[trigger] outside_of(screen, d)[k],
        ) by {
            let j = choose|j: int| 0 <= j < d.len() && d[j] == outside_of(screen, d)[k];
            assert(draws[j] == d[j]);
        }
        assert(draws[draws.len() - 1] == draws.last());
    }
}

/// The places of `count` flies from the places drawn for them, in order (see
/// `spec_places`).
pub fn places_from_draws(screen: &Screen, count: usize, draws: &Vec<Point>) -> (r: Vec<Point>)
    ensures
        r@ == spec_places(*screen, count as nat, draws@),
{
    let mut o: Vec<Point> = Vec::new();
    let mut i: usize = 0;
    while i < draws.len()
        invariant
            i <= draws.len(),
            o@ == outside_of(*screen, draws@.take(i as int)),
        decreases draws.len() - i,
    {
        assert(draws@.take(i as int + 1).drop_last() == draws@.take(i as int));
        let p = draws[i];
        if !screen.contains(&p) {
            o.push(p);
        }
        i = i + 1;
    }
    assert(draws@.take(draws.len() as int) == draws@);
    let mut r: Vec<Point> = Vec::new();
    let mut k: usize = 0;
    while k < count
        invariant
            k <= count,
            o@ == outside_of(*screen, draws@),
            r@ == spec_places(*screen, count as nat, draws@).take(k as int),
        decreases count - k,
    {
        let p = if k < o.len() { o[k] } else { Point { x: screen.max_x, y: 0 } };
        r.push(p);
        k = k + 1;
        assert(r@ =~= spec_places(*screen, count as nat, draws@).take(k as int));
    }
    assert(r@ =~= spec_places(*screen, count as nat, draws@));
    r
}

/// The flies of a batch: fly `k` at `places[k]` with its first retarget due in
/// `intervals[k]`.
pub fn batch_from_draws(places: &Vec<Point>, intervals: &Vec<u64>) -> (r: Vec<Entity>)
    requires
        places.len() == intervals.len(),
        forall|k: int| 0 <= k < intervals.len() ==> FLY_FREQ_MIN <= #[trigger] intervals@[k] <= FLY_FREQ_MAX,
    ensures
        r@ == Seq::new(places.len() as nat, |k: int| spec_fly(places@[k], intervals@[k])),
        forall|k: int| 0 <= k < r.len() ==> (#[trigger] r@[k]).wf(),
{
    let mut r: Vec<Entity> = Vec::new();
    let mut k: usize = 0;
    while k < places.len()
        invariant
            k <= places.len(),
            places.len() == intervals.len(),
            forall|j: int| 0 <= j < intervals.len() ==> FLY_FREQ_MIN <= #[trigger] intervals@[j] <= FLY_FREQ_MAX,
            r@ == Seq::new(k as nat, |j: int| spec_fly(places@[j], intervals@[j])),
            forall|j: int| 0 <= j < r.len() ==> (#[trigger] r@[j]).wf(),
        decreases places.len() - k,
    {
        let e = Entity::fly(places[k], intervals[k]);
        r.push(e);
        k = k + 1;
        assert(r@ =~= Seq::new(k as nat, |j: int| spec_fly(places@[j], intervals@[j])));
    }
    r
}

/// How many flies a batch adds to a population of `population`: none at or above
/// the ceiling, else a batch, cut down so that the ceiling is not passed.
pub open spec fn spawn_count(population: int, cap: int, batch: int) -> int {
    if population >= cap {
        0
    } else if population + batch <= cap {
        batch
    } else {
        cap - population
    }
}

/// The periodic source of new flies.
#[derive(Clone, Copy, Debug, PartialEq, Eq, Structural)]
pub struct Spawner {
    pub timer: Timer,
    pub cap: usize,
    pub batch: usize,
}

impl Spawner {
    pub open spec fn wf(self) -> bool {
        self.timer.wf() && self.timer.mode == TimerMode::Repeating
    }

    /// A spawner that adds `BATCH` flies every `SPAWN_PERIOD` below `MAX_FLIES`.
    pub fn new() -> (s: Spawner)
        ensures
            s.wf(),
            s.timer == Timer::new_spec(SPAWN_PERIOD, TimerMode::Repeating),
            s.cap == MAX_FLIES,
            s.batch == BATCH,
    {
        Spawner { timer: Timer::new(SPAWN_PERIOD, TimerMode::Repeating), cap: MAX_FLIES, batch: BATCH }
    }

    /// Ticks the spawn timer by `dt`. When the period elapsed in this tick and the
    /// population of flies is below the ceiling, returns `spawn_count` new flies:
    /// places are drawn at random in reach of the origin, those inside the arena are
    /// passed over (see `places_from_draws`), and each fly's first interval is drawn
    /// within its range. Otherwise returns none.
    pub fn spawn_flies(&mut self, screen: &Screen, population: usize, dt: u64) -> (r: Vec<Entity>)
        requires
            old(self).wf(),
            dt <= MAX_TICK,
        ensures
            final(self).wf(),
            *final(self) == (Spawner { timer: old(self).timer.ticked(dt as nat), ..*old(self) }),
            r.len() == if final(self).timer.just_finished {
                spawn_count(population as int, old(self).cap as int, old(self).batch as int)
            } else {
                0
            },
            forall|i: int| 0 <= i < r.len() ==> spawned_fly(*screen, #[trigger] r@[i]),
            forall|i: int| 0 <= i < r.len() ==> (#[trigger] r@[i]).wf(),
    {
        self.timer.tick(dt);
        if population >= self.cap || !self.timer.just_finished() {
            return Vec::new();
        }
        let count: usize = if self.batch <= self.cap - population { self.batch } else { self.cap - population };
        let mut draws: Vec<Point> = Vec::new();
        let mut found: usize = 0;
        let mut tries: usize = 0;
        while found < count && tries < MAX_DRAWS
            invariant
                found <= count,
                forall|j: int| 0 <= j < draws.len() ==> in_reach(#[trigger] draws@[j]),
            decreases count - found + MAX_DRAWS - tries,
        {
            let p = Point { x: draw_in(-SPAWN_REACH, SPAWN_REACH), y: draw_in(-SPAWN_REACH, SPAWN_REACH) };
            if !screen.contains(&p) {
                found = found + 1;
            } else {
                tries = tries + 1;
            }
            draws.push(p);
        }
        let places = places_from_draws(screen, count, &draws);
        proof {
            lemma_outside_of_from_draws(*screen, draws@);
            assert forall|k: int| 0 <= k < places.len() implies spawn_place(*screen, #[trigger] places@[k]) by {
                let o = outside_of(*screen, draws@);
                if k < o.len() {
                    assert(draws@.contains(o[k]));
                    let j = choose|j: int| 0 <= j < draws@.len() && draws@[j] == o[k];
                    assert(in_reach(draws@[j]));
                }
            }
        }
        let mut intervals: Vec<u64> = Vec::new();
        let mut k: usize = 0;
        while k < count
            invariant
                k <= count,
                intervals.len() == k,
                forall|j: int| 0 <= j < intervals.len() ==> FLY_FREQ_MIN <= #[trigger] intervals@[j] <= FLY_FREQ_MAX,
            decreases count - k,
        {
            intervals.push(draw_in(FLY_FREQ_MIN as i64, FLY_FREQ_MAX as i64 + 1) as u64);
            k = k + 1;
        }
        let r = batch_from_draws(&places, &intervals);
        assert forall|i: int| 0 <= i < r.len() implies spawned_fly(*screen, #[trigger] r@[i]) by {
            assert(r@[i] == spec_fly(places@[i], intervals@[i]));
            assert(spawn_place(*screen, places@[i]));
        }
        r
    }
}

impl Default for Spawner {
    fn default() -> (s: Spawner)
        ensures
            s.wf(),
            s.cap == MAX_FLIES,
            s.batch == BATCH,
            s.timer == Timer::new_spec(SPAWN_PERIOD, TimerMode::Repeating),
    {
        Spawner::new()
    }
}

/// A spawner never lifts the population of flies above its ceiling, and never
/// lowers it.
pub proof fn lemma_population_cap(population: int, cap: int, batch: int)
    requires
        0 <= population,
        0 <= batch,
    ensures
        0 <= spawn_count(population, cap, batch),
        population + spawn_count(population, cap, batch) <= if population >= cap { population } else { cap },
{
}

} // verus!
