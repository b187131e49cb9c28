use vstd::prelude::*;
use crate::motion::{on_axis, Controller, Entity, Speed, Velocity, MAX_SPEED, MAX_TICK};

verus! {

/// The four direction keys.
#[derive(Clone, Copy, Debug, PartialEq, Eq, Structural)]
pub enum Key {
    Up,
    Down,
    Left,
    Right,
}

pub open spec fn is_vertical(k: Key) -> bool {
    k is Up || k is Down
}

/// The velocity after one key asserts its direction: Up and Down set the vertical
/// axis to plus or minus the speed, Right and Left the horizontal one.
pub open spec fn pressed_one(v: Velocity, s: Speed, k: Key) -> Velocity {
    match k {
        Key::Up => Velocity { y: s.y, ..v },
        Key::Down => Velocity { y: (-s.y) as i64, ..v },
        Key::Right => Velocity { x: s.x, ..v },
        Key::Left => Velocity { x: (-s.x) as i64, ..v },
    }
}

/// The velocity after the keys assert their directions in order; the last key of
/// an axis wins.
pub open spec fn pressed_all(v: Velocity, s: Speed, keys: Seq<Key>) -> Velocity
    decreases keys.len(),
{
    if keys.len() == 0 {
        v
    } else {
        pressed_one(pressed_all(v, s, keys.drop_last()), s, keys.last())
    }
}

/// Some key of `keys` is on the vertical axis (`vertical`) or the horizontal one.
pub open spec fn has_axis(keys: Seq<Key>, vertical: bool) -> bool {
    exists|i: int| 0 <= i < keys.len() && is_vertical(#[trigger] keys[i]) == vertical
}

/// The velocity after the release edges: an axis drops to zero when one of its keys
/// was released and none of its keys is still held.
pub open spec fn released_all(v: Velocity, released: Seq<Key>, held: Seq<Key>) -> Velocity {
    Velocity {
        x: if has_axis(released, false) && !has_axis(held, false) { 0 } else { v.x },
        y: if has_axis(released, true) && !has_axis(held, true) { 0 } else { v.y },
    }
}

/// A player's body after one frame of input and `dt` microseconds.
///
/// Newly pressed keys assert their directions; the bounce cooldown ticks and, if
/// it ran out in this frame, the held keys assert theirs again; then released keys
/// stop their axis unless another key of that axis is held.
pub open spec fn steered(
    e: Entity,
    pressed: Seq<Key>,
    released: Seq<Key>,
    held: Seq<Key>,
    dt: nat,
) -> Entity {
    match e.controller {
        Controller::Player { bounce_timer } => {
            let t = bounce_timer.ticked(dt);
            let v1 = pressed_all(e.velocity, e.speed, pressed);
            let v2 = if t.just_finished { pressed_all(v1, e.speed, held) } else { v1 };
            Entity {
                velocity: released_all(v2, released, held),
                controller: Controller::Player { bounce_timer: t },
                ..e
            }
        },
        _ => e,
    }
}

proof fn lemma_pressed_on_axis(v: Velocity, s: Speed, keys: Seq<Key>)
    requires
        0 < s.x <= MAX_SPEED,
        0 < s.y <= MAX_SPEED,
        on_axis(v.x, s.x),
        on_axis(v.y, s.y),
    ensures
        on_axis(pressed_all(v, s, keys).x, s.x),
        on_axis(pressed_all(v, s, keys).y, s.y),
    decreases keys.len(),
{
    if keys.len() > 0 {
        lemma_pressed_on_axis(v, s, keys.drop_last());
    }
}

fn press_keys(v: Velocity, s: Speed, keys: &Vec<Key>) -> (r: Velocity)
    requires
        0 < s.x,
        0 < s.y,
    ensures
        r == pressed_all(v, s, keys@),
{
    let mut r = v;
    let mut i: usize = 0;
    while i < keys.len()
        invariant
            0 < s.x,
            0 < s.y,
            i <= keys.len(),
            r == pressed_all(v, s, keys@.take(i as int)),
        decreases keys.len() - i,
    {
        assert(keys@.take(i as int + 1).drop_last() == keys@.take(i as int));
        r = match keys[i] {
            Key::Up => Velocity { y: s.y, ..r },
            Key::Down => Velocity { y: -s.y, ..r },
            Key::Right => Velocity { x: s.x, ..r },
            Key::Left => Velocity { x: -s.x, ..r },
        };
        i = i + 1;
    }
    assert(keys@.take(keys.len() as int) == keys@);
    r
}

fn any_on_axis(keys: &Vec<Key>, vertical: bool) -> (r: bool)
    ensures
        r == has_axis(keys@, vertical),
{
    let mut i: usize = 0;
    while i < keys.len()
        invariant
            i <= keys.len(),
            forall|j: int| 0 <= j < i ==> is_vertical(#[trigger] keys@[j]) != vertical,
        decreases keys.len() - i,
    {
        let v = match keys[i] {
            Key::Up | Key::Down => true,
            Key::Left | Key::Right => false,
        };
        if v == vertical {
            return true;
        }
        i = i + 1;
    }
    false
}

impl Entity {
    /// Applies one frame of key edges and held keys to a player's body and ticks its
    /// bounce cooldown by `dt` microseconds (see `steered`). A fly is left as it is.
    pub fn steer(
        &mut self,
        pressed: &Vec<Key>,
        released: &Vec<Key>,
        held: &Vec<Key>,
        dt: u64,
    )
        requires
            old(self).wf(),
            dt <= MAX_TICK,
        ensures
            final(self).wf(),
            *final(self) == steered(*old(self), pressed@, released@, held@, dt as nat),
    {
        let ghost e0 = *self;
        let just = match &mut self.controller {
            Controller::Player { bounce_timer } => {
                bounce_timer.tick(dt);
                bounce_timer.just_finished()
            },
            Controller::Ai { .. } => {
                return;
            },
        };
        let v1 = press_keys(self.velocity, self.speed, pressed);
        let v2 = if just { press_keys(v1, self.speed, held) } else { v1 };
        proof {
            lemma_pressed_on_axis(e0.velocity, e0.speed, pressed@);
            lemma_pressed_on_axis(v1, e0.speed, held@);
        }
        let stop_x = any_on_axis(released, false) && !any_on_axis(held, false);
        let stop_y = any_on_axis(released, true) && !any_on_axis(held, true);
        self.velocity = Velocity {
            x: if stop_x { 0 } else { v2.x },
            y: if stop_y { 0 } else { v2.y },
        };
    }
}

/// One frame of key input on every body: players are steered (see `steered`),
/// flies are left as they are.
pub fn keyboard_movement(bodies: &mut Vec<Entity>, pressed: &Vec<Key>, released: &Vec<Key>, held: &Vec<Key>, dt: u64)
    requires
        forall|i: int| 0 <= i < old(bodies).len() ==> (#[trigger] old(bodies)@[i]).wf(),
        dt <= MAX_TICK,
    ensures
        final(bodies).len() == old(bodies).len(),
        forall|i: int| 0 <= i < final(bodies).len() ==> #[trigger] final(bodies)@[i] == steered(old(bodies)@[i], pressed@, released@, held@, dt as nat),
        forall|i: int| 0 <= i < final(bodies).len() ==> (#[trigger] final(bodies)@[i]).wf(),
{
    let ghost b0 = bodies@;
    let mut i: usize = 0;
    while i < bodies.len()
        invariant
            i <= bodies.len(),
            bodies.len() == b0.len(),
            dt <= MAX_TICK,
            forall|j: int| 0 <= j < b0.len() ==> (#[trigger] b0[j]).wf(),
            forall|j: int| i <= j < b0.len() ==> bodies@[j] == b0[j],
            forall|j: int| 0 <= j < i ==> #[trigger] bodies@[j] == steered(b0[j], pressed@, released@, held@, dt as nat),
            forall|j: int| 0 <= j < i ==> (#[trigger] bodies@[j]).wf(),
        decreases b0.len() - i,
    {
        let mut e = bodies[i];
        e.steer(pressed, released, held, dt);
        bodies.set(i, e);
        i = i + 1;
    }
}

} // verus!
