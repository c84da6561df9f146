//! Timed creation of meteors with randomly drawn parameters.

use rand::Rng;
use vstd::prelude::*;
use crate::actors::{Actor, ActorKind, Arena, MAX_SPEED_PX, MAX_SPIN};
use crate::geometry::{unit_of, unit_vector, COORD_LIMIT};
use crate::plugins::EnemyPlugin;
use crate::timer::MAX_DT_MS;
use crate::world::{World, WorldModel, PLAYER_ID};

verus! {

/// Distance from the window edges inside which meteors appear, in
/// micro-pixels.
pub const SPAWN_INSET: i64 = 50_000_000;

/// Slowest and (exclusive) fastest meteor speed, in pixels per second.
pub const ENEMY_MIN_SPEED: i64 = 50;
pub const ENEMY_MAX_SPEED: i64 = 200;

/// Bound (exclusive above) of a meteor's spin rate, in milliradians per
/// second.
pub const ENEMY_SPIN_BOUND: i64 = 4000;

/// The randomly drawn parameters of a new meteor: position (micro-pixels),
/// a raw direction (thousandths, not yet of unit length), speed (pixels per
/// second) and spin rate (milliradians per second).
#[derive(Clone, Copy, Debug, PartialEq, Eq, Structural)]
pub struct EnemyDraw {
    pub x: i64,
    pub y: i64,
    pub dx: i64,
    pub dy: i64,
    pub speed: i64,
    pub spin: i64,
}

impl EnemyDraw {
    /// Values the model can hold.
    pub open spec fn wf(self) -> bool {
        &&& -COORD_LIMIT <= self.x <= COORD_LIMIT
        &&& -COORD_LIMIT <= self.y <= COORD_LIMIT
        &&& -2 * COORD_LIMIT <= self.dx <= 2 * COORD_LIMIT
        &&& -2 * COORD_LIMIT <= self.dy <= 2 * COORD_LIMIT
        &&& 0 <= self.speed <= MAX_SPEED_PX
        &&& -MAX_SPIN <= self.spin <= MAX_SPIN
    }

    /// Drawn from the spawn ranges of `arena`: a position within the inset
    /// window, direction components in `[-1, 1)` and not both zero, the
    /// speed range and the spin range.
    pub open spec fn in_ranges(self, arena: Arena) -> bool {
        &&& -(arena.width / 2) + SPAWN_INSET <= self.x < arena.width / 2 - SPAWN_INSET
        &&& -(arena.height / 2) + SPAWN_INSET <= self.y < arena.height / 2 - SPAWN_INSET
        &&& -1000 <= self.dx < 1000
        &&& -1000 <= self.dy < 1000
        &&& !(self.dx == 0 && self.dy == 0)
        &&& ENEMY_MIN_SPEED <= self.speed < ENEMY_MAX_SPEED
        &&& -ENEMY_SPIN_BOUND <= self.spin < ENEMY_SPIN_BOUND
    }
}

/// Whether meteors can appear in `arena`: the inset window is not empty.
pub open spec fn room_to_spawn(arena: Arena) -> bool {
    arena.width / 2 > SPAWN_INSET && arena.height / 2 > SPAWN_INSET
}

/// Relies on rand's `rng()` and `Rng::random_range` on a half-open integer
/// range: the value lies in `[lo, hi)`. `random_range` panics only on an
/// empty range, which `requires` excludes; besides, the thread's generator
/// panics when the operating system cannot seed it, or later reseed it.
#[verifier::external_body]
fn random_in(lo: i64, hi: i64) -> (r: i64)
    requires
        lo < hi,
    ensures
        lo <= r < hi,
{
    rand::rng().random_range(lo..hi)
}

impl EnemyDraw {
    /// Draws the parameters of a new meteor for `arena`, or `None` when the
    /// inset window is empty.
    pub fn sample(arena: &Arena) -> (r: Option<EnemyDraw>)
        requires
            arena.wf(),
        ensures
            r.is_some() <==> room_to_spawn(*arena),
            r matches Some(d) ==> d.in_ranges(*arena) && d.wf(),
    {
        let half_w: i64 = arena.width / 2;
        let half_h: i64 = arena.height / 2;
        if !(half_w > SPAWN_INSET && half_h > SPAWN_INSET) {
            return None;
        }
        let x = random_in(-half_w + SPAWN_INSET, half_w - SPAWN_INSET);
        let y = random_in(-half_h + SPAWN_INSET, half_h - SPAWN_INSET);
        let mut dx = random_in(-1000, 1000);
        let dy = random_in(-1000, 1000);
        if dx == 0 && dy == 0 {
            // A zero vector has no direction: such a draw moves right.
            dx = 1;
        }
        let speed = random_in(ENEMY_MIN_SPEED, ENEMY_MAX_SPEED);
        let spin = random_in(-ENEMY_SPIN_BOUND, ENEMY_SPIN_BOUND);
        Some(EnemyDraw { x, y, dx, dy, speed, spin })
    }
}

/// The state after a meteor is made from `d`: it takes the next id, starts
/// at angle zero, and moves along the unit vector of the drawn direction.
/// A zero direction has no unit vector, and an exhausted id counter has no
/// id left: then nothing is added.
pub open spec fn spawned(m: WorldModel, d: EnemyDraw) -> WorldModel {
    if (d.dx == 0 && d.dy == 0) || m.next_id == u64::MAX {
        m
    } else {
        let u = unit_of(d.dx as int, d.dy as int);
        WorldModel {
            enemies: m.enemies.push(
                Actor {
                    id: m.next_id,
                    kind: ActorKind::Enemy,
                    x: d.x,
                    y: d.y,
                    dx: u.0 as i64,
                    dy: u.1 as i64,
                    speed: d.speed,
                    rotation: 0,
                    spin: d.spin,
                },
            ),
            next_id: (m.next_id + 1) as u64,
            ..m
        }
    }
}

impl World {
    /// Adds a meteor made from `d`; returns whether one was added.
    pub fn spawn_enemy(&mut self, d: EnemyDraw) -> (added: bool)
        requires
            old(self).wf(),
            d.wf(),
        ensures
            final(self)@ == spawned(old(self)@, d),
            added == (final(self)@.enemies.len() == old(self)@.enemies.len() + 1),
            final(self).wf(),
    {
        let ghost m = self@;
        if self.next_id == u64::MAX {
            return false;
        }
        match unit_vector(d.dx, d.dy) {
            None => false,
            Some((ux, uy)) => {
                let e = Actor {
                    id: self.next_id,
                    kind: ActorKind::Enemy,
                    x: d.x,
                    y: d.y,
                    dx: ux,
                    dy: uy,
                    speed: d.speed,
                    rotation: 0,
                    spin: d.spin,
                };
                self.enemies.push(e);
                self.next_id = self.next_id + 1;
                proof {
                    let t = self@.enemies;
                    assert(t == m.enemies.push(e));
                    assert forall|i: int| 0 <= i < t.len() implies PLAYER_ID < #[trigger] t[i].id < self.next_id && t[i].wf() && t[i].kind == ActorKind::Enemy by {
                        if i < m.enemies.len() {
                            assert(m.enemies[i].id < m.next_id);
                            assert(m.enemies[i].wf());
                        }
                    }
                    assert forall|i: int, j: int| 0 <= i < j < t.len() implies t[i].id < t[j].id by {
                        if j < m.enemies.len() {
                            assert(m.enemies[i].id < m.enemies[j].id);
                        } else {
                            assert(m.enemies[i].id < m.next_id);
                        }
                    }
                    assert forall|i: int, j: int| 0 <= i < self@.bullets.len() && 0 <= j < t.len() implies self@.bullets[i].id != t[j].id by {
                        assert(self@.bullets[i].id < m.next_id);
                    }
                    assert forall|i: int| 0 <= i < self@.bullets.len() implies #[trigger] self@.bullets[i].id < self.next_id by {
                        assert(m.bullets[i].id < m.next_id);
                    }
                    assert forall|i: int| 0 <= i < self@.walls.len() implies #[trigger] self@.walls[i].id < self.next_id by {
                        assert(m.walls[i].id < m.next_id);
                    }
                }
                true
            },
        }
    }
}

/// The state with its spawn countdown advanced by `dt`.
pub open spec fn spawn_timer_ticked(m: WorldModel, dt: int) -> WorldModel {
    WorldModel { spawn_timer: m.spawn_timer.ticked(dt).0, ..m }
}

impl EnemyPlugin {
    /// Advances the spawn countdown; when it runs out, and the window has
    /// room, adds one meteor with randomly drawn parameters (unless the id
    /// counter is exhausted). Returns whether a meteor was added.
    pub fn spawn_enemies(world: &mut World, dt: u64) -> (added: bool)
        requires
            old(world).wf(),
            dt <= MAX_DT_MS,
        ensures
            ({
                let m1 = spawn_timer_ticked(old(world)@, dt as int);
                if old(world)@.spawn_timer.ticked(dt as int).1 && room_to_spawn(old(world)@.arena) {
                    exists|d: EnemyDraw|
                        d.in_ranges(old(world)@.arena) && d.wf() && final(world)@ == spawned(m1, d)
                } else {
                    final(world)@ == m1
                }
            }),
            added == (final(world)@.enemies.len() == old(world)@.enemies.len() + 1),
            old(world)@.spawn_timer.ticked(dt as int).1 && room_to_spawn(old(world)@.arena)
                && old(world)@.next_id < u64::MAX ==> added,
            final(world).wf(),
    {
        let finished = world.spawn_timer.0.tick(dt);
        if !finished {
            return false;
        }
        match EnemyDraw::sample(&world.arena) {
            None => false,
            Some(d) => world.spawn_enemy(d),
        }
    }
}

} // verus!
