//! Aiming at the cursor and firing, subject to the fire cooldown.

use vstd::prelude::*;
use crate::actors::{Actor, ActorKind, Arena, Player};
use crate::effects::{fresh_effect, EffectKind, TimedEffect};
use crate::geometry::{clamp_coord, clamp_coord_spec, unit_of, unit_vector};
use crate::plugins::{GamePlugin, PlayerPlugin};
use crate::timer::Timer;
use crate::world::{World, WorldModel, BULLET_SPEED_PX, PLAYER_ID};

verus! {

/// What a fire request led to.
#[derive(Clone, Copy, Debug, PartialEq, Eq, Structural)]
pub enum FireOutcome {
    /// A bullet with this id is on its way.
    Fired { id: u64 },
    /// The fire cooldown has not run out.
    CoolingDown,
    /// No cursor position this tick.
    NoAim,
    /// The aim point is the player's own position: no direction.
    AimAtPlayer,
    /// The id or shot counter has no room left.
    Exhausted,
}

/// A cursor position in window coordinates (origin at the top-left corner,
/// y growing downward) as a point of the arena (origin at the centre, y
/// growing upward), clamped to the coordinate range.
pub open spec fn cursor_to_world(c: (i64, i64), arena: Arena) -> (int, int) {
    (
        clamp_coord_spec(c.0 - arena.width / 2),
        clamp_coord_spec(arena.height / 2 - c.1),
    )
}

/// The player turned to face the cursor; unchanged without a cursor, or
/// when the cursor stands on the player.
pub open spec fn aimed(p: Player, cursor: Option<(i64, i64)>, arena: Arena) -> Player {
    match cursor {
        None => p,
        Some(c) => {
            let (wx, wy) = cursor_to_world(c, arena);
            if wx == p.x && wy == p.y {
                p
            } else {
                Player { aim_x: (wx - p.x) as i64, aim_y: (wy - p.y) as i64, ..p }
            }
        },
    }
}

/// The result of a fire request with the cursor at `cursor`: when the
/// cooldown has run out and the aim point is away from the player, a bullet
/// leaves the player's position toward the aim point, the shot is counted, a
/// shot sound starts and the cooldown starts over.
pub open spec fn fire_spec(m: WorldModel, cursor: Option<(i64, i64)>) -> (WorldModel, FireOutcome) {
    let p = m.player;
    match cursor {
        None => (m, FireOutcome::NoAim),
        Some(c) => {
            if p.fire_cooldown.elapsed_ms < p.fire_cooldown.duration_ms {
                (m, FireOutcome::CoolingDown)
            } else {
                let (wx, wy) = cursor_to_world(c, m.arena);
                if wx == p.x && wy == p.y {
                    (m, FireOutcome::AimAtPlayer)
                } else if m.next_id == u64::MAX || m.bullets_fired == u64::MAX {
                    (m, FireOutcome::Exhausted)
                } else {
                    let u = unit_of(wx - p.x, wy - p.y);
                    let b = Actor {
                        id: m.next_id,
                        kind: ActorKind::Bullet,
                        x: p.x,
                        y: p.y,
                        dx: u.0 as i64,
                        dy: u.1 as i64,
                        speed: BULLET_SPEED_PX,
                        rotation: 0,
                        spin: 0,
                    };
                    (
                        WorldModel {
                            bullets: m.bullets.push(b),
                            effects: m.effects.push(fresh_effect(p.x, p.y, EffectKind::FireSound)),
                            bullets_fired: (m.bullets_fired + 1) as u64,
                            next_id: (m.next_id + 1) as u64,
                            player: Player {
                                fire_cooldown: Timer { elapsed_ms: 0, ..p.fire_cooldown },
                                ..p
                            },
                            ..m
                        },
                        FireOutcome::Fired { id: m.next_id },
                    )
                }
            }
        },
    }
}

/// The arena point under the cursor.
pub fn world_point(c: (i64, i64), arena: &Arena) -> (r: (i64, i64))
    requires
        arena.wf(),
    ensures
        (r.0 as int, r.1 as int) == cursor_to_world(c, *arena),
{
    let x = clamp_coord(c.0 as i128 - (arena.width / 2) as i128);
    let y = clamp_coord((arena.height / 2) as i128 - c.1 as i128);
    (x, y)
}

impl GamePlugin {
    /// Where the crosshair is drawn: the arena point under the cursor, if the
    /// cursor is over the window this tick.
    pub fn custom_cursor(cursor: Option<(i64, i64)>, arena: &Arena) -> (r: Option<(i64, i64)>)
        requires
            arena.wf(),
        ensures
            r.is_some() == cursor.is_some(),
            r matches Some(p) ==> (p.0 as int, p.1 as int) == cursor_to_world(cursor.unwrap(), *arena),
    {
        match cursor {
            None => None,
            Some(c) => Some(world_point(c, arena)),
        }
    }
}

impl PlayerPlugin {
    /// Turns the player toward the cursor, if there is one this tick.
    pub fn player_rotate(world: &mut World, cursor: Option<(i64, i64)>)
        requires
            old(world).wf(),
        ensures
            final(world)@ == (WorldModel {
                player: aimed(old(world)@.player, cursor, old(world)@.arena),
                ..old(world)@
            }),
            final(world).wf(),
    {
        if let Some(c) = cursor {
            let (wx, wy) = world_point(c, &world.arena);
            if !(wx == world.player.x && wy == world.player.y) {
                world.player.aim_x = wx - world.player.x;
                world.player.aim_y = wy - world.player.y;
            }
        }
    }

    /// Fires a bullet toward the cursor, subject to the fire cooldown.
    pub fn fire_bullet(world: &mut World, cursor: Option<(i64, i64)>) -> (r: FireOutcome)
        requires
            old(world).wf(),
        ensures
            (final(world)@, r) == fire_spec(old(world)@, cursor),
            final(world).wf(),
    {
        let ghost m = world@;
        let c = match cursor {
            None => {
                return FireOutcome::NoAim;
            },
            Some(c) => c,
        };
        if !world.player.fire_cooldown.is_finished() {
            return FireOutcome::CoolingDown;
        }
        let (wx, wy) = world_point(c, &world.arena);
        let px = world.player.x;
        let py = world.player.y;
        if wx == px && wy == py {
            return FireOutcome::AimAtPlayer;
        }
        if world.next_id == u64::MAX || world.accuracy.bullets_fired == u64::MAX {
            return FireOutcome::Exhausted;
        }
        let (ux, uy) = match unit_vector(wx - px, wy - py) {
            Some(u) => u,
            None => {
                return FireOutcome::AimAtPlayer;
            },
        };
        let id = world.next_id;
        let b = Actor {
            id,
            kind: ActorKind::Bullet,
            x: px,
            y: py,
            dx: ux,
            dy: uy,
            speed: BULLET_SPEED_PX,
            rotation: 0,
            spin: 0,
        };
        world.bullets.push(b);
        let sound = TimedEffect::new(px, py, EffectKind::FireSound);
        world.effects.push(sound);
        world.accuracy.bullets_fired = world.accuracy.bullets_fired + 1;
        world.next_id = id + 1;
        world.player.fire_cooldown.reset();
        proof {
            let t = world@.bullets;
            assert(t == m.bullets.push(b));
            assert forall|i: int| 0 <= i < t.len() implies PLAYER_ID < #[trigger] t[i].id
                < world.next_id && t[i].wf() && t[i].kind == ActorKind::Bullet by {
                if i < m.bullets.len() {
                    assert(m.bullets[i].id < m.next_id);
                    assert(m.bullets[i].wf());
                }
            }
            assert forall|i: int, j: int| 0 <= i < j < t.len() implies t[i].id < t[j].id by {
                if j < m.bullets.len() {
                    assert(m.bullets[i].id < m.bullets[j].id);
                } else {
                    assert(m.bullets[i].id < m.next_id);
                }
            }
            assert forall|i: int, j: int| 0 <= i < t.len() && 0 <= j < world@.enemies.len() implies t[i].id
                != world@.enemies[j].id by {
                assert(m.enemies[j].id < m.next_id);
                if i < m.bullets.len() {
                    assert(m.bullets[i].id != m.enemies[j].id);
                }
            }
            assert forall|i: int| 0 <= i < world@.enemies.len() implies #[trigger] world@.enemies[i].id
                < world.next_id by {
                assert(m.enemies[i].id < m.next_id);
            }
            assert forall|i: int| 0 <= i < world@.walls.len() implies #[trigger] world@.walls[i].id
                < world.next_id by {
                assert(m.walls[i].id < m.next_id);
            }
            assert forall|k: int| 0 <= k < world@.effects.len() implies #[trigger] world@.effects[k].wf() by {
                if k < m.effects.len() {
                    assert(m.effects[k].wf());
                }
            }
            let w = world@;
            assert(w.player.wf());
            assert(crate::world::actors_of(w.bullets, ActorKind::Bullet));
            assert(crate::world::ids_ordered(w.bullets, w.next_id));
            assert(crate::world::ids_ordered(w.enemies, w.next_id));
            assert(crate::world::ids_disjoint(w.bullets, w.enemies));
            assert(crate::world::wall_ids_ordered(w.walls, w.next_id));
            assert(w.bullets_hit + w.bullets.len() <= w.bullets_fired);
        }
        FireOutcome::Fired { id }
    }
}

/// Two fire requests in one tick (no time passes between them) fire at most
/// one bullet: a shot starts the cooldown over, and a cooldown of positive
/// length has not run out right after it starts.
pub proof fn lemma_one_shot_per_cooldown(
    m: WorldModel,
    first: Option<(i64, i64)>,
    second: Option<(i64, i64)>,
)
    requires
        m.wf(),
    ensures
        ({
            let (m1, o1) = fire_spec(m, first);
            let (m2, o2) = fire_spec(m1, second);
            &&& m2.bullets_fired <= m.bullets_fired + 1
            &&& (o1 is Fired ==> !(o2 is Fired) && m2.bullets_fired == m.bullets_fired + 1)
        }),
{
}

} // verus!
