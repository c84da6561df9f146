//! One tick of the game: every phase in its fixed order.

use vstd::prelude::*;
use crate::collision::{resolved_all, CollisionOutcome};
use crate::effects::EffectKind;
use crate::firing::{aimed, fire_spec, FireOutcome};
use crate::player::MoveInput;
use crate::plugins::{
    bullets_flown, effects_decayed, enemies_moved, enemies_spun, player_moved, EnemyPlugin,
    GamePlugin, PlayerPlugin,
};
use crate::spawn::{room_to_spawn, spawn_timer_ticked, spawned, EnemyDraw};
use crate::timer::MAX_DT_MS;
use crate::world::{lemma_hits_within_fired, World, WorldModel};

verus! {

/// What the player does during one tick.
#[derive(Clone, Copy, Debug)]
pub struct TickInput {
    /// Length of the tick in milliseconds.
    pub dt: u64,
    /// Movement keys held.
    pub movement: MoveInput,
    /// Cursor position in window coordinates, if the cursor is over the
    /// window.
    pub cursor: Option<(i64, i64)>,
    /// Whether the fire trigger was pressed in this tick.
    pub fire: bool,
}

/// What happened during one tick.
#[derive(Clone, Debug, PartialEq, Eq)]
pub struct TickReport {
    pub spawned: bool,
    pub fire: Option<FireOutcome>,
    pub collisions: Vec<CollisionOutcome>,
}

/// Whether `m1` can follow `m` by the spawn phase of a tick of `dt`.
pub open spec fn spawn_step(m: WorldModel, m1: WorldModel, dt: int) -> bool {
    let t = spawn_timer_ticked(m, dt);
    if m.spawn_timer.ticked(dt).1 && room_to_spawn(m.arena) {
        exists|d: EnemyDraw| d.in_ranges(m.arena) && d.wf() && m1 == spawned(t, d)
    } else {
        m1 == t
    }
}

/// The state after the player's phases: movement, aiming, and the shot
/// when the trigger was pressed.
pub open spec fn after_player(m: WorldModel, input: TickInput) -> (WorldModel, Option<FireOutcome>) {
    let m2 = player_moved(m, input.movement, input.dt as int);
    let m3 = WorldModel { player: aimed(m2.player, input.cursor, m2.arena), ..m2 };
    if input.fire {
        let (m4, o) = fire_spec(m3, input.cursor);
        (m4, Some(o))
    } else {
        (m3, None)
    }
}

/// The state after everything that follows the spawn phase: the player's
/// phases, flight of bullets and meteors, the overlap events in order, and
/// the countdown of every effect.
pub open spec fn after_spawn(
    m: WorldModel,
    input: TickInput,
    events: Seq<(u64, u64)>,
) -> (WorldModel, Option<FireOutcome>, Seq<CollisionOutcome>) {
    let dt = input.dt as int;
    let (m4, fired) = after_player(m, input);
    let m7 = enemies_spun(enemies_moved(bullets_flown(m4, dt), dt), dt);
    let (m8, outs) = resolved_all(m7, events, None);
    let m9 = effects_decayed(
        effects_decayed(effects_decayed(m8, EffectKind::Smoke, dt), EffectKind::HitSound, dt),
        EffectKind::FireSound,
        dt,
    );
    (m9, fired, outs)
}

impl World {
    /// Runs one tick: spawn, then the player's movement, aim and shot, then
    /// flight of bullets and meteors, then the overlap events that the
    /// collision source reported for this tick, then the effect countdowns.
    pub fn tick(&mut self, input: TickInput, events: &Vec<(u64, u64)>) -> (r: TickReport)
        requires
            old(self).wf(),
            input.dt <= MAX_DT_MS,
        ensures
            final(self).wf(),
            final(self).accuracy.bullets_hit <= final(self).accuracy.bullets_fired,
            exists|m1: WorldModel|
                {
                    &&& spawn_step(old(self)@, m1, input.dt as int)
                    &&& r.spawned == (m1.enemies.len() == old(self)@.enemies.len() + 1)
                    &&& (final(self)@, r.fire, r.collisions@) == after_spawn(m1, input, events@)
                },
    {
        let ghost m0 = self@;
        let dt = input.dt;
        let spawned = EnemyPlugin::spawn_enemies(self, dt);
        let ghost m1 = self@;
        assert(spawn_step(m0, m1, dt as int));
        PlayerPlugin::player_movement(self, input.movement, dt);
        PlayerPlugin::player_rotate(self, input.cursor);
        let fire = if input.fire {
            Some(PlayerPlugin::fire_bullet(self, input.cursor))
        } else {
            None
        };
        let ghost m4 = self@;
        assert((m4, fire) == after_player(m1, input));
        PlayerPlugin::move_bullet(self, dt);
        EnemyPlugin::move_enemies(self, dt);
        EnemyPlugin::rotate_enemies(self, dt);
        let ghost m7 = self@;
        assert(m7 == enemies_spun(enemies_moved(bullets_flown(m4, dt as int), dt as int), dt as int));
        let collisions = self.resolve_collisions(events);
        GamePlugin::despawn_smokes(self, dt);
        GamePlugin::despawn_hit_sounds_bullet_meteor(self, dt);
        PlayerPlugin::remove_bullet_sound_entities(self, dt);
        assert((self@, fire, collisions@) == after_spawn(m1, input, events@));
        proof {
            lemma_hits_within_fired(self@);
        }
        TickReport { spawned, fire, collisions }
    }
}

} // verus!
