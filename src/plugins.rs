//! The per-tick phases, grouped by what they act on.

use vstd::prelude::*;
use crate::actors::{Actor, ActorKind, Player};
use crate::effects::{decay_effects, decayed, opacities, shown_opacity, EffectKind};
use crate::motion::{enemy_moved, flown, spun};
use crate::player::{margin_band, player_stepped, MoveInput};
use crate::timer::{animated, AnimationConfig, MAX_DT_MS};
use crate::world::{lemma_disjoint_subsets, lemma_same_ids, World, WorldModel};

verus! {

/// The meteors' per-tick phases.
pub struct EnemyPlugin;

/// The player's per-tick phases.
pub struct PlayerPlugin;

/// The phases of the surroundings: effects that wear off.
pub struct GamePlugin;

/// Every meteor after one step of `dt`.
pub open spec fn enemies_moved(m: WorldModel, dt: int) -> WorldModel {
    WorldModel { enemies: m.enemies.map_values(|e: Actor| enemy_moved(e, m.arena, dt)), ..m }
}

/// Every meteor after spinning for `dt`.
pub open spec fn enemies_spun(m: WorldModel, dt: int) -> WorldModel {
    WorldModel { enemies: m.enemies.map_values(|e: Actor| spun(e, dt)), ..m }
}

/// Every bullet after flying for `dt`.
pub open spec fn bullets_flown(m: WorldModel, dt: int) -> WorldModel {
    WorldModel { bullets: m.bullets.map_values(|b: Actor| flown(b, dt)), ..m }
}

/// The effects of `kind` after `dt`.
pub open spec fn effects_decayed(m: WorldModel, kind: EffectKind, dt: int) -> WorldModel {
    WorldModel { effects: decayed(m.effects, kind, dt), ..m }
}

/// The player after one step of movement, its fire cooldown counting down
/// alongside.
pub open spec fn player_moved(m: WorldModel, input: MoveInput, dt: int) -> WorldModel {
    let p = player_stepped(m.player, input, m.arena, dt);
    WorldModel {
        player: Player { fire_cooldown: m.player.fire_cooldown.ticked(dt).0, ..p },
        ..m
    }
}

impl EnemyPlugin {
    /// Moves every meteor one step, bouncing off the edge margins.
    pub fn move_enemies(world: &mut World, dt: u64)
        requires
            old(world).wf(),
            dt <= MAX_DT_MS,
        ensures
            final(world)@ == enemies_moved(old(world)@, dt as int),
            final(world).wf(),
    {
        let ghost m = world@;
        let mut out: Vec<Actor> = Vec::new();
        let mut i: usize = 0;
        while i < world.enemies.len()
            invariant
                world@ == m,
                m.wf(),
                dt <= MAX_DT_MS,
                0 <= i <= m.enemies.len(),
                out@.len() == i,
                forall|k: int| 0 <= k < i ==> #[trigger] out@[k] == enemy_moved(m.enemies[k], m.arena, dt as int),
            decreases m.enemies.len() - i,
        {
            let mut e = world.enemies[i];
            assert(m.enemies[i as int].wf());
            e.advance_enemy(&world.arena, dt);
            out.push(e);
            i = i + 1;
        }
        proof {
            let t = m.enemies.map_values(|e: Actor| enemy_moved(e, m.arena, dt as int));
            assert(out@ =~= t);
            assert forall|k: int| 0 <= k < t.len() implies (#[trigger] t[k]).id == m.enemies[k].id
                && t[k].wf() && t[k].kind == ActorKind::Enemy by {
                assert(m.enemies[k].wf());
            }
            lemma_same_ids(m.enemies, t, m.next_id, ActorKind::Enemy);
            lemma_disjoint_subsets(m.bullets, m.enemies, m.bullets, t);
        }
        world.enemies = out;
    }

    /// Turns every meteor by its spin over `dt`.
    pub fn rotate_enemies(world: &mut World, dt: u64)
        requires
            old(world).wf(),
            dt <= MAX_DT_MS,
        ensures
            final(world)@ == enemies_spun(old(world)@, dt as int),
            final(world).wf(),
    {
        let ghost m = world@;
        let mut out: Vec<Actor> = Vec::new();
        let mut i: usize = 0;
        while i < world.enemies.len()
            invariant
                world@ == m,
                m.wf(),
                dt <= MAX_DT_MS,
                0 <= i <= m.enemies.len(),
                out@.len() == i,
                forall|k: int| 0 <= k < i ==> #[trigger] out@[k] == spun(m.enemies[k], dt as int),
            decreases m.enemies.len() - i,
        {
            let mut e = world.enemies[i];
            assert(m.enemies[i as int].wf());
            e.spin_by(dt);
            out.push(e);
            i = i + 1;
        }
        proof {
            let t = m.enemies.map_values(|e: Actor| spun(e, dt as int));
            assert(out@ =~= t);
            assert forall|k: int| 0 <= k < t.len() implies (#[trigger] t[k]).id == m.enemies[k].id
                && t[k].wf() && t[k].kind == ActorKind::Enemy by {
                assert(m.enemies[k].wf());
            }
            lemma_same_ids(m.enemies, t, m.next_id, ActorKind::Enemy);
            lemma_disjoint_subsets(m.bullets, m.enemies, m.bullets, t);
        }
        world.enemies = out;
    }
}

impl EnemyPlugin {
    /// Steps a meteor's sprite animation, its frames on a repeating timer;
    /// returns the frame to show.
    pub fn execute_animations_enemies(config: &mut AnimationConfig, index: usize, dt: u64) -> (r:
        usize)
        requires
            old(config).fps > 0,
            old(config).frame_timer.wf(),
            index < usize::MAX,
            dt <= MAX_DT_MS,
        ensures
            (*final(config), r) == animated(
                *old(config),
                index,
                dt as int,
                seq!['R', 'e', 'p', 'e', 'a', 't', 'i', 'n', 'g'],
            ),
    {
        let variant: String = "Repeating".to_owned();
        proof {
            reveal_strlit("Repeating");
            assert(variant@ =~= seq!['R', 'e', 'p', 'e', 'a', 't', 'i', 'n', 'g']);
        }
        config.advance(index, dt, variant)
    }
}

impl PlayerPlugin {
    /// Steps the turret's firing animation; a shot (`fired`) restarts the
    /// frame timer first, and each frame's timer runs once. Returns the
    /// frame to show.
    pub fn execute_animations_player(
        config: &mut AnimationConfig,
        index: usize,
        dt: u64,
        fired: bool,
    ) -> (r: usize)
        requires
            old(config).fps > 0,
            old(config).frame_timer.wf(),
            index < usize::MAX,
            dt <= MAX_DT_MS,
        ensures
            ({
                let start = if fired {
                    AnimationConfig {
                        frame_timer: crate::timer::Timer { elapsed_ms: 0, ..old(config).frame_timer },
                        ..*old(config)
                    }
                } else {
                    *old(config)
                };
                (*final(config), r) == animated(start, index, dt as int, seq!['o', 'n', 'c', 'e'])
            }),
    {
        if fired {
            config.frame_timer.reset();
        }
        let variant: String = "once".to_owned();
        proof {
            reveal_strlit("once");
            assert(variant@ =~= seq!['o', 'n', 'c', 'e']);
        }
        config.advance(index, dt, variant)
    }

    /// Moves every bullet straight along its direction.
    pub fn move_bullet(world: &mut World, dt: u64)
        requires
            old(world).wf(),
            dt <= MAX_DT_MS,
        ensures
            final(world)@ == bullets_flown(old(world)@, dt as int),
            final(world).wf(),
    {
        let ghost m = world@;
        let mut out: Vec<Actor> = Vec::new();
        let mut i: usize = 0;
        while i < world.bullets.len()
            invariant
                world@ == m,
                m.wf(),
                dt <= MAX_DT_MS,
                0 <= i <= m.bullets.len(),
                out@.len() == i,
                forall|k: int| 0 <= k < i ==> #[trigger] out@[k] == flown(m.bullets[k], dt as int),
            decreases m.bullets.len() - i,
        {
            let mut b = world.bullets[i];
            assert(m.bullets[i as int].wf());
            b.advance_straight(dt);
            out.push(b);
            i = i + 1;
        }
        proof {
            let t = m.bullets.map_values(|b: Actor| flown(b, dt as int));
            assert(out@ =~= t);
            assert forall|k: int| 0 <= k < t.len() implies (#[trigger] t[k]).id == m.bullets[k].id
                && t[k].wf() && t[k].kind == ActorKind::Bullet by {
                assert(m.bullets[k].wf());
            }
            lemma_same_ids(m.bullets, t, m.next_id, ActorKind::Bullet);
            lemma_disjoint_subsets(m.bullets, m.enemies, t, m.enemies);
        }
        world.bullets = out;
    }

    /// Steers and moves the player by the held keys, and counts down its
    /// fire cooldown.
    pub fn player_movement(world: &mut World, input: MoveInput, dt: u64)
        requires
            old(world).wf(),
            dt <= MAX_DT_MS,
        ensures
            final(world)@ == player_moved(old(world)@, input, dt as int),
            final(world).wf(),
            -margin_band(old(world).arena.width as int) <= final(world).player.x <= margin_band(
                old(world).arena.width as int,
            ),
            -margin_band(old(world).arena.height as int) <= final(world).player.y <= margin_band(
                old(world).arena.height as int,
            ),
    {
        world.player.integrate(input, &world.arena, dt);
        let _ = world.player.fire_cooldown.tick(dt);
    }

    /// Ends the shot sounds whose time is up.
    pub fn remove_bullet_sound_entities(world: &mut World, dt: u64)
        requires
            old(world).wf(),
            dt <= MAX_DT_MS,
        ensures
            final(world)@ == effects_decayed(old(world)@, EffectKind::FireSound, dt as int),
            final(world).wf(),
    {
        decay_effects(&mut world.effects, EffectKind::FireSound, dt);
    }
}

impl GamePlugin {
    /// Counts down the smoke puffs and removes those whose time is up;
    /// returns the opacity to show each remaining effect with, in order
    /// (faded for smoke, full for sounds).
    pub fn despawn_smokes(world: &mut World, dt: u64) -> (shown: Vec<u64>)
        requires
            old(world).wf(),
            dt <= MAX_DT_MS,
        ensures
            final(world)@ == effects_decayed(old(world)@, EffectKind::Smoke, dt as int),
            final(world).wf(),
            shown@.len() == final(world)@.effects.len(),
            forall|i: int|
                0 <= i < shown@.len() ==> shown@[i] == shown_opacity(#[trigger] final(world)@.effects[i]),
    {
        decay_effects(&mut world.effects, EffectKind::Smoke, dt);
        opacities(&world.effects)
    }

    /// Ends the hit sounds whose time is up.
    pub fn despawn_hit_sounds_bullet_meteor(world: &mut World, dt: u64)
        requires
            old(world).wf(),
            dt <= MAX_DT_MS,
        ensures
            final(world)@ == effects_decayed(old(world)@, EffectKind::HitSound, dt as int),
            final(world).wf(),
    {
        decay_effects(&mut world.effects, EffectKind::HitSound, dt);
    }
}

} // verus!
