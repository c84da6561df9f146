//! Resolution of overlap events: hits, bullets at walls, and contact with
//! the player, each applied at most once.

use vstd::prelude::*;
use crate::actors::ActorKind;
use crate::effects::{fresh_effect, EffectKind, TimedEffect};
use crate::world::{
    find_actor, find_wall, has_actor, has_wall, index_of, lemma_disjoint_subsets, lemma_index_of,
    lemma_remove_actor, World, WorldModel,
};

verus! {

/// What one overlap event between two actors led to.
#[derive(Clone, Copy, Debug, PartialEq, Eq, Structural)]
pub enum CollisionOutcome {
    /// A bullet struck a meteor: both are gone and the hit is scored.
    Hit { bullet: u64, enemy: u64 },
    /// A bullet reached a wall and is gone.
    BulletWall { bullet: u64 },
    /// A meteor touched the player: the terminal-state signal.
    GameOver,
    /// Nothing to do: not a scoring pair, or an actor already gone.
    Ignored,
}

/// Which pairs a handler attends to.
#[derive(Clone, Copy, Debug, PartialEq, Eq, Structural)]
pub enum CollisionClass {
    BulletEnemy,
    BulletWall,
    PlayerEnemy,
}

/// What the event `(a, b)` means in state `m`; an actor that is no longer
/// registered takes part in nothing.
pub open spec fn classify(m: WorldModel, a: u64, b: u64) -> CollisionOutcome {
    if has_actor(m.bullets, a) && has_actor(m.enemies, b) {
        CollisionOutcome::Hit { bullet: a, enemy: b }
    } else if has_actor(m.bullets, b) && has_actor(m.enemies, a) {
        CollisionOutcome::Hit { bullet: b, enemy: a }
    } else if has_actor(m.bullets, a) && has_wall(m.walls, b) {
        CollisionOutcome::BulletWall { bullet: a }
    } else if has_actor(m.bullets, b) && has_wall(m.walls, a) {
        CollisionOutcome::BulletWall { bullet: b }
    } else if (m.player.id == a && has_actor(m.enemies, b)) || (m.player.id == b
        && has_actor(m.enemies, a)) {
        CollisionOutcome::GameOver
    } else {
        CollisionOutcome::Ignored
    }
}

/// The state after the event `(a, b)`. A hit removes the bullet and the
/// meteor, scores one, counts the hit, and leaves a smoke puff and a hit
/// sound where the meteor was; a bullet at a wall is removed; nothing else
/// changes the state.
pub open spec fn resolved(m: WorldModel, a: u64, b: u64) -> WorldModel {
    match classify(m, a, b) {
        CollisionOutcome::Hit { bullet, enemy } => {
            let e = m.enemies[index_of(m.enemies, enemy)];
            WorldModel {
                bullets: m.bullets.remove(index_of(m.bullets, bullet)),
                enemies: m.enemies.remove(index_of(m.enemies, enemy)),
                effects: m.effects.push(fresh_effect(e.x, e.y, EffectKind::Smoke)).push(
                    fresh_effect(e.x, e.y, EffectKind::HitSound),
                ),
                score: (m.score + 1) as u64,
                bullets_hit: (m.bullets_hit + 1) as u64,
                ..m
            }
        },
        CollisionOutcome::BulletWall { bullet } => WorldModel {
            bullets: m.bullets.remove(index_of(m.bullets, bullet)),
            ..m
        },
        _ => m,
    }
}

/// From `m` to `m2` the score rose by exactly the number of bullets removed,
/// and by exactly the number of meteors removed: each scored hit took one of
/// each, and nothing else was removed.
pub open spec fn removed_in_pairs(m: WorldModel, m2: WorldModel) -> bool {
    &&& m2.score - m.score == m.bullets.len() - m2.bullets.len()
    &&& m2.score - m.score == m.enemies.len() - m2.enemies.len()
}

/// Whether outcome `o` belongs to the pairs that `sel` attends to (all of
/// them when `sel` is `None`).
pub open spec fn selected(o: CollisionOutcome, sel: Option<CollisionClass>) -> bool {
    match sel {
        None => true,
        Some(c) => match o {
            CollisionOutcome::Hit { .. } => c == CollisionClass::BulletEnemy,
            CollisionOutcome::BulletWall { .. } => c == CollisionClass::BulletWall,
            CollisionOutcome::GameOver => c == CollisionClass::PlayerEnemy,
            CollisionOutcome::Ignored => false,
        },
    }
}

impl CollisionOutcome {
    /// Whether this outcome belongs to the pairs that `sel` attends to.
    pub fn is_selected(&self, sel: Option<CollisionClass>) -> (r: bool)
        ensures
            r == selected(*self, sel),
    {
        match sel {
            None => true,
            Some(c) => match self {
                CollisionOutcome::Hit { .. } => c == CollisionClass::BulletEnemy,
                CollisionOutcome::BulletWall { .. } => c == CollisionClass::BulletWall,
                CollisionOutcome::GameOver => c == CollisionClass::PlayerEnemy,
                CollisionOutcome::Ignored => false,
            },
        }
    }
}

/// The event `(a, b)` seen by a handler that attends to `sel`.
pub open spec fn resolved_selected(
    m: WorldModel,
    a: u64,
    b: u64,
    sel: Option<CollisionClass>,
) -> (WorldModel, CollisionOutcome) {
    let o = classify(m, a, b);
    if selected(o, sel) {
        (resolved(m, a, b), o)
    } else {
        (m, CollisionOutcome::Ignored)
    }
}

/// The state after the events of one tick in order, with the outcome of
/// each.
pub open spec fn resolved_all(
    m: WorldModel,
    events: Seq<(u64, u64)>,
    sel: Option<CollisionClass>,
) -> (WorldModel, Seq<CollisionOutcome>)
    decreases events.len(),
{
    if events.len() == 0 {
        (m, seq![])
    } else {
        let (m1, outs) = resolved_all(m, events.drop_last(), sel);
        let (m2, o) = resolved_selected(m1, events.last().0, events.last().1, sel);
        (m2, outs.push(o))
    }
}

impl World {
    /// Removes bullet `i` and meteor `j`, scores the hit, and leaves its
    /// effects at the meteor's position.
    fn apply_hit(&mut self, i: usize, j: usize)
        requires
            old(self).wf(),
            i < old(self).bullets@.len(),
            j < old(self).enemies@.len(),
        ensures
            final(self).wf(),
            final(self)@ == (WorldModel {
                bullets: old(self)@.bullets.remove(i as int),
                enemies: old(self)@.enemies.remove(j as int),
                effects: old(self)@.effects.push(
                    fresh_effect(old(self)@.enemies[j as int].x, old(self)@.enemies[j as int].y, EffectKind::Smoke),
                ).push(fresh_effect(old(self)@.enemies[j as int].x, old(self)@.enemies[j as int].y, EffectKind::HitSound)),
                score: (old(self)@.score + 1) as u64,
                bullets_hit: (old(self)@.bullets_hit + 1) as u64,
                ..old(self)@
            }),
    {
        let ghost m = self@;
        proof {
            lemma_remove_actor(m.bullets, m.next_id, ActorKind::Bullet, i as int);
            lemma_remove_actor(m.enemies, m.next_id, ActorKind::Enemy, j as int);
            lemma_disjoint_subsets(
                m.bullets,
                m.enemies,
                m.bullets.remove(i as int),
                m.enemies.remove(j as int),
            );
            assert(m.enemies[j as int].wf());
        }
        let _bullet = self.bullets.remove(i);
        let enemy = self.enemies.remove(j);
        let smoke = TimedEffect::new(enemy.x, enemy.y, EffectKind::Smoke);
        let sound = TimedEffect::new(enemy.x, enemy.y, EffectKind::HitSound);
        self.effects.push(smoke);
        self.effects.push(sound);
        self.score.score = self.score.score + 1;
        self.accuracy.bullets_hit = self.accuracy.bullets_hit + 1;
        proof {
            assert(crate::effects::all_live(self.effects@)) by {
                assert forall|k: int| 0 <= k < self.effects@.len() implies #[trigger] self.effects@[k].wf() by {
                    if k < m.effects.len() {
                        assert(m.effects[k].wf());
                    }
                }
            }
        }
    }

    /// Removes bullet `i`.
    fn remove_bullet(&mut self, i: usize)
        requires
            old(self).wf(),
            i < old(self).bullets@.len(),
        ensures
            final(self).wf(),
            final(self)@ == (WorldModel { bullets: old(self)@.bullets.remove(i as int), ..old(self)@ }),
    {
        let ghost m = self@;
        proof {
            lemma_remove_actor(m.bullets, m.next_id, ActorKind::Bullet, i as int);
            lemma_disjoint_subsets(m.bullets, m.enemies, m.bullets.remove(i as int), m.enemies);
        }
        let _bullet = self.bullets.remove(i);
    }

    /// Applies one overlap event `(a, b)`. Each effect of an event happens at
    /// most once: an actor that is gone takes part in nothing.
    pub fn resolve_event(&mut self, a: u64, b: u64) -> (r: CollisionOutcome)
        requires
            old(self).wf(),
        ensures
            r == classify(old(self)@, a, b),
            final(self)@ == resolved(old(self)@, a, b),
            final(self).wf(),
    {
        let ghost m = self@;
        let o = self.classify_event(a, b);
        match o {
            CollisionOutcome::Hit { bullet, enemy } => {
                let i = find_actor(&self.bullets, bullet).unwrap();
                let j = find_actor(&self.enemies, enemy).unwrap();
                proof {
                    lemma_index_of(m.bullets, m.next_id, i as int);
                    lemma_index_of(m.enemies, m.next_id, j as int);
                }
                self.apply_hit(i, j);
            },
            CollisionOutcome::BulletWall { bullet } => {
                let i = find_actor(&self.bullets, bullet).unwrap();
                proof {
                    lemma_index_of(m.bullets, m.next_id, i as int);
                }
                self.remove_bullet(i);
            },
            _ => {},
        }
        o
    }
}

impl World {
    /// What the event `(a, b)` means in the current state.
    pub fn classify_event(&self, a: u64, b: u64) -> (r: CollisionOutcome)
        ensures
            r == classify(self@, a, b),
    {
        let ba = find_actor(&self.bullets, a).is_some();
        let eb = find_actor(&self.enemies, b).is_some();
        let bb = find_actor(&self.bullets, b).is_some();
        let ea = find_actor(&self.enemies, a).is_some();
        if ba && eb {
            CollisionOutcome::Hit { bullet: a, enemy: b }
        } else if bb && ea {
            CollisionOutcome::Hit { bullet: b, enemy: a }
        } else if ba && find_wall(&self.walls, b) {
            CollisionOutcome::BulletWall { bullet: a }
        } else if bb && find_wall(&self.walls, a) {
            CollisionOutcome::BulletWall { bullet: b }
        } else if (self.player.id == a && eb) || (self.player.id == b && ea) {
            CollisionOutcome::GameOver
        } else {
            CollisionOutcome::Ignored
        }
    }

    fn apply_events(&mut self, events: &Vec<(u64, u64)>, sel: Option<CollisionClass>) -> (outs: Vec<
        CollisionOutcome,
    >)
        requires
            old(self).wf(),
        ensures
            (final(self)@, outs@) == resolved_all(old(self)@, events@, sel),
            final(self).wf(),
            sel == Some(CollisionClass::BulletEnemy) ==> removed_in_pairs(old(self)@, final(self)@),
    {
        let ghost m0 = self@;
        let mut outs: Vec<CollisionOutcome> = Vec::new();
        let mut i: usize = 0;
        while i < events.len()
            invariant
                self.wf(),
                0 <= i <= events@.len(),
                (self@, outs@) == resolved_all(m0, events@.subrange(0, i as int), sel),
                sel == Some(CollisionClass::BulletEnemy) ==> removed_in_pairs(m0, self@),
                m0.wf(),
            decreases events@.len() - i,
        {
            let (a, b) = events[i];
            assert(events@.subrange(0, i + 1).drop_last() =~= events@.subrange(0, i as int));
            let o = self.classify_event(a, b);
            if o.is_selected(sel) {
                let ghost before = self@;
                let r = self.resolve_event(a, b);
                proof {
                    if sel == Some(CollisionClass::BulletEnemy) {
                        let (bl, en) = match r {
                            CollisionOutcome::Hit { bullet, enemy } => (bullet, enemy),
                            _ => (a, b),
                        };
                        assert(0 <= index_of(before.bullets, bl) < before.bullets.len());
                        assert(0 <= index_of(before.enemies, en) < before.enemies.len());
                    }
                }
                outs.push(r);
            } else {
                outs.push(CollisionOutcome::Ignored);
            }
            i = i + 1;
        }
        assert(events@.subrange(0, events@.len() as int) =~= events@);
        outs
    }

    /// Applies the overlap events of one tick in order and returns the
    /// outcome of each.
    pub fn resolve_collisions(&mut self, events: &Vec<(u64, u64)>) -> (outs: Vec<CollisionOutcome>)
        requires
            old(self).wf(),
        ensures
            (final(self)@, outs@) == resolved_all(old(self)@, events@, None),
            final(self).wf(),
    {
        self.apply_events(events, None)
    }
}

/// Applies the bullet-meteor events among `events`; every other event is
/// reported as ignored.
pub fn handle_bullet_enemy_collision(world: &mut World, events: &Vec<(u64, u64)>) -> (outs: Vec<
    CollisionOutcome,
>)
    requires
        old(world).wf(),
    ensures
        (final(world)@, outs@) == resolved_all(
            old(world)@,
            events@,
            Some(CollisionClass::BulletEnemy),
        ),
        final(world).wf(),
        removed_in_pairs(old(world)@, final(world)@),
{
    world.apply_events(events, Some(CollisionClass::BulletEnemy))
}

/// Applies the bullet-wall events among `events`; every other event is
/// reported as ignored.
pub fn handle_bullet_wall_collision(world: &mut World, events: &Vec<(u64, u64)>) -> (outs: Vec<
    CollisionOutcome,
>)
    requires
        old(world).wf(),
    ensures
        (final(world)@, outs@) == resolved_all(old(world)@, events@, Some(CollisionClass::BulletWall)),
        final(world).wf(),
{
    world.apply_events(events, Some(CollisionClass::BulletWall))
}

/// Reports the player-meteor contacts among `events` as `GameOver`; they
/// change no state. Every other event is reported as ignored.
pub fn handle_player_enemy_collision(world: &mut World, events: &Vec<(u64, u64)>) -> (outs: Vec<
    CollisionOutcome,
>)
    requires
        old(world).wf(),
    ensures
        (final(world)@, outs@) == resolved_all(
            old(world)@,
            events@,
            Some(CollisionClass::PlayerEnemy),
        ),
        final(world).wf(),
{
    world.apply_events(events, Some(CollisionClass::PlayerEnemy))
}

/// A bullet-meteor event applied twice in one tick scores exactly once: the
/// first application removes both actors, so the second finds no pair.
pub proof fn lemma_hit_scores_once(m: WorldModel, a: u64, b: u64)
    requires
        m.wf(),
        classify(m, a, b) is Hit,
    ensures
        !(classify(resolved(m, a, b), a, b) is Hit),
        resolved(m, a, b).score == m.score + 1,
        resolved(resolved(m, a, b), a, b).score == m.score + 1,
{
    let (bl, en) = match classify(m, a, b) {
        CollisionOutcome::Hit { bullet, enemy } => (bullet, enemy),
        _ => (a, b),
    };
    let i = index_of(m.bullets, bl);
    let j = index_of(m.enemies, en);
    assert(0 <= i < m.bullets.len() && m.bullets[i].id == bl);
    assert(0 <= j < m.enemies.len() && m.enemies[j].id == en);
    lemma_remove_actor(m.bullets, m.next_id, ActorKind::Bullet, i);
    lemma_remove_actor(m.enemies, m.next_id, ActorKind::Enemy, j);
    let m1 = resolved(m, a, b);
    assert(!has_actor(m1.bullets, bl));
    assert(!has_actor(m1.enemies, en));
    assert(!has_actor(m.bullets, en)) by {
        if has_actor(m.bullets, en) {
            let k = choose|k: int| 0 <= k < m.bullets.len() && m.bullets[k].id == en;
            assert(m.bullets[k].id != m.enemies[j].id);
        }
    }
    assert(!has_actor(m.enemies, bl)) by {
        if has_actor(m.enemies, bl) {
            let k = choose|k: int| 0 <= k < m.enemies.len() && m.enemies[k].id == bl;
            assert(m.bullets[i].id != m.enemies[k].id);
        }
    }
    assert(!has_actor(m1.bullets, en));
    assert(!has_actor(m1.enemies, bl));
}

} // verus!
