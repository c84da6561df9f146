//! A position check that finds bullets touching meteors.

use vstd::prelude::*;
use crate::actors::Actor;
use crate::collision::{
    handle_bullet_enemy_collision, removed_in_pairs, resolved_all, CollisionClass, CollisionOutcome,
};
use crate::world::World;

verus! {

/// Half the side of the square around a meteor that a bullet must enter to
/// touch it, in micro-pixels.
pub const HIT_RADIUS: i64 = 25_000_000;

/// Whether bullet `b` lies within the square of half side `HIT_RADIUS`
/// around meteor `e`, borders included.
pub open spec fn overlapping(e: Actor, b: Actor) -> bool {
    &&& e.x + HIT_RADIUS >= b.x
    &&& e.x - HIT_RADIUS <= b.x
    &&& e.y + HIT_RADIUS >= b.y
    &&& e.y - HIT_RADIUS <= b.y
}

/// The events `(bullet, meteor)` for the bullets of `bs` that touch `e`, in
/// the order of `bs`.
pub open spec fn touching(e: Actor, bs: Seq<Actor>) -> Seq<(u64, u64)>
    decreases bs.len(),
{
    if bs.len() == 0 {
        seq![]
    } else {
        let rest = touching(e, bs.drop_last());
        if overlapping(e, bs.last()) {
            rest.push((bs.last().id, e.id))
        } else {
            rest
        }
    }
}

/// The events for every touching pair, meteor by meteor in the order of
/// `es`.
pub open spec fn touching_pairs(es: Seq<Actor>, bs: Seq<Actor>) -> Seq<(u64, u64)>
    decreases es.len(),
{
    if es.len() == 0 {
        seq![]
    } else {
        touching_pairs(es.drop_last(), bs) + touching(es.last(), bs)
    }
}

/// Finds by position each bullet that touches a meteor and reports the pair
/// as an overlap event, for engines that report none themselves.
pub fn touching_bullets(world: &World) -> (events: Vec<(u64, u64)>)
    requires
        world.wf(),
    ensures
        events@ == touching_pairs(world@.enemies, world@.bullets),
{
    let ghost es = world@.enemies;
    let ghost bs = world@.bullets;
    let mut events: Vec<(u64, u64)> = Vec::new();
    let mut i: usize = 0;
    while i < world.enemies.len()
        invariant
            world.wf(),
            es == world@.enemies,
            bs == world@.bullets,
            0 <= i <= es.len(),
            events@ == touching_pairs(es.subrange(0, i as int), bs),
        decreases es.len() - i,
    {
        let e = world.enemies[i];
        assert(e.wf());
        let ghost before = events@;
        let mut j: usize = 0;
        while j < world.bullets.len()
            invariant
                world.wf(),
                es == world@.enemies,
                bs == world@.bullets,
                0 <= i < es.len(),
                e == es[i as int],
                e.wf(),
                0 <= j <= bs.len(),
                events@ == before + touching(e, bs.subrange(0, j as int)),
            decreases bs.len() - j,
        {
            let b = world.bullets[j];
            assert(b.wf()) by {
                assert(world@.bullets[j as int].wf());
            }
            assert(bs.subrange(0, j + 1).drop_last() =~= bs.subrange(0, j as int));
            if e.x + HIT_RADIUS >= b.x && e.x - HIT_RADIUS <= b.x && e.y + HIT_RADIUS >= b.y && e.y
                - HIT_RADIUS <= b.y {
                events.push((b.id, e.id));
                assert(events@ =~= before + touching(e, bs.subrange(0, j + 1)));
            }
            j = j + 1;
        }
        assert(bs.subrange(0, bs.len() as int) =~= bs);
        assert(es.subrange(0, i + 1).drop_last() =~= es.subrange(0, i as int));
        i = i + 1;
    }
    assert(es.subrange(0, es.len() as int) =~= es);
    events
}

/// Finds by position the bullets that touch meteors and resolves those hits
/// in order: each hit removes its bullet and meteor and scores once, so a
/// bullet or meteor already gone takes part in no later pair. Returns the
/// outcome of each touching pair.
pub fn collision_bullet_enemy(world: &mut World) -> (outs: Vec<CollisionOutcome>)
    requires
        old(world).wf(),
    ensures
        (final(world)@, outs@) == resolved_all(
            old(world)@,
            touching_pairs(old(world)@.enemies, old(world)@.bullets),
            Some(CollisionClass::BulletEnemy),
        ),
        final(world).wf(),
        removed_in_pairs(old(world)@, final(world)@),
{
    let events = touching_bullets(world);
    handle_bullet_enemy_collision(world, &events)
}

} // verus!
