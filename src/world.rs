//! The game state, its invariant, and the registry of actors by id.

use vstd::prelude::*;
use crate::actors::{Actor, ActorKind, Arena, Player, Wall};
use crate::effects::{all_live, TimedEffect};
use crate::timer::{Timer, TimerMode};

verus! {

/// The id of the one player.
pub const PLAYER_ID: u64 = 0;

/// Speed of a bullet, in pixels per second.
pub const BULLET_SPEED_PX: i64 = 400;

/// Time between two shots, in milliseconds.
pub const FIRE_DELAY_MS: u64 = 200;

/// Time between two meteor spawns, in milliseconds.
pub const SPAWN_PERIOD_MS: u64 = 2000;

/// The points scored so far.
#[derive(Clone, Copy, Debug, PartialEq, Eq, Structural)]
pub struct Score {
    pub score: u64,
}

/// Shots fired and shots that hit.
#[derive(Clone, Copy, Debug, PartialEq, Eq, Structural)]
pub struct Accuracy {
    pub bullets_fired: u64,
    pub bullets_hit: u64,
}

impl Accuracy {
    /// The share of shots that hit, in whole percent rounded down; zero
    /// before the first shot.
    pub fn percent(&self) -> (r: u64)
        requires
            self.bullets_hit <= self.bullets_fired,
        ensures
            r == (if self.bullets_fired == 0 {
                0
            } else {
                self.bullets_hit * 100 / self.bullets_fired as int
            }),
    {
        if self.bullets_fired == 0 {
            0
        } else {
            let p: u128 = (self.bullets_hit as u128) * 100 / (self.bullets_fired as u128);
            proof {
                let h = self.bullets_hit as int;
                let f = self.bullets_fired as int;
                assert(h * 100 / f <= 100) by (nonlinear_arith)
                    requires
                        0 <= h <= f,
                        f > 0,
                {
                    assert(h * 100 <= f * 100);
                    vstd::arithmetic::div_mod::lemma_div_is_ordered(h * 100, f * 100, f);
                    vstd::arithmetic::div_mod::lemma_div_multiples_vanish(100, f);
                }
            }
            p as u64
        }
    }
}

/// The repeating countdown between meteor spawns.
#[derive(Clone, Copy, Debug, PartialEq, Eq, Structural)]
pub struct EnemySapwnTimer(pub Timer);

/// The whole game state: the arena, the player, the registry of meteors,
/// bullets and walls, live effects, the score, and the spawn countdown.
#[derive(Debug)]
pub struct World {
    pub arena: Arena,
    pub player: Player,
    pub enemies: Vec<Actor>,
    pub bullets: Vec<Actor>,
    pub walls: Vec<Wall>,
    pub effects: Vec<TimedEffect>,
    pub score: Score,
    pub accuracy: Accuracy,
    pub spawn_timer: EnemySapwnTimer,
    pub next_id: u64,
}

/// The game state as mathematical values.
pub struct WorldModel {
    pub arena: Arena,
    pub player: Player,
    pub enemies: Seq<Actor>,
    pub bullets: Seq<Actor>,
    pub walls: Seq<Wall>,
    pub effects: Seq<TimedEffect>,
    pub score: u64,
    pub bullets_fired: u64,
    pub bullets_hit: u64,
    pub spawn_timer: Timer,
    pub next_id: u64,
}

impl View for World {
    type V = WorldModel;

    open spec fn view(&self) -> WorldModel {
        WorldModel {
            arena: self.arena,
            player: self.player,
            enemies: self.enemies@,
            bullets: self.bullets@,
            walls: self.walls@,
            effects: self.effects@,
            score: self.score.score,
            bullets_fired: self.accuracy.bullets_fired,
            bullets_hit: self.accuracy.bullets_hit,
            spawn_timer: self.spawn_timer.0,
            next_id: self.next_id,
        }
    }
}

/// Ids in `s` increase strictly, lie below `next`, and are not the player's.
pub open spec fn ids_ordered(s: Seq<Actor>, next: u64) -> bool {
    &&& forall|i: int, j: int| 0 <= i < j < s.len() ==> s[i].id < s[j].id
    &&& forall|i: int| 0 <= i < s.len() ==> PLAYER_ID < #[trigger] s[i].id < next
}

/// Every actor in `s` is well formed and of `kind`.
pub open spec fn actors_of(s: Seq<Actor>, kind: ActorKind) -> bool {
    forall|i: int| 0 <= i < s.len() ==> #[trigger] s[i].wf() && s[i].kind == kind
}

/// No id occurs in both `a` and `b`.
pub open spec fn ids_disjoint(a: Seq<Actor>, b: Seq<Actor>) -> bool {
    forall|i: int, j: int| 0 <= i < a.len() && 0 <= j < b.len() ==> a[i].id != b[j].id
}

/// Wall ids increase strictly, lie below `next`, and are not the player's.
pub open spec fn wall_ids_ordered(s: Seq<Wall>, next: u64) -> bool {
    &&& forall|i: int, j: int| 0 <= i < j < s.len() ==> s[i].id < s[j].id
    &&& forall|i: int| 0 <= i < s.len() ==> PLAYER_ID < #[trigger] s[i].id < next
}

/// Some actor in `s` has id `id`.
pub open spec fn has_actor(s: Seq<Actor>, id: u64) -> bool {
    exists|i: int| 0 <= i < s.len() && s[i].id == id
}

/// The position in `s` of the actor with id `id`.
pub open spec fn index_of(s: Seq<Actor>, id: u64) -> int {
    choose|i: int| 0 <= i < s.len() && s[i].id == id
}

/// No wall id is the id of an actor in `s`.
pub open spec fn walls_apart(walls: Seq<Wall>, s: Seq<Actor>) -> bool {
    forall|i: int| 0 <= i < walls.len() ==> !has_actor(s, #[trigger] walls[i].id)
}

/// Some wall in `s` has id `id`.
pub open spec fn has_wall(s: Seq<Wall>, id: u64) -> bool {
    exists|i: int| 0 <= i < s.len() && s[i].id == id
}

impl WorldModel {
    pub open spec fn wf(self) -> bool {
        &&& self.arena.wf()
        &&& self.player.wf()
        &&& self.player.id == PLAYER_ID
        &&& self.next_id > PLAYER_ID
        &&& self.player.fire_cooldown.mode == TimerMode::Once
        &&& self.player.fire_cooldown.duration_ms > 0
        &&& actors_of(self.enemies, ActorKind::Enemy)
        &&& actors_of(self.bullets, ActorKind::Bullet)
        &&& ids_ordered(self.enemies, self.next_id)
        &&& ids_ordered(self.bullets, self.next_id)
        &&& ids_disjoint(self.bullets, self.enemies)
        &&& wall_ids_ordered(self.walls, self.next_id)
        &&& walls_apart(self.walls, self.bullets)
        &&& walls_apart(self.walls, self.enemies)
        &&& all_live(self.effects)
        &&& self.bullets_hit + self.bullets.len() <= self.bullets_fired
        &&& self.score == self.bullets_hit
        &&& self.spawn_timer.wf()
        &&& self.spawn_timer.mode == TimerMode::Repeating
        &&& self.spawn_timer.duration_ms > 0
    }
}

impl World {
    pub open spec fn wf(&self) -> bool {
        self@.wf()
    }
}

/// In a state that keeps its invariant, no more bullets have hit than were
/// fired.
pub proof fn lemma_hits_within_fired(m: WorldModel)
    requires
        m.wf(),
    ensures
        m.bullets_hit <= m.bullets_fired,
{
}

/// With strictly increasing ids, the actor with a given id sits at one place.
pub proof fn lemma_index_of(s: Seq<Actor>, next: u64, i: int)
    requires
        ids_ordered(s, next),
        0 <= i < s.len(),
    ensures
        has_actor(s, s[i].id),
        index_of(s, s[i].id) == i,
{
    let id = s[i].id;
    assert(0 <= i < s.len() && s[i].id == id);
    let j = index_of(s, id);
    if j < i {
        assert(s[j].id < s[i].id);
    } else if i < j {
        assert(s[i].id < s[j].id);
    }
}

/// Removing an actor keeps the ids ordered and the actors well formed, drops
/// its id, and keeps every other id.
pub proof fn lemma_remove_actor(s: Seq<Actor>, next: u64, kind: ActorKind, i: int)
    requires
        ids_ordered(s, next),
        actors_of(s, kind),
        0 <= i < s.len(),
    ensures
        ids_ordered(s.remove(i), next),
        actors_of(s.remove(i), kind),
        !has_actor(s.remove(i), s[i].id),
        forall|id: u64| has_actor(s.remove(i), id) ==> has_actor(s, id),
        forall|id: u64| id != s[i].id && has_actor(s, id) ==> has_actor(s.remove(i), id),
        s.remove(i).len() == s.len() - 1,
{
    let r = s.remove(i);
    assert forall|k: int| 0 <= k < r.len() implies r[k] == (if k < i { s[k] } else { s[k + 1] }) by {}
    assert forall|a: int, b: int| 0 <= a < b < r.len() implies r[a].id < r[b].id by {
        let a2 = if a < i { a } else { a + 1 };
        let b2 = if b < i { b } else { b + 1 };
        assert(s[a2].id < s[b2].id);
    }
    assert forall|k: int| 0 <= k < r.len() implies PLAYER_ID < #[trigger] r[k].id < next by {
        let k2 = if k < i { k } else { k + 1 };
        assert(PLAYER_ID < s[k2].id < next);
    }
    assert forall|k: int| 0 <= k < r.len() implies #[trigger] r[k].wf() && r[k].kind == kind by {
        let k2 = if k < i { k } else { k + 1 };
        assert(s[k2].wf());
    }
    if has_actor(r, s[i].id) {
        let k = choose|k: int| 0 <= k < r.len() && r[k].id == s[i].id;
        let k2 = if k < i { k } else { k + 1 };
        if k2 < i {
            assert(s[k2].id < s[i].id);
        } else {
            assert(s[i].id < s[k2].id);
        }
    }
    assert forall|id: u64| has_actor(r, id) implies has_actor(s, id) by {
        let k = choose|k: int| 0 <= k < r.len() && r[k].id == id;
        let k2 = if k < i { k } else { k + 1 };
        assert(0 <= k2 < s.len() && s[k2].id == id);
    }
    assert forall|id: u64| id != s[i].id && has_actor(s, id) implies has_actor(r, id) by {
        let k = choose|k: int| 0 <= k < s.len() && s[k].id == id;
        assert(k != i);
        let k2 = if k < i { k } else { k - 1 };
        assert(0 <= k2 < r.len() && r[k2].id == id);
    }
}

/// Ids that survive a removal from both sides stay apart.
pub proof fn lemma_disjoint_subsets(a: Seq<Actor>, b: Seq<Actor>, a2: Seq<Actor>, b2: Seq<Actor>)
    requires
        ids_disjoint(a, b),
        forall|id: u64| has_actor(a2, id) ==> has_actor(a, id),
        forall|id: u64| has_actor(b2, id) ==> has_actor(b, id),
    ensures
        ids_disjoint(a2, b2),
{
    assert forall|i: int, j: int| 0 <= i < a2.len() && 0 <= j < b2.len() implies a2[i].id
        != b2[j].id by {
        if a2[i].id == b2[j].id {
            let id = a2[i].id;
            assert(has_actor(a2, id));
            assert(has_actor(b2, id));
            let k = choose|k: int| 0 <= k < a.len() && a[k].id == id;
            let l = choose|l: int| 0 <= l < b.len() && b[l].id == id;
            assert(a[k].id != b[l].id);
        }
    }
}

/// The position of the actor with id `id` in `v`, if there is one.
pub fn find_actor(v: &Vec<Actor>, id: u64) -> (r: Option<usize>)
    ensures
        r matches Some(i) ==> i < v@.len() && v@[i as int].id == id,
        r.is_none() <==> !has_actor(v@, id),
{
    let mut i: usize = 0;
    while i < v.len()
        invariant
            0 <= i <= v@.len(),
            forall|k: int| 0 <= k < i ==> v@[k].id != id,
        decreases v@.len() - i,
    {
        if v[i].id == id {
            return Some(i);
        }
        i = i + 1;
    }
    None
}

/// Whether a wall in `v` has id `id`.
pub fn find_wall(v: &Vec<Wall>, id: u64) -> (r: bool)
    ensures
        r == has_wall(v@, id),
{
    let mut i: usize = 0;
    while i < v.len()
        invariant
            0 <= i <= v@.len(),
            forall|k: int| 0 <= k < i ==> v@[k].id != id,
        decreases v@.len() - i,
    {
        if v[i].id == id {
            return true;
        }
        i = i + 1;
    }
    false
}

/// Changing actors in place, ids and kind kept, keeps the registry's order.
pub proof fn lemma_same_ids(s: Seq<Actor>, t: Seq<Actor>, next: u64, kind: ActorKind)
    requires
        ids_ordered(s, next),
        s.len() == t.len(),
        forall|k: int| 0 <= k < s.len() ==> (#[trigger] t[k]).id == s[k].id && t[k].wf() && t[k].kind == kind,
    ensures
        ids_ordered(t, next),
        actors_of(t, kind),
        forall|id: u64| has_actor(t, id) == has_actor(s, id),
{
    assert forall|i: int, j: int| 0 <= i < j < t.len() implies t[i].id < t[j].id by {
        assert(t[i].id == s[i].id && t[j].id == s[j].id);
    }
    assert forall|i: int| 0 <= i < t.len() implies PLAYER_ID < #[trigger] t[i].id < next by {
        assert(t[i].id == s[i].id);
        assert(PLAYER_ID < s[i].id < next);
    }
    assert forall|id: u64| has_actor(t, id) == has_actor(s, id) by {
        if has_actor(t, id) {
            let k = choose|k: int| 0 <= k < t.len() && t[k].id == id;
            assert(s[k].id == id);
        }
        if has_actor(s, id) {
            let k = choose|k: int| 0 <= k < s.len() && s[k].id == id;
            assert(t[k].id == id);
        }
    }
}

} // verus!
