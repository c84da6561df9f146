//! The state at the start of a game.

use vstd::prelude::*;
use crate::actors::{Arena, Player, Wall};
use crate::timer::{Timer, TimerMode};
use crate::world::{
    Accuracy, EnemySapwnTimer, Score, World, WorldModel, FIRE_DELAY_MS, PLAYER_ID, SPAWN_PERIOD_MS,
};

verus! {

/// Acceleration of the player, in milli-pixels per second squared.
pub const PLAYER_ACCELERATION: i64 = 500_000;

/// Top speed of the player, in milli-pixels per second.
pub const PLAYER_MAX_SPEED: i64 = 400_000;

/// Friction on the coasting player, in thousandths per second.
pub const PLAYER_FRICTION: i64 = 5000;

/// The player at the centre, at rest, facing right, ready to fire.
pub open spec fn initial_player() -> Player {
    Player {
        id: PLAYER_ID,
        x: 0,
        y: 0,
        vx: 0,
        vy: 0,
        acceleration: PLAYER_ACCELERATION,
        max_speed: PLAYER_MAX_SPEED,
        friction: PLAYER_FRICTION,
        aim_x: 1,
        aim_y: 0,
        fire_cooldown: Timer {
            duration_ms: FIRE_DELAY_MS,
            elapsed_ms: FIRE_DELAY_MS,
            mode: TimerMode::Once,
        },
    }
}

/// The four walls around the play field: right, left, top and bottom.
pub open spec fn initial_walls() -> Seq<Wall> {
    seq![
        Wall { id: 1, x: 1_280_000_000, y: 0, half_width: 100_000_000, half_height: 1_465_000_000 },
        Wall { id: 2, x: -1_280_000_000i64, y: 0, half_width: 10_000_000, half_height: 1_465_000_000 },
        Wall { id: 3, x: 0, y: 720_000_000, half_width: 2_505_000_000, half_height: 10_000_000 },
        Wall { id: 4, x: 0, y: -720_000_000i64, half_width: 2_505_000_000, half_height: 10_000_000 },
    ]
}

/// The state at the start of a game in `arena`.
pub open spec fn initial_world(arena: Arena) -> WorldModel {
    WorldModel {
        arena,
        player: initial_player(),
        enemies: seq![],
        bullets: seq![],
        walls: initial_walls(),
        effects: seq![],
        score: 0,
        bullets_fired: 0,
        bullets_hit: 0,
        spawn_timer: Timer {
            duration_ms: SPAWN_PERIOD_MS,
            elapsed_ms: 0,
            mode: TimerMode::Repeating,
        },
        next_id: 5,
    }
}

/// The walls that bound the play field.
pub fn setup_bounds() -> (walls: Vec<Wall>)
    ensures
        walls@ == initial_walls(),
{
    let mut walls: Vec<Wall> = Vec::new();
    walls.push(
        Wall { id: 1, x: 1_280_000_000, y: 0, half_width: 100_000_000, half_height: 1_465_000_000 },
    );
    walls.push(
        Wall { id: 2, x: -1_280_000_000, y: 0, half_width: 10_000_000, half_height: 1_465_000_000 },
    );
    walls.push(
        Wall { id: 3, x: 0, y: 720_000_000, half_width: 2_505_000_000, half_height: 10_000_000 },
    );
    walls.push(
        Wall { id: 4, x: 0, y: -720_000_000, half_width: 2_505_000_000, half_height: 10_000_000 },
    );
    assert(walls@ =~= initial_walls());
    walls
}

impl World {
    /// A new game in `arena`: the player, the walls, a zero score, and the
    /// spawn countdown at its start.
    pub fn new(arena: Arena) -> (w: World)
        requires
            arena.wf(),
        ensures
            w@ == initial_world(arena),
            w.wf(),
    {
        let player = Player {
            id: PLAYER_ID,
            x: 0,
            y: 0,
            vx: 0,
            vy: 0,
            acceleration: PLAYER_ACCELERATION,
            max_speed: PLAYER_MAX_SPEED,
            friction: PLAYER_FRICTION,
            aim_x: 1,
            aim_y: 0,
            fire_cooldown: Timer {
                duration_ms: FIRE_DELAY_MS,
                elapsed_ms: FIRE_DELAY_MS,
                mode: TimerMode::Once,
            },
        };
        let w = World {
            arena,
            player,
            enemies: Vec::new(),
            bullets: Vec::new(),
            walls: setup_bounds(),
            effects: Vec::new(),
            score: Score { score: 0 },
            accuracy: Accuracy { bullets_fired: 0, bullets_hit: 0 },
            spawn_timer: EnemySapwnTimer(Timer::new(SPAWN_PERIOD_MS, TimerMode::Repeating)),
            next_id: 5,
        };
        assert(w@.enemies =~= seq![]);
        assert(w@.bullets =~= seq![]);
        assert(w@.effects =~= seq![]);
        assert(PLAYER_MAX_SPEED * PLAYER_MAX_SPEED == 160_000_000_000);
        assert(w.player.vx * w.player.vx + w.player.vy * w.player.vy == 0) by (nonlinear_arith)
            requires
                w.player.vx == 0,
                w.player.vy == 0,
        ;
        assert(w@.player.fire_cooldown.wf());
        let ghost ws = initial_walls();
        assert(ws[0].id == 1 && ws[1].id == 2 && ws[2].id == 3 && ws[3].id == 4);
        assert(crate::world::wall_ids_ordered(w@.walls, 5));
        w
    }
}

} // verus!
