//! The actors of the game (meteors, bullets, walls, the player) and the
//! arena they move in.

use vstd::prelude::*;
use crate::geometry::{COORD_LIMIT, UNIT};
use crate::timer::Timer;

verus! {

/// A full turn in micro-radians.
pub const TURN_MICRORAD: i64 = 6_283_185;

/// Fastest straight-line speed of a meteor or bullet, in pixels per second.
pub const MAX_SPEED_PX: i64 = 1_000_000;

/// Fastest spin of a meteor, in milliradians per second.
pub const MAX_SPIN: i64 = 1_000_000;

/// Largest player speed, acceleration and friction rate the model accepts.
pub const MAX_PLAYER_RATE: i64 = 1_000_000_000;

/// What an actor is; fixed when it is created.
#[derive(Clone, Copy, Debug, PartialEq, Eq, Structural)]
pub enum ActorKind {
    Player,
    Enemy,
    Bullet,
    Wall,
}

/// A meteor or a bullet. Its position is in micro-pixels, its direction in
/// thousandths of a unit vector, its speed in pixels per second; a meteor
/// also spins, its angle in micro-radians and its spin rate in milliradians
/// per second.
#[derive(Clone, Copy, Debug, PartialEq, Eq, Structural)]
pub struct Actor {
    pub id: u64,
    pub kind: ActorKind,
    pub x: i64,
    pub y: i64,
    pub dx: i64,
    pub dy: i64,
    pub speed: i64,
    pub rotation: i64,
    pub spin: i64,
}

impl Actor {
    pub open spec fn wf(self) -> bool {
        &&& -COORD_LIMIT <= self.x <= COORD_LIMIT
        &&& -COORD_LIMIT <= self.y <= COORD_LIMIT
        &&& -UNIT <= self.dx <= UNIT
        &&& -UNIT <= self.dy <= UNIT
        &&& 0 <= self.speed <= MAX_SPEED_PX
        &&& 0 <= self.rotation < TURN_MICRORAD
        &&& -MAX_SPIN <= self.spin <= MAX_SPIN
    }
}

/// A static boundary of the arena: its centre and half extents, in
/// micro-pixels.
#[derive(Clone, Copy, Debug, PartialEq, Eq, Structural)]
pub struct Wall {
    pub id: u64,
    pub x: i64,
    pub y: i64,
    pub half_width: i64,
    pub half_height: i64,
}

/// The turret. Its velocity is in milli-pixels per second, its acceleration
/// in milli-pixels per second squared, its friction in thousandths per
/// second; `aim_x`, `aim_y` is the vector it faces along.
#[derive(Clone, Copy, Debug, PartialEq, Eq, Structural)]
pub struct Player {
    pub id: u64,
    pub x: i64,
    pub y: i64,
    pub vx: i64,
    pub vy: i64,
    pub acceleration: i64,
    pub max_speed: i64,
    pub friction: i64,
    pub aim_x: i64,
    pub aim_y: i64,
    pub fire_cooldown: Timer,
}

impl Player {
    pub open spec fn wf(self) -> bool {
        &&& -COORD_LIMIT <= self.x <= COORD_LIMIT
        &&& -COORD_LIMIT <= self.y <= COORD_LIMIT
        &&& 0 <= self.max_speed <= MAX_PLAYER_RATE
        &&& 0 <= self.acceleration <= MAX_PLAYER_RATE
        &&& 0 <= self.friction <= MAX_PLAYER_RATE
        &&& self.vx * self.vx + self.vy * self.vy <= self.max_speed * self.max_speed
        &&& -2 * COORD_LIMIT <= self.aim_x <= 2 * COORD_LIMIT
        &&& -2 * COORD_LIMIT <= self.aim_y <= 2 * COORD_LIMIT
        &&& self.fire_cooldown.wf()
    }
}

/// The size of the window the arena is drawn in, in micro-pixels, centred on
/// the origin.
#[derive(Clone, Copy, Debug, PartialEq, Eq, Structural)]
pub struct Arena {
    pub width: i64,
    pub height: i64,
}

impl Arena {
    pub open spec fn wf(self) -> bool {
        &&& 0 <= self.width <= COORD_LIMIT
        &&& 0 <= self.height <= COORD_LIMIT
    }
}

} // verus!
