//! Per-tick motion of meteors and bullets: straight flight, bouncing off
//! the edge margins, and spin.

use vstd::prelude::*;
use crate::actors::{Actor, Arena, TURN_MICRORAD};
use crate::geometry::{clamp_coord, clamp_coord_spec};
use crate::timer::MAX_DT_MS;

verus! {

/// Distance from a window edge at which a meteor turns back, in micro-pixels.
pub const ENEMY_MARGIN: i64 = 25_000_000;

/// Whether coordinate `p` lies at or beyond `margin` from either edge of an
/// extent of `extent` centred on the origin.
pub open spec fn past_edge(p: int, extent: int, margin: int) -> bool {
    2 * p >= extent - 2 * margin || 2 * p <= -(extent - 2 * margin)
}

/// A meteor after one step of `dt` milliseconds: a direction component flips
/// when the meteor stands past the matching edge margin at the start of the
/// step, then the meteor moves along its (new) direction.
pub open spec fn enemy_moved(a: Actor, arena: Arena, dt: int) -> Actor {
    let dx = if past_edge(a.x as int, arena.width as int, ENEMY_MARGIN as int) {
        -a.dx
    } else {
        a.dx as int
    };
    let dy = if past_edge(a.y as int, arena.height as int, ENEMY_MARGIN as int) {
        -a.dy
    } else {
        a.dy as int
    };
    Actor {
        x: clamp_coord_spec(a.x + dx * a.speed * dt) as i64,
        y: clamp_coord_spec(a.y + dy * a.speed * dt) as i64,
        dx: dx as i64,
        dy: dy as i64,
        ..a
    }
}

/// An actor after flying straight along its direction for `dt` milliseconds.
pub open spec fn flown(a: Actor, dt: int) -> Actor {
    Actor {
        x: clamp_coord_spec(a.x + a.dx * a.speed * dt) as i64,
        y: clamp_coord_spec(a.y + a.dy * a.speed * dt) as i64,
        ..a
    }
}

/// An actor after spinning for `dt` milliseconds, its angle kept within one
/// turn.
pub open spec fn spun(a: Actor, dt: int) -> Actor {
    Actor { rotation: ((a.rotation + a.spin * dt) % (TURN_MICRORAD as int)) as i64, ..a }
}

proof fn lemma_step_bounds(d: int, speed: int, dt: int)
    requires
        -1000 <= d <= 1000,
        0 <= speed <= 1_000_000,
        0 <= dt <= 1_000_000,
    ensures
        -1_000_000_000_000_000 <= d * speed * dt <= 1_000_000_000_000_000,
{
    assert(-1_000_000_000_000_000 <= d * speed * dt <= 1_000_000_000_000_000) by (nonlinear_arith)
        requires
            -1000 <= d <= 1000,
            0 <= speed <= 1_000_000,
            0 <= dt <= 1_000_000,
    ;
}

/// Position after moving along `d` at `speed` for `dt`, clamped.
fn advance_coord(p: i64, d: i64, speed: i64, dt: u64) -> (r: i64)
    requires
        -1_000_000_000_000_000 <= p <= 1_000_000_000_000_000,
        -1000 <= d <= 1000,
        0 <= speed <= 1_000_000,
        dt <= MAX_DT_MS,
    ensures
        r == clamp_coord_spec(p + d * speed * dt),
{
    proof {
        lemma_step_bounds(d as int, speed as int, dt as int);
        assert(-1_000_000_000 <= d * speed <= 1_000_000_000) by (nonlinear_arith)
            requires
                -1000 <= d <= 1000,
                0 <= speed <= 1_000_000,
        ;
    }
    let step: i128 = (d as i128) * (speed as i128) * (dt as i128);
    clamp_coord(p as i128 + step)
}

impl Actor {
    /// One step of a meteor: bounce off the edge margins, then move.
    pub fn advance_enemy(&mut self, arena: &Arena, dt: u64)
        requires
            old(self).wf(),
            arena.wf(),
            dt <= MAX_DT_MS,
        ensures
            *final(self) == enemy_moved(*old(self), *arena, dt as int),
            final(self).wf(),
    {
        let bound_x: i64 = arena.width - 2 * ENEMY_MARGIN;
        let bound_y: i64 = arena.height - 2 * ENEMY_MARGIN;
        if 2 * self.x >= bound_x || 2 * self.x <= -bound_x {
            self.dx = -self.dx;
        }
        if 2 * self.y >= bound_y || 2 * self.y <= -bound_y {
            self.dy = -self.dy;
        }
        self.x = advance_coord(self.x, self.dx, self.speed, dt);
        self.y = advance_coord(self.y, self.dy, self.speed, dt);
    }

    /// One step of straight flight, without bouncing.
    pub fn advance_straight(&mut self, dt: u64)
        requires
            old(self).wf(),
            dt <= MAX_DT_MS,
        ensures
            *final(self) == flown(*old(self), dt as int),
            final(self).wf(),
    {
        self.x = advance_coord(self.x, self.dx, self.speed, dt);
        self.y = advance_coord(self.y, self.dy, self.speed, dt);
    }

    /// Turns the actor by its spin rate over `dt` milliseconds.
    pub fn spin_by(&mut self, dt: u64)
        requires
            old(self).wf(),
            dt <= MAX_DT_MS,
        ensures
            *final(self) == spun(*old(self), dt as int),
            final(self).wf(),
    {
        proof {
            assert(-1_000_000_000_000 <= self.spin * dt <= 1_000_000_000_000) by (nonlinear_arith)
                requires
                    -1_000_000 <= self.spin <= 1_000_000,
                    0 <= dt <= 1_000_000,
            ;
        }
        let r: i64 = self.rotation + self.spin * (dt as i64);
        let t: i64 = TURN_MICRORAD;
        if r >= 0 {
            self.rotation = r % t;
        } else {
            let q: i64 = (-r) % t;
            proof {
                let k = (-r) / (t as int);
                assert(-r == t * k + q);
                if q == 0 {
                    assert(r == t * (-k) + 0);
                    vstd::arithmetic::div_mod::lemma_fundamental_div_mod_converse(
                        r as int,
                        t as int,
                        -k,
                        0,
                    );
                } else {
                    assert(r == t * (-k - 1) + (t - q));
                    vstd::arithmetic::div_mod::lemma_fundamental_div_mod_converse(
                        r as int,
                        t as int,
                        -k - 1,
                        t - q,
                    );
                }
            }
            if q == 0 {
                self.rotation = 0;
            } else {
                self.rotation = t - q;
            }
        }
    }
}

/// A meteor at or past the right edge margin (`x >= width/2 - margin`) has
/// its horizontal direction reversed by the next step; a meteor clear of
/// both side margins keeps it.
pub proof fn lemma_bounce_on_next_step(a: Actor, arena: Arena, dt: int)
    requires
        a.wf(),
    ensures
        2 * a.x >= arena.width - 2 * ENEMY_MARGIN ==> enemy_moved(a, arena, dt).dx == -a.dx,
        !past_edge(a.x as int, arena.width as int, ENEMY_MARGIN as int) ==> enemy_moved(
            a,
            arena,
            dt,
        ).dx == a.dx,
{
}

} // verus!
