//! The player's integration step: steering by the held keys, friction,
//! the top-speed limit, and movement.

use vstd::prelude::*;
use crate::actors::{Arena, Player, MAX_PLAYER_RATE};
use crate::geometry::{
    clamp_coord, clamp_coord_spec, floor_sqrt, isqrt, lemma_floor_sqrt_exists, norm_sq, scale_toward_zero,
    scale_toward_zero_exec, unit_of, unit_vector, UNIT,
};
use crate::timer::MAX_DT_MS;

verus! {

/// Distance from a window edge the player cannot steer past, in micro-pixels.
pub const PLAYER_MARGIN: i64 = 100_000_000;

/// Below this squared speed (a hundredth of a pixel per second, squared in
/// milli-pixels) a coasting player stops.
pub const STOP_SPEED_SQ: i128 = 100;

/// Movement keys held during a tick.
#[derive(Clone, Copy, Debug, PartialEq, Eq, Structural)]
pub struct MoveInput {
    pub up: bool,
    pub down: bool,
    pub left: bool,
    pub right: bool,
}

/// The held keys that count, as axis steps in `{-1, 0, 1}`: a key toward an
/// edge is ignored once the player stands within the margin of that edge.
pub open spec fn input_axes(p: Player, input: MoveInput, arena: Arena) -> (int, int) {
    let up = input.up && 2 * p.y < arena.height - 2 * PLAYER_MARGIN;
    let down = input.down && 2 * p.y > -(arena.height - 2 * PLAYER_MARGIN);
    let left = input.left && 2 * p.x > -(arena.width - 2 * PLAYER_MARGIN);
    let right = input.right && 2 * p.x < arena.width - 2 * PLAYER_MARGIN;
    (
        (if right { 1int } else { 0int }) - (if left { 1int } else { 0int }),
        (if up { 1int } else { 0int }) - (if down { 1int } else { 0int }),
    )
}

/// Velocity after acceleration along the unit input direction, or, with no
/// input, after friction, snapping to rest below the stopping speed.
pub open spec fn steered_velocity(p: Player, ax: int, ay: int, dt: int) -> (int, int) {
    if ax == 0 && ay == 0 {
        if norm_sq(p.vx as int, p.vy as int) < STOP_SPEED_SQ {
            (0, 0)
        } else {
            (
                p.vx - scale_toward_zero(p.vx * p.friction, dt, 1_000_000),
                p.vy - scale_toward_zero(p.vy * p.friction, dt, 1_000_000),
            )
        }
    } else {
        let u = unit_of(ax * UNIT, ay * UNIT);
        (
            p.vx + scale_toward_zero(u.0 * p.acceleration, dt, 1_000_000),
            p.vy + scale_toward_zero(u.1 * p.acceleration, dt, 1_000_000),
        )
    }
}

/// `(vx, vy)` scaled down, when it is faster than `max`, to at most `max`.
pub open spec fn speed_limited(vx: int, vy: int, max: int) -> (int, int) {
    if norm_sq(vx, vy) <= max * max {
        (vx, vy)
    } else {
        let d = floor_sqrt(norm_sq(vx, vy)) + 1;
        (scale_toward_zero(vx, max, d), scale_toward_zero(vy, max, d))
    }
}

/// Half the width of the band the player is held in, on an axis of length
/// `extent` centred on the origin: `PLAYER_MARGIN` inside each edge, and
/// nothing when the window is narrower than two margins.
pub open spec fn margin_band(extent: int) -> int {
    if extent / 2 - PLAYER_MARGIN >= 0 {
        extent / 2 - PLAYER_MARGIN
    } else {
        0
    }
}

/// Coordinate `c` held within `[-band, band]`.
pub open spec fn held(c: int, band: int) -> int {
    if c > band {
        band
    } else if c < -band {
        -band
    } else {
        c
    }
}

/// The player after one integration step of `dt` milliseconds: it moves by
/// its new velocity and its position is then held inside the margin band;
/// the velocity is left as steered and limited.
pub open spec fn player_stepped(p: Player, input: MoveInput, arena: Arena, dt: int) -> Player {
    let (ax, ay) = input_axes(p, input, arena);
    let (sx, sy) = steered_velocity(p, ax, ay, dt);
    let (vx, vy) = speed_limited(sx, sy, p.max_speed as int);
    let nx = clamp_coord_spec(p.x + vx * dt);
    let ny = clamp_coord_spec(p.y + vy * dt);
    let hx = held(nx, margin_band(arena.width as int));
    let hy = held(ny, margin_band(arena.height as int));
    Player {
        vx: vx as i64,
        vy: vy as i64,
        x: hx as i64,
        y: hy as i64,
        ..p
    }
}

proof fn lemma_scaled_square(v: int, m: int, d: int)
    requires
        m >= 0,
        d > 0,
    ensures
        scale_toward_zero(v, m, d) * scale_toward_zero(v, m, d) * (d * d) <= (v * v) * (m * m),
{
    let a = if v >= 0 { v } else { -v };
    assert(a * a == v * v) by (nonlinear_arith)
        requires
            a == v || a == -v,
    ;
    let q = (a * m) / d;
    assert(a * m >= 0) by (nonlinear_arith)
        requires
            a >= 0,
            m >= 0,
    ;
    vstd::arithmetic::div_mod::lemma_fundamental_div_mod(a * m, d);
    assert(0 <= q * d <= a * m) by (nonlinear_arith)
        requires
            a * m == d * q + (a * m) % d,
            0 <= (a * m) % d < d,
            a * m >= 0,
            d > 0,
    ;
    assert((q * d) * (q * d) <= (a * m) * (a * m)) by (nonlinear_arith)
        requires
            0 <= q * d <= a * m,
    ;
    let s = scale_toward_zero(v, m, d);
    assert(s == q || s == -q);
    assert(s * s * (d * d) == (q * d) * (q * d)) by (nonlinear_arith)
        requires
            s == q || s == -q,
    ;
    assert((a * m) * (a * m) == (v * v) * (m * m)) by (nonlinear_arith)
        requires
            a * a == v * v,
    ;
}

/// A velocity that was scaled down is no faster than the limit.
proof fn lemma_speed_limited(vx: int, vy: int, max: int)
    requires
        max >= 0,
    ensures
        ({
            let (lx, ly) = speed_limited(vx, vy, max);
            norm_sq(lx, ly) <= max * max
        }),
{
    let n = norm_sq(vx, vy);
    if n > max * max {
        assert(vx * vx >= 0 && vy * vy >= 0) by (nonlinear_arith);
        lemma_floor_sqrt_exists(n);
        let len = floor_sqrt(n);
        let d = len + 1;
        assert(len >= 0 && n < d * d);
        lemma_scaled_square(vx, max, d);
        lemma_scaled_square(vy, max, d);
        let qx = scale_toward_zero(vx, max, d);
        let qy = scale_toward_zero(vy, max, d);
        assert((qx * qx + qy * qy) * (d * d) <= n * (max * max)) by (nonlinear_arith)
            requires
                qx * qx * (d * d) <= (vx * vx) * (max * max),
                qy * qy * (d * d) <= (vy * vy) * (max * max),
                n == vx * vx + vy * vy,
        ;
        assert(n * (max * max) <= (d * d) * (max * max)) by (nonlinear_arith)
            requires
                n < d * d,
                max >= 0,
        ;
        assert(qx * qx + qy * qy <= max * max) by (nonlinear_arith)
            requires
                (qx * qx + qy * qy) * (d * d) <= (d * d) * (max * max),
                d > 0,
        ;
    }
}

proof fn lemma_abs_le_from_square(x: int, m: int)
    requires
        m >= 0,
        x * x <= m * m,
    ensures
        -m <= x <= m,
{
    if x > m {
        assert(x * x > m * m) by (nonlinear_arith)
            requires
                x > m,
                m >= 0,
        ;
    }
    if x < -m {
        assert(x * x > m * m) by (nonlinear_arith)
            requires
                x < -m,
                m >= 0,
        ;
    }
}

/// `(vx, vy)` scaled down to at most `max` when it is faster.
fn limit_speed(vx: i128, vy: i128, max: i64) -> (r: (i128, i128))
    requires
        -2_000_000_000_000_000_000 <= vx <= 2_000_000_000_000_000_000,
        -2_000_000_000_000_000_000 <= vy <= 2_000_000_000_000_000_000,
        0 <= max <= MAX_PLAYER_RATE,
    ensures
        (r.0 as int, r.1 as int) == speed_limited(vx as int, vy as int, max as int),
        norm_sq(r.0 as int, r.1 as int) <= max * max,
        -max <= r.0 <= max,
        -max <= r.1 <= max,
{
    proof {
        lemma_speed_limited(vx as int, vy as int, max as int);
        assert(vx * vx <= 4_000_000_000_000_000_000_000_000_000_000_000_000) by (nonlinear_arith)
            requires
                -2_000_000_000_000_000_000 <= vx <= 2_000_000_000_000_000_000,
        ;
        assert(vy * vy <= 4_000_000_000_000_000_000_000_000_000_000_000_000) by (nonlinear_arith)
            requires
                -2_000_000_000_000_000_000 <= vy <= 2_000_000_000_000_000_000,
        ;
        assert(vx * vx >= 0 && vy * vy >= 0) by (nonlinear_arith);
        assert(max * max <= 1_000_000_000_000_000_000) by (nonlinear_arith)
            requires
                0 <= max <= 1_000_000_000,
        ;
    }
    let n: i128 = vx * vx + vy * vy;
    let m: i128 = max as i128;
    let r = if n <= m * m {
        (vx, vy)
    } else {
        let len: u128 = isqrt(n as u128);
        proof {
            assert(len <= 3_000_000_000_000_000_000) by (nonlinear_arith)
                requires
                    len * len <= n,
                    n <= 8_000_000_000_000_000_000_000_000_000_000_000_000,
            ;
        }
        let d: i128 = len as i128 + 1;
        (scale_toward_zero_exec(vx, m, d), scale_toward_zero_exec(vy, m, d))
    };
    proof {
        let (lx, ly) = speed_limited(vx as int, vy as int, max as int);
        assert(norm_sq(lx, ly) == lx * lx + ly * ly);
        assert(lx * lx >= 0 && ly * ly >= 0) by (nonlinear_arith);
        lemma_abs_le_from_square(lx, max as int);
        lemma_abs_le_from_square(ly, max as int);
    }
    r
}

impl Player {
    /// One integration step of `dt` milliseconds: steer by the held keys (or
    /// coast under friction), hold the speed to `max_speed`, then move.
    pub fn integrate(&mut self, input: MoveInput, arena: &Arena, dt: u64)
        requires
            old(self).wf(),
            arena.wf(),
            dt <= MAX_DT_MS,
        ensures
            *final(self) == player_stepped(*old(self), input, *arena, dt as int),
            final(self).wf(),
            norm_sq(final(self).vx as int, final(self).vy as int)
                <= final(self).max_speed * final(self).max_speed,
            -margin_band(arena.width as int) <= final(self).x <= margin_band(arena.width as int),
            -margin_band(arena.height as int) <= final(self).y <= margin_band(
                arena.height as int,
            ),
    {
        let bound_x: i64 = arena.width - 2 * PLAYER_MARGIN;
        let bound_y: i64 = arena.height - 2 * PLAYER_MARGIN;
        let up = input.up && 2 * self.y < bound_y;
        let down = input.down && 2 * self.y > -bound_y;
        let left = input.left && 2 * self.x > -bound_x;
        let right = input.right && 2 * self.x < bound_x;
        let ax: i64 = (if right { 1i64 } else { 0i64 }) - (if left { 1i64 } else { 0i64 });
        let ay: i64 = (if up { 1i64 } else { 0i64 }) - (if down { 1i64 } else { 0i64 });
        proof {
            assert(self.vy * self.vy >= 0 && self.vx * self.vx >= 0) by (nonlinear_arith);
            lemma_abs_le_from_square(self.vx as int, self.max_speed as int);
            lemma_abs_le_from_square(self.vy as int, self.max_speed as int);
        }
        let vx: i128 = self.vx as i128;
        let vy: i128 = self.vy as i128;
        let sx: i128;
        let sy: i128;
        if ax == 0 && ay == 0 {
            proof {
                assert(vx * vx <= 1_000_000_000_000_000_000 && vy * vy <= 1_000_000_000_000_000_000)
                    by (nonlinear_arith)
                    requires
                        -1_000_000_000 <= vx <= 1_000_000_000,
                        -1_000_000_000 <= vy <= 1_000_000_000,
                ;
            }
            if vx * vx + vy * vy < STOP_SPEED_SQ {
                sx = 0;
                sy = 0;
            } else {
                let f: i128 = self.friction as i128;
                proof {
                    assert(-1_000_000_000_000_000_000 <= vx * f <= 1_000_000_000_000_000_000 && -1_000_000_000_000_000_000 <= vy * f <= 1_000_000_000_000_000_000)
                        by (nonlinear_arith)
                        requires
                            -1_000_000_000 <= vx <= 1_000_000_000,
                            -1_000_000_000 <= vy <= 1_000_000_000,
                            0 <= f <= 1_000_000_000,
                    ;
                }
                let fx: i128 = scale_toward_zero_exec(vx * f, dt as i128, 1_000_000);
                let fy: i128 = scale_toward_zero_exec(vy * f, dt as i128, 1_000_000);
                proof {
                    bound_scaled(vx * f, dt as int, 1_000_000_000_000_000_000);
                    bound_scaled(vy * f, dt as int, 1_000_000_000_000_000_000);
                }
                sx = vx - fx;
                sy = vy - fy;
            }
        } else {
            let u = unit_vector(ax * UNIT, ay * UNIT);
            match u {
                Some((ux, uy)) => {
                    let a: i128 = self.acceleration as i128;
                    proof {
                        assert(-1_000_000_000_000 <= ux * a <= 1_000_000_000_000 && -1_000_000_000_000 <= uy * a <= 1_000_000_000_000)
                            by (nonlinear_arith)
                            requires
                                -1000 <= ux <= 1000,
                                -1000 <= uy <= 1000,
                                0 <= a <= 1_000_000_000,
                        ;
                        bound_scaled(ux * a, dt as int, 1_000_000_000_000);
                        bound_scaled(uy * a, dt as int, 1_000_000_000_000);
                    }
                    sx = vx + scale_toward_zero_exec(ux as i128 * a, dt as i128, 1_000_000);
                    sy = vy + scale_toward_zero_exec(uy as i128 * a, dt as i128, 1_000_000);
                },
                None => {
                    sx = vx;
                    sy = vy;
                },
            }
        }
        let (lx, ly) = limit_speed(sx, sy, self.max_speed);
        proof {
            assert(-1_000_000_000_000_000 <= lx * dt <= 1_000_000_000_000_000 && -1_000_000_000_000_000 <= ly * dt <= 1_000_000_000_000_000)
                by (nonlinear_arith)
                requires
                    -1_000_000_000 <= lx <= 1_000_000_000,
                    -1_000_000_000 <= ly <= 1_000_000_000,
                    0 <= dt <= 1_000_000,
            ;
        }
        let nx = clamp_coord(self.x as i128 + lx * (dt as i128));
        let ny = clamp_coord(self.y as i128 + ly * (dt as i128));
        let band_x: i64 = if arena.width / 2 - PLAYER_MARGIN >= 0 {
            arena.width / 2 - PLAYER_MARGIN
        } else {
            0
        };
        let band_y: i64 = if arena.height / 2 - PLAYER_MARGIN >= 0 {
            arena.height / 2 - PLAYER_MARGIN
        } else {
            0
        };
        self.vx = lx as i64;
        self.vy = ly as i64;
        self.x = hold(nx, band_x);
        self.y = hold(ny, band_y);
    }
}

/// `c` held within `[-band, band]`.
fn hold(c: i64, band: i64) -> (r: i64)
    requires
        0 <= band,
    ensures
        r == held(c as int, band as int),
{
    if c > band {
        band
    } else if c < -band {
        -band
    } else {
        c
    }
}

/// `v * dt / 1_000_000`, rounded toward zero, is no larger than `v` itself
/// for the ticks the model accepts.
proof fn bound_scaled(v: int, dt: int, b: int)
    requires
        -b <= v <= b,
        0 <= dt <= 1_000_000,
    ensures
        -b <= scale_toward_zero(v, dt, 1_000_000) <= b,
{
    let a = if v >= 0 { v } else { -v };
    assert(0 <= (a * dt) / 1_000_000 <= a) by (nonlinear_arith)
        requires
            0 <= a,
            0 <= dt <= 1_000_000,
    ;
}

/// After any integration step the player is no faster than its top speed,
/// whatever keys are held; so the bound holds after any sequence of steps.
pub proof fn lemma_speed_within_max(p: Player, input: MoveInput, arena: Arena, dt: int)
    requires
        p.max_speed >= 0,
    ensures
        ({
            let q = player_stepped(p, input, arena, dt);
            norm_sq(q.vx as int, q.vy as int) <= p.max_speed * p.max_speed
        }),
{
    let (ax, ay) = input_axes(p, input, arena);
    let (sx, sy) = steered_velocity(p, ax, ay, dt);
    lemma_speed_limited(sx, sy, p.max_speed as int);
    let (lx, ly) = speed_limited(sx, sy, p.max_speed as int);
    assert(lx * lx >= 0 && ly * ly >= 0) by (nonlinear_arith);
    lemma_abs_le_from_square(lx, p.max_speed as int);
    lemma_abs_le_from_square(ly, p.max_speed as int);
}

/// After any integration step the player stands inside the margin band: it
/// cannot cross the margin from any edge, whatever its speed.
pub proof fn lemma_stays_inside_margin(p: Player, input: MoveInput, arena: Arena, dt: int)
    requires
        arena.wf(),
    ensures
        ({
            let q = player_stepped(p, input, arena, dt);
            &&& -margin_band(arena.width as int) <= q.x <= margin_band(arena.width as int)
            &&& -margin_band(arena.height as int) <= q.y <= margin_band(arena.height as int)
        }),
{
}

} // verus!
