use meteor_shooter::actors::{Actor, ActorKind, Arena};
use meteor_shooter::collision::{
    handle_bullet_enemy_collision, handle_bullet_wall_collision, handle_player_enemy_collision,
    CollisionOutcome,
};
use meteor_shooter::config::ConfigLoader;
use meteor_shooter::debug::{debug_inputs, DebugAction};
use meteor_shooter::effects::{decay_effects, EffectKind, TimedEffect};
use meteor_shooter::firing::FireOutcome;
use meteor_shooter::geometry::{isqrt, unit_vector};
use meteor_shooter::player::MoveInput;
use meteor_shooter::plugins::{EnemyPlugin, GamePlugin, PlayerPlugin};
use meteor_shooter::spawn::EnemyDraw;
use meteor_shooter::tick::TickInput;
use meteor_shooter::timer::{AnimationConfig, Timer, TimerMode};
use meteor_shooter::world::{Accuracy, World};

const PX: i64 = 1_000_000;

fn arena() -> Arena {
    Arena { width: 1280 * PX, height: 720 * PX }
}

/// Cursor position (window coordinates) over the arena point `(x, y)` pixels.
fn cursor_at(x: i64, y: i64) -> Option<(i64, i64)> {
    let a = arena();
    Some((x * PX + a.width / 2, a.height / 2 - y * PX))
}

fn draw(x: i64, y: i64, dx: i64, dy: i64, speed: i64) -> EnemyDraw {
    EnemyDraw { x: x * PX, y: y * PX, dx, dy, speed, spin: 0 }
}

/// A world with one meteor at `(ex, ey)` pixels and one bullet fired at it.
fn world_with_pair(ex: i64, ey: i64) -> (World, u64, u64) {
    let mut w = World::new(arena());
    assert!(w.spawn_enemy(draw(ex, ey, 1000, 0, 50)));
    let enemy = w.enemies[0].id;
    let bullet = match PlayerPlugin::fire_bullet(&mut w, cursor_at(ex, ey)) {
        FireOutcome::Fired { id } => id,
        other => panic!("expected a shot, got {:?}", other),
    };
    (w, bullet, enemy)
}

#[test]
fn enemy_moves_straight_for_one_second() {
    let mut w = World::new(arena());
    assert!(w.spawn_enemy(draw(100, 100, 1000, 0, 50)));
    EnemyPlugin::move_enemies(&mut w, 1000);
    assert_eq!((w.enemies[0].x, w.enemies[0].y), (150 * PX, 100 * PX));
    assert_eq!((w.enemies[0].dx, w.enemies[0].dy), (1000, 0));
}

#[test]
fn aim_along_positive_x_gives_zero_angle() {
    let mut w = World::new(arena());
    PlayerPlugin::player_rotate(&mut w, cursor_at(100, 0));
    assert_eq!((w.player.aim_x, w.player.aim_y), (100 * PX, 0));
    let angle = (w.player.aim_y as f64).atan2(w.player.aim_x as f64);
    assert_eq!(angle, 0.0);
}

#[test]
fn rotation_unchanged_without_cursor() {
    let mut w = World::new(arena());
    PlayerPlugin::player_rotate(&mut w, cursor_at(0, 50));
    PlayerPlugin::player_rotate(&mut w, None);
    assert_eq!((w.player.aim_x, w.player.aim_y), (0, 50 * PX));
    PlayerPlugin::player_rotate(&mut w, cursor_at(0, 0));
    assert_eq!((w.player.aim_x, w.player.aim_y), (0, 50 * PX));
}

#[test]
fn second_fire_in_same_tick_is_rejected() {
    let mut w = World::new(arena());
    let first = PlayerPlugin::fire_bullet(&mut w, cursor_at(100, 0));
    let second = PlayerPlugin::fire_bullet(&mut w, cursor_at(100, 0));
    assert!(matches!(first, FireOutcome::Fired { .. }));
    assert_eq!(second, FireOutcome::CoolingDown);
    assert_eq!(w.accuracy.bullets_fired, 1);
    assert_eq!(w.bullets.len(), 1);
}

#[test]
fn fire_again_after_cooldown() {
    let mut w = World::new(arena());
    let none = MoveInput { up: false, down: false, left: false, right: false };
    assert!(matches!(PlayerPlugin::fire_bullet(&mut w, cursor_at(100, 0)), FireOutcome::Fired { .. }));
    PlayerPlugin::player_movement(&mut w, none, 100);
    assert_eq!(PlayerPlugin::fire_bullet(&mut w, cursor_at(100, 0)), FireOutcome::CoolingDown);
    PlayerPlugin::player_movement(&mut w, none, 100);
    assert!(matches!(PlayerPlugin::fire_bullet(&mut w, cursor_at(100, 0)), FireOutcome::Fired { .. }));
    assert_eq!(w.accuracy.bullets_fired, 2);
}

#[test]
fn fire_without_cursor_or_onto_player_is_skipped() {
    let mut w = World::new(arena());
    assert_eq!(PlayerPlugin::fire_bullet(&mut w, None), FireOutcome::NoAim);
    assert_eq!(PlayerPlugin::fire_bullet(&mut w, cursor_at(0, 0)), FireOutcome::AimAtPlayer);
    assert_eq!(w.accuracy.bullets_fired, 0);
    assert!(w.bullets.is_empty());
}

#[test]
fn bullet_flies_toward_cursor() {
    let mut w = World::new(arena());
    assert!(matches!(PlayerPlugin::fire_bullet(&mut w, cursor_at(30, 40)), FireOutcome::Fired { .. }));
    let b = w.bullets[0];
    assert_eq!(b.kind, ActorKind::Bullet);
    assert_eq!((b.dx, b.dy, b.speed), (600, 800, 400));
    PlayerPlugin::move_bullet(&mut w, 500);
    assert_eq!((w.bullets[0].x, w.bullets[0].y), (120 * PX, 160 * PX));
    assert_eq!(w.effects.len(), 1);
    assert_eq!(w.effects[0].kind, EffectKind::FireSound);
}

#[test]
fn duplicate_hit_event_scores_once() {
    let (mut w, bullet, enemy) = world_with_pair(200, 100);
    let events = vec![(bullet, enemy), (bullet, enemy)];
    let outs = w.resolve_collisions(&events);
    assert_eq!(outs, vec![CollisionOutcome::Hit { bullet, enemy }, CollisionOutcome::Ignored]);
    assert_eq!(w.score.score, 1);
    assert_eq!(w.accuracy.bullets_hit, 1);
    assert!(w.bullets.is_empty());
    assert!(w.enemies.is_empty());
}

#[test]
fn hit_leaves_smoke_and_sound_at_enemy() {
    let (mut w, bullet, enemy) = world_with_pair(200, 100);
    let out = w.resolve_event(enemy, bullet);
    assert_eq!(out, CollisionOutcome::Hit { bullet, enemy });
    let kinds: Vec<EffectKind> = w.effects.iter().map(|e| e.kind).collect();
    assert_eq!(kinds, vec![EffectKind::FireSound, EffectKind::Smoke, EffectKind::HitSound]);
    assert_eq!((w.effects[1].x, w.effects[1].y), (200 * PX, 100 * PX));
}

#[test]
fn hits_never_exceed_shots() {
    let (mut w, bullet, enemy) = world_with_pair(200, 100);
    w.resolve_event(bullet, enemy);
    w.resolve_event(bullet, enemy);
    w.resolve_event(enemy, bullet);
    assert!(w.accuracy.bullets_hit <= w.accuracy.bullets_fired);
    assert_eq!((w.accuracy.bullets_hit, w.accuracy.bullets_fired), (1, 1));
}

#[test]
fn bullet_wall_event_removes_bullet_only() {
    let (mut w, bullet, _enemy) = world_with_pair(200, 100);
    let wall = w.walls[0].id;
    let outs = handle_bullet_wall_collision(&mut w, &vec![(wall, bullet)]);
    assert_eq!(outs, vec![CollisionOutcome::BulletWall { bullet }]);
    assert!(w.bullets.is_empty());
    assert_eq!(w.enemies.len(), 1);
    assert_eq!(w.score.score, 0);
}

#[test]
fn player_enemy_contact_signals_game_over() {
    let (mut w, bullet, enemy) = world_with_pair(200, 100);
    let player = w.player.id;
    let outs = handle_player_enemy_collision(&mut w, &vec![(player, enemy), (bullet, enemy)]);
    assert_eq!(outs, vec![CollisionOutcome::GameOver, CollisionOutcome::Ignored]);
    assert_eq!(w.enemies.len(), 1);
    assert_eq!(w.bullets.len(), 1);
}

#[test]
fn bullet_enemy_handler_ignores_other_pairs() {
    let (mut w, bullet, enemy) = world_with_pair(200, 100);
    let wall = w.walls[1].id;
    let outs = handle_bullet_enemy_collision(&mut w, &vec![(bullet, wall), (bullet, enemy)]);
    assert_eq!(outs, vec![CollisionOutcome::Ignored, CollisionOutcome::Hit { bullet, enemy }]);
    assert_eq!(w.score.score, 1);
}

#[test]
fn events_for_unknown_actors_are_ignored() {
    let (mut w, bullet, enemy) = world_with_pair(200, 100);
    assert_eq!(w.resolve_event(999, enemy), CollisionOutcome::Ignored);
    assert_eq!(w.resolve_event(bullet, bullet), CollisionOutcome::Ignored);
    assert_eq!(w.score.score, 0);
    assert_eq!(w.bullets.len(), 1);
}

#[test]
fn enemy_bounces_only_after_crossing_right_edge() {
    let a = arena();
    let mut w = World::new(a);
    // The right margin line sits at x = 640 - 25 = 615 pixels.
    assert!(w.spawn_enemy(draw(614, 0, 1000, 0, 100)));
    EnemyPlugin::move_enemies(&mut w, 10);
    assert_eq!(w.enemies[0].dx, 1000);
    assert_eq!(w.enemies[0].x, 615 * PX);
    EnemyPlugin::move_enemies(&mut w, 10);
    assert_eq!(w.enemies[0].dx, -1000);
    assert_eq!(w.enemies[0].x, 614 * PX);
}

#[test]
fn enemy_spins_within_one_turn() {
    let mut w = World::new(arena());
    assert!(w.spawn_enemy(EnemyDraw { x: 0, y: 0, dx: 0, dy: 1000, speed: 0, spin: -1000 }));
    EnemyPlugin::rotate_enemies(&mut w, 1000);
    assert_eq!(w.enemies[0].rotation, 6_283_185 - 1_000_000);
    EnemyPlugin::rotate_enemies(&mut w, 0);
    assert_eq!(w.enemies[0].rotation, 5_283_185);
}

#[test]
fn player_speed_stays_within_max() {
    let mut w = World::new(arena());
    let keys = MoveInput { up: true, down: false, left: false, right: true };
    for _ in 0..200 {
        PlayerPlugin::player_movement(&mut w, keys, 16);
        let (vx, vy) = (w.player.vx as i128, w.player.vy as i128);
        let max = w.player.max_speed as i128;
        assert!(vx * vx + vy * vy <= max * max);
    }
    // Held at the top margin line (360 - 100 = 260 pixels), inside the right one.
    assert_eq!(w.player.y, 260 * PX);
    assert!(w.player.x > 0 && w.player.x <= 540 * PX);
}

#[test]
fn player_accelerates_then_coasts_to_rest() {
    let mut w = World::new(arena());
    let right = MoveInput { up: false, down: false, left: false, right: true };
    let none = MoveInput { up: false, down: false, left: false, right: false };
    PlayerPlugin::player_movement(&mut w, right, 100);
    // 500 px/s^2 for 0.1 s: 50 px/s, then 5 px moved.
    assert_eq!((w.player.vx, w.player.vy), (50_000, 0));
    assert_eq!(w.player.x, 5 * PX);
    PlayerPlugin::player_movement(&mut w, none, 100);
    // Friction 5/s for 0.1 s halves the speed.
    assert_eq!(w.player.vx, 25_000);
    for _ in 0..100 {
        PlayerPlugin::player_movement(&mut w, none, 100);
    }
    assert_eq!((w.player.vx, w.player.vy), (0, 0));
}

#[test]
fn player_cannot_steer_past_margin() {
    let mut w = World::new(arena());
    w.player.x = 540 * PX;
    let right = MoveInput { up: false, down: false, left: false, right: true };
    PlayerPlugin::player_movement(&mut w, right, 100);
    assert_eq!(w.player.vx, 0);
    assert_eq!(w.player.x, 540 * PX);
}

#[test]
fn effect_removed_when_countdown_reaches_zero() {
    let mut effects = vec![TimedEffect::new(0, 0, EffectKind::Smoke)];
    decay_effects(&mut effects, EffectKind::Smoke, 1500);
    assert_eq!(effects.len(), 1);
    assert_eq!(effects[0].timer.remaining(), 500);
    assert_eq!(effects[0].opacity(), 250);
    decay_effects(&mut effects, EffectKind::Smoke, 500);
    assert!(effects.is_empty());
}

#[test]
fn effect_of_other_kind_is_left_alone() {
    let mut effects = vec![
        TimedEffect::new(0, 0, EffectKind::HitSound),
        TimedEffect::new(0, 0, EffectKind::Smoke),
    ];
    decay_effects(&mut effects, EffectKind::HitSound, 2500);
    assert_eq!(effects.len(), 1);
    assert_eq!(effects[0].kind, EffectKind::Smoke);
    assert_eq!(effects[0].timer.elapsed_ms, 0);
    assert_eq!(effects[0].opacity(), 1000);
}

#[test]
fn world_phases_expire_effects() {
    let (mut w, bullet, enemy) = world_with_pair(200, 100);
    w.resolve_event(bullet, enemy);
    assert_eq!(w.effects.len(), 3);
    GamePlugin::despawn_smokes(&mut w, 2000);
    assert_eq!(w.effects.len(), 2);
    GamePlugin::despawn_hit_sounds_bullet_meteor(&mut w, 1999);
    assert_eq!(w.effects.len(), 2);
    GamePlugin::despawn_hit_sounds_bullet_meteor(&mut w, 1);
    PlayerPlugin::remove_bullet_sound_entities(&mut w, 2000);
    assert!(w.effects.is_empty());
}

#[test]
fn spawn_timer_spawns_every_period() {
    let mut w = World::new(arena());
    assert!(!EnemyPlugin::spawn_enemies(&mut w, 1999));
    assert!(w.enemies.is_empty());
    assert!(EnemyPlugin::spawn_enemies(&mut w, 1));
    assert_eq!(w.enemies.len(), 1);
    assert_eq!(w.spawn_timer.0.elapsed_ms, 0);
    let e: Actor = w.enemies[0];
    assert_eq!(e.kind, ActorKind::Enemy);
    assert!(e.speed >= 50 && e.speed < 200);
    assert!(e.x >= -590 * PX && e.x < 590 * PX);
}

#[test]
fn random_draws_vary_and_stay_in_range() {
    let a = arena();
    let mut xs = Vec::new();
    for _ in 0..64 {
        let d = EnemyDraw::sample(&a).unwrap();
        assert!(d.x >= -590 * PX && d.x < 590 * PX);
        assert!(d.y >= -310 * PX && d.y < 310 * PX);
        assert!(d.dx >= -1000 && d.dx < 1000 && d.dy >= -1000 && d.dy < 1000);
        assert!(d.spin >= -4000 && d.spin < 4000);
        xs.push(d.x);
    }
    assert!(xs.iter().any(|&x| x != xs[0]));
    assert!(xs.iter().any(|&x| x != -590 * PX));
}

#[test]
fn no_spawn_in_tiny_window() {
    let tiny = Arena { width: 100 * PX, height: 720 * PX };
    assert!(EnemyDraw::sample(&tiny).is_none());
}

#[test]
fn integer_square_root_and_unit_vectors() {
    assert_eq!(isqrt(0), 0);
    assert_eq!(isqrt(24), 4);
    assert_eq!(isqrt(25), 5);
    assert_eq!(unit_vector(3, 4), Some((600, 800)));
    assert_eq!(unit_vector(1000, 1000), Some((707, 707)));
    assert_eq!(unit_vector(-5, 0), Some((-1000, 0)));
    assert_eq!(unit_vector(0, 0), None);
    // Short vectors are scaled up first, so they come out of unit length too.
    assert_eq!(unit_vector(1, 1), Some((707, 707)));
    assert_eq!(unit_vector(1, 2), Some((447, 894)));
    assert_eq!(unit_vector(0, -1), Some((0, -1000)));
}

#[test]
fn timers_once_and_repeating() {
    let mut once = Timer::new(100, TimerMode::Once);
    assert!(!once.tick(60));
    assert!(once.tick(60));
    assert_eq!(once.elapsed_ms, 100);
    assert!(!once.tick(60));
    let mut rep = Timer::new(100, TimerMode::Repeating);
    assert!(rep.tick(250));
    assert_eq!(rep.elapsed_ms, 50);
    assert_eq!(rep.remaining(), 50);
}

#[test]
fn animation_frames_wrap() {
    let a = AnimationConfig::new(0, 5, 60, String::from("once"));
    assert_eq!(a.frame_timer.mode, TimerMode::Once);
    assert_eq!(a.frame_timer.duration_ms, 16);
    assert_eq!(a.next_frame(3), 4);
    assert_eq!(a.next_frame(4), 0);
    let t = AnimationConfig::timer_from_fps(10, String::from("Repeating"));
    assert_eq!(t.mode, TimerMode::Repeating);
    assert_eq!(t.duration_ms, 100);
}

#[test]
fn accuracy_percentage() {
    assert_eq!(Accuracy { bullets_fired: 0, bullets_hit: 0 }.percent(), 0);
    assert_eq!(Accuracy { bullets_fired: 3, bullets_hit: 1 }.percent(), 33);
    assert_eq!(Accuracy { bullets_fired: 4, bullets_hit: 4 }.percent(), 100);
}

#[test]
fn config_loader_claims_toml() {
    assert_eq!(ConfigLoader.extensions(), vec!["toml"]);
}

#[test]
fn detector_reports_touching_pairs() {
    let mut w = World::new(arena());
    assert!(w.spawn_enemy(draw(200, 100, 1000, 0, 0)));
    assert!(w.spawn_enemy(draw(-300, 0, 1000, 0, 0)));
    let near = match PlayerPlugin::fire_bullet(&mut w, cursor_at(200, 100)) {
        FireOutcome::Fired { id } => id,
        other => panic!("expected a shot, got {:?}", other),
    };
    // The bullet starts at the centre; move it 0.5 s at 400 px/s toward (200, 100).
    PlayerPlugin::move_bullet(&mut w, 500);
    let events = meteor_shooter::detect::touching_bullets(&w);
    assert_eq!(events, vec![(near, w.enemies[0].id)]);
    handle_bullet_enemy_collision(&mut w, &events);
    assert_eq!(w.score.score, 1);
    assert_eq!(w.enemies.len(), 1);
    assert!(meteor_shooter::detect::touching_bullets(&w).is_empty());
}

#[test]
fn new_world_starts_empty_with_four_walls() {
    let w = World::new(arena());
    assert_eq!(w.walls.len(), 4);
    assert_eq!((w.walls[0].x, w.walls[0].half_width), (1280 * PX, 100 * PX));
    assert_eq!((w.score.score, w.accuracy.bullets_fired, w.accuracy.bullets_hit), (0, 0, 0));
    assert!(w.enemies.is_empty() && w.bullets.is_empty() && w.effects.is_empty());
    assert_eq!((w.player.x, w.player.y, w.player.max_speed), (0, 0, 400_000));
    assert!(w.player.fire_cooldown.is_finished());
}

#[test]
fn crosshair_follows_cursor() {
    let a = arena();
    assert_eq!(GamePlugin::custom_cursor(cursor_at(-20, 35), &a), Some((-20 * PX, 35 * PX)));
    assert_eq!(GamePlugin::custom_cursor(Some((0, 0)), &a), Some((-640 * PX, 360 * PX)));
    assert_eq!(GamePlugin::custom_cursor(None, &a), None);
}

#[test]
fn animation_steps_on_timer() {
    let mut enemy_anim = AnimationConfig::new(0, 3, 10, String::from("Repeating"));
    let f = EnemyPlugin::execute_animations_enemies(&mut enemy_anim, 0, 50);
    assert_eq!(f, 0);
    let f = EnemyPlugin::execute_animations_enemies(&mut enemy_anim, f, 50);
    assert_eq!(f, 1);
    let f = EnemyPlugin::execute_animations_enemies(&mut enemy_anim, 2, 100);
    assert_eq!(f, 0);

    let mut turret = AnimationConfig::new(0, 5, 60, String::from("once"));
    assert_eq!(PlayerPlugin::execute_animations_player(&mut turret, 0, 16, false), 1);
    assert_eq!(turret.frame_timer.elapsed_ms, 0);
    assert_eq!(PlayerPlugin::execute_animations_player(&mut turret, 1, 10, true), 1);
    assert_eq!(turret.frame_timer.elapsed_ms, 10);
}

#[test]
fn tick_runs_phases_in_order() {
    let mut w = World::new(arena());
    assert!(w.spawn_enemy(draw(200, 100, 1000, 0, 0)));
    let enemy = w.enemies[0].id;
    let idle = MoveInput { up: false, down: false, left: false, right: false };
    let shoot = TickInput { dt: 16, movement: idle, cursor: cursor_at(200, 100), fire: true };
    let r = w.tick(shoot, &Vec::new());
    let bullet = match r.fire {
        Some(FireOutcome::Fired { id }) => id,
        other => panic!("expected a shot, got {:?}", other),
    };
    assert!(!r.spawned);
    assert_eq!(w.accuracy.bullets_fired, 1);
    assert!(w.bullets[0].x > 0);
    // The collision source reports the pair twice in the next tick.
    let wait = TickInput { dt: 16, movement: idle, cursor: cursor_at(200, 100), fire: true };
    let r = w.tick(wait, &vec![(bullet, enemy), (enemy, bullet)]);
    assert_eq!(r.fire, Some(FireOutcome::CoolingDown));
    assert_eq!(r.collisions, vec![CollisionOutcome::Hit { bullet, enemy }, CollisionOutcome::Ignored]);
    assert_eq!((w.score.score, w.accuracy.bullets_hit, w.accuracy.bullets_fired), (1, 1, 1));
    assert_eq!(w.accuracy.percent(), 100);
}

#[test]
fn ticks_spawn_meteors_on_schedule() {
    let mut w = World::new(arena());
    let idle = MoveInput { up: false, down: false, left: false, right: false };
    let mut spawned = 0;
    for _ in 0..250 {
        let r = w.tick(TickInput { dt: 16, movement: idle, cursor: None, fire: false }, &Vec::new());
        if r.spawned {
            spawned += 1;
        }
        assert!(w.accuracy.bullets_hit <= w.accuracy.bullets_fired);
    }
    // 250 ticks of 16 ms make 4 s: two full spawn periods.
    assert_eq!(spawned, 2);
    assert_eq!(w.enemies.len(), 2);
}

#[test]
fn coasting_player_is_held_at_margin() {
    let mut w = World::new(arena());
    // The margin line on the right sits at 640 - 100 = 540 pixels.
    w.player.x = 539 * PX;
    w.player.vx = 400_000;
    let none = MoveInput { up: false, down: false, left: false, right: false };
    PlayerPlugin::player_movement(&mut w, none, 100);
    // Friction halves the speed; the position stops at the margin line.
    assert_eq!((w.player.x, w.player.vx), (540 * PX, 200_000));
    w.player.y = -250 * PX;
    w.player.vy = -400_000;
    PlayerPlugin::player_movement(&mut w, none, 100);
    assert_eq!((w.player.x, w.player.vx), (540 * PX, 100_000));
    assert_eq!((w.player.y, w.player.vy), (-260 * PX, -200_000));
}

#[test]
fn detector_scores_each_pair_once() {
    let mut w = World::new(arena());
    assert!(w.spawn_enemy(draw(200, 100, 1000, 0, 0)));
    let enemy = w.enemies[0].id;
    let first = match PlayerPlugin::fire_bullet(&mut w, cursor_at(200, 100)) {
        FireOutcome::Fired { id } => id,
        other => panic!("expected a shot, got {:?}", other),
    };
    w.player.fire_cooldown.elapsed_ms = w.player.fire_cooldown.duration_ms;
    assert!(matches!(PlayerPlugin::fire_bullet(&mut w, cursor_at(200, 100)), FireOutcome::Fired { .. }));
    PlayerPlugin::move_bullet(&mut w, 500);
    let outs = meteor_shooter::detect::collision_bullet_enemy(&mut w);
    assert_eq!(outs, vec![CollisionOutcome::Hit { bullet: first, enemy }, CollisionOutcome::Ignored]);
    assert_eq!(w.score.score, 1);
    assert_eq!(w.bullets.len(), 1);
    assert!(w.enemies.is_empty());
}

#[test]
fn debug_keys_toggle_cursor_and_quit() {
    assert_eq!(debug_inputs(true, false, false, true), DebugAction { cursor_visible: false, quit: false });
    assert_eq!(debug_inputs(true, true, false, false), DebugAction { cursor_visible: true, quit: false });
    assert_eq!(debug_inputs(false, false, true, false), DebugAction { cursor_visible: false, quit: true });
    assert_eq!(debug_inputs(false, false, false, true), DebugAction { cursor_visible: true, quit: false });
}

#[test]
fn diagonal_push_at_margin_keeps_velocity() {
    let mut w = World::new(arena());
    w.player.x = 539 * PX;
    w.player.vx = 100_000;
    let keys = MoveInput { up: true, down: false, left: false, right: true };
    PlayerPlugin::player_movement(&mut w, keys, 16);
    // 500 px/s^2 along (707, 707) thousandths for 16 ms adds 5.656 px/s per axis.
    assert_eq!((w.player.vx, w.player.vy), (105_656, 5_656));
    assert_eq!(w.player.x, 540 * PX);
    assert_eq!(w.player.y, 5_656 * 16);
}

#[test]
fn smoke_opacity_fades_each_tick() {
    let (mut w, bullet, enemy) = world_with_pair(200, 100);
    w.resolve_event(bullet, enemy);
    // Effects in order: shot sound, smoke, hit sound.
    let shown = GamePlugin::despawn_smokes(&mut w, 500);
    assert_eq!(shown, vec![1000, 750, 1000]);
    let shown = GamePlugin::despawn_smokes(&mut w, 1000);
    assert_eq!(shown, vec![1000, 250, 1000]);
    let shown = GamePlugin::despawn_smokes(&mut w, 500);
    assert_eq!(shown, vec![1000, 1000]);
    assert_eq!(w.effects.len(), 2);
}
