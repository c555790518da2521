use rocket_core::collisions::CollisionsController;
use rocket_core::game::Game;
use rocket_core::geometry::{
    cosine_exec, sine_exec, wrap_coordinate, Point, Size, UNITS_PER_PIXEL,
};
use rocket_core::models::{Bullet, Enemy, Particle, Player};
use rocket_core::render::DrawCommand;
use rocket_core::time::{
    change_speed, spawn_enemy, spawn_point, spawn_roll_succeeds, step_with_draws, Actions,
    TimeController, BOOST_SPEED, BULLET_TTL_MS, PLAYER_SPEED, SHOT_INTERVAL_MS,
};
use rocket_core::world::{GameState, World};

const PX: i64 = UNITS_PER_PIXEL;

fn screen() -> Size {
    Size::new(1024 * PX, 600 * PX)
}

fn shooting() -> Actions {
    let mut a = Actions::new();
    a.shoot = true;
    a
}

#[test]
fn scenario_three_ticks_of_fire() {
    let run = || {
        let mut game = Game::new(screen(), 42, 42);
        let centre = game.state.world.player.position;
        assert_eq!(centre, Point::new(512 * PX, 300 * PX));
        let start = Point::new(100 * PX, 100 * PX);
        let velocity = Point::new((centre.x - start.x) / 4000, (centre.y - start.y) / 4000);
        game.state.world.enemies.push(Enemy::new(start, velocity));
        game.toggle_shoot(true);
        for _ in 0..3 {
            game.update(100);
        }
        game
    };
    let first = run();
    let bullets = &first.state.world.bullets;
    assert_eq!(bullets.len(), 3);
    let ttls: Vec<u64> = bullets.iter().map(|b| b.ttl_ms).collect();
    assert_eq!(ttls, vec![BULLET_TTL_MS - 200, BULLET_TTL_MS - 100, BULLET_TTL_MS]);
    let second = run();
    assert_eq!(first.state, second.state);
}

#[test]
fn same_seed_same_history() {
    let mut a = Game::new(screen(), 7, 9);
    let mut b = Game::new(screen(), 7, 9);
    let steps: [(u64, bool, bool, bool); 6] = [
        (16, true, false, true),
        (400, false, true, false),
        (1500, true, true, true),
        (0, true, false, false),
        (900, false, false, true),
        (2500, true, false, false),
    ];
    for (dt, shoot, boost, left) in steps {
        for g in [&mut a, &mut b] {
            g.toggle_shoot(shoot);
            g.toggle_boost(boost);
            g.toggle_turn_left(left);
            g.update(dt);
        }
        assert_eq!(a.state, b.state);
        assert_eq!(a.draw(), b.draw());
    }
}

#[test]
fn bullets_stay_bounded_while_firing() {
    let mut game = Game::new(screen(), 42, 42);
    game.toggle_shoot(true);
    game.toggle_turn_right(true);
    let bound = (BULLET_TTL_MS / SHOT_INTERVAL_MS) as usize;
    for _ in 0..2000 {
        game.update(3);
        assert!(game.state.world.bullets.len() <= bound);
    }
    assert!(game.state.world.bullets.len() > 0);
}

#[test]
fn bullet_and_enemy_at_one_place_destroy_each_other() {
    let mut state = GameState::new(screen());
    let at = Point::new(100 * PX, 100 * PX);
    state.world.bullets.push(Bullet::new(at, Point::new(0, 0), 500));
    state.world.enemies.push(Enemy::new(at, Point::new(0, 0)));
    CollisionsController::handle_collisions(&mut state);
    assert!(state.world.bullets.is_empty());
    assert!(state.world.enemies.is_empty());
    assert_eq!(state.world.particles.len(), 10);
    assert!(state.world.particles.iter().all(|p| p.position == at && p.ttl_ms == 1000));
    assert_eq!(state.world.particles[0].velocity, Point::new(100_000, 0));
}

#[test]
fn one_bullet_takes_out_every_enemy_it_touches() {
    let mut state = GameState::new(screen());
    let at = Point::new(200 * PX, 200 * PX);
    state.world.bullets.push(Bullet::new(at, Point::new(0, 0), 500));
    state.world.enemies.push(Enemy::new(Point::new(at.x + 5 * PX, at.y), Point::new(0, 0)));
    state.world.enemies.push(Enemy::new(Point::new(at.x, at.y - 12 * PX), Point::new(0, 0)));
    state.world.enemies.push(Enemy::new(Point::new(at.x + 13 * PX, at.y), Point::new(0, 0)));
    CollisionsController::handle_collisions(&mut state);
    assert!(state.world.bullets.is_empty());
    assert_eq!(state.world.enemies.len(), 1);
    assert_eq!(state.world.enemies[0].position, Point::new(at.x + 13 * PX, at.y));
    assert_eq!(state.world.particles.len(), 20);
}

#[test]
fn ramming_enemy_is_removed_without_explosion() {
    let mut state = GameState::new(screen());
    let p = state.world.player.position;
    state.world.enemies.push(Enemy::new(Point::new(p.x + 15 * PX, p.y), Point::new(0, 0)));
    state.world.enemies.push(Enemy::new(Point::new(p.x + 16 * PX, p.y), Point::new(0, 0)));
    CollisionsController::handle_collisions(&mut state);
    assert_eq!(state.world.enemies.len(), 1);
    assert_eq!(state.world.enemies[0].position.x, p.x + 16 * PX);
    assert!(state.world.particles.is_empty());
    assert_eq!(state.world.player.position, p);
}

#[test]
fn player_wraps_past_right_edge() {
    let mut world = World::new(screen());
    world.player = Player::new(Point::new(1023 * PX, 300 * PX), 0);
    step_with_draws(&mut world, &Actions::new(), 100, u32::MAX, 0);
    assert_eq!(world.player.position, Point::new(1023 * PX + 20 * PX - 1024 * PX, 300 * PX));
}

#[test]
fn player_wraps_past_top_edge_while_boosting() {
    let mut world = World::new(screen());
    world.player = Player::new(Point::new(50 * PX, 10 * PX), 270_000);
    let mut a = Actions::new();
    a.boost = true;
    step_with_draws(&mut world, &a, 100, u32::MAX, 0);
    assert_eq!(world.player.position, Point::new(50 * PX, 10 * PX - 40 * PX + 600 * PX));
}

#[test]
fn zero_time_changes_nothing() {
    let mut game = Game::new(screen(), 42, 42);
    game.toggle_shoot(true);
    game.update(250);
    game.state.world.enemies.push(Enemy::new(Point::new(10 * PX, 10 * PX), Point::new(1, 1)));
    let before = game.state.clone();
    game.update(0);
    assert_eq!(game.state, before);
}

#[test]
fn drawing_twice_gives_the_same_commands() {
    let mut game = Game::new(screen(), 42, 42);
    game.toggle_shoot(true);
    game.update(120);
    game.state.world.particles.push(Particle::new(Point::new(3, 4), Point::new(0, 0), 700));
    game.state.world.enemies.push(Enemy::new(Point::new(5, 6), Point::new(0, 0)));
    let first = game.draw();
    let second = game.draw();
    assert_eq!(first, second);
    let n = first.len();
    assert_eq!(first[0], DrawCommand::Particle { x: 3, y: 4, ttl_ms: 700 });
    assert_eq!(first[n - 2], DrawCommand::Enemy { x: 5, y: 6 });
    let p = game.state.world.player;
    assert_eq!(first[n - 1], DrawCommand::Player { x: p.position.x, y: p.position.y, heading: p.heading });
}

#[test]
fn bhaskara_sine_values() {
    assert_eq!(sine_exec(0), 0);
    assert_eq!(sine_exec(30_000), 500);
    assert_eq!(sine_exec(90_000), 1000);
    assert_eq!(sine_exec(270_000), -1000);
    assert_eq!(cosine_exec(0), 1000);
    assert_eq!(cosine_exec(180_000), -1000);
}

#[test]
fn wrapping_coordinates() {
    assert_eq!(wrap_coordinate(25, 10), 5);
    assert_eq!(wrap_coordinate(-5, 10), 5);
    assert_eq!(wrap_coordinate(-20, 10), 0);
    assert_eq!(wrap_coordinate(9, 10), 9);
}

#[test]
fn spawn_roll_scales_with_time() {
    assert!(!spawn_roll_succeeds(0, 0));
    assert!(spawn_roll_succeeds(0, 1));
    assert!(!spawn_roll_succeeds(u32::MAX, 999));
    assert!(spawn_roll_succeeds(u32::MAX, 1000));
    assert!(spawn_roll_succeeds(1 << 31, 501));
    assert!(!spawn_roll_succeeds(1 << 31, 500));
}

#[test]
fn spawn_points_run_round_the_edge() {
    let size = Size::new(100, 50);
    assert_eq!(spawn_point(size, 0), Point::new(0, 0));
    assert_eq!(spawn_point(size, 120), Point::new(99, 20));
    assert_eq!(spawn_point(size, 150), Point::new(99, 49));
    assert_eq!(spawn_point(size, 260), Point::new(0, 39));
    assert_eq!(spawn_point(size, 300 + 120), Point::new(99, 20));
}

#[test]
fn spawned_enemy_heads_for_the_player() {
    let mut world = World::new(Size::new(100_000, 50_000));
    spawn_enemy(&mut world, 0);
    assert_eq!(world.enemies.len(), 1);
    assert_eq!(world.enemies[0], Enemy::new(Point::new(0, 0), Point::new(12, 6)));
    let mut world = World::new(Size::new(100_000, 50_000));
    spawn_enemy(&mut world, 99_999);
    assert_eq!(world.enemies[0], Enemy::new(Point::new(99_999, 0), Point::new(-12, 6)));
}

#[test]
fn expired_and_escaped_entities_are_dropped() {
    let mut world = World::new(screen());
    world.bullets.push(Bullet::new(Point::new(10 * PX, 10 * PX), Point::new(0, 0), 100));
    world.bullets.push(Bullet::new(Point::new(10 * PX, 10 * PX), Point::new(1000, 0), 101));
    world.particles.push(Particle::new(Point::new(PX, PX), Point::new(-20_000, 0), 900));
    world.enemies.push(Enemy::new(Point::new(1020 * PX, 10 * PX), Point::new(50_000, 0)));
    world.enemies.push(Enemy::new(Point::new(20 * PX, 10 * PX), Point::new(0, 0)));
    step_with_draws(&mut world, &Actions::new(), 100, u32::MAX, 0);
    assert_eq!(world.bullets, vec![Bullet::new(Point::new(10 * PX + 100_000, 10 * PX), Point::new(1000, 0), 1)]);
    assert!(world.particles.is_empty());
    assert_eq!(world.enemies, vec![Enemy::new(Point::new(20 * PX, 10 * PX), Point::new(0, 0))]);
}

#[test]
fn turning_and_cooldown() {
    let mut world = World::new(screen());
    let mut a = shooting();
    a.rotate_right = true;
    step_with_draws(&mut world, &a, 250, u32::MAX, 0);
    assert_eq!(world.player.heading, 90_000);
    assert_eq!(world.player.cooldown_ms, SHOT_INTERVAL_MS);
    assert_eq!(world.bullets.len(), 1);
    assert_eq!(world.bullets[0].velocity, Point::new(0, 500_000));
    step_with_draws(&mut world, &a, 5, u32::MAX, 0);
    assert_eq!(world.bullets.len(), 1);
    assert_eq!(world.player.cooldown_ms, SHOT_INTERVAL_MS - 5);
    a.rotate_left = true;
    let heading = world.player.heading;
    step_with_draws(&mut world, &a, 5, u32::MAX, 0);
    assert_eq!(world.player.heading, heading);
    assert_eq!(world.bullets.len(), 2);
}

#[test]
fn successful_roll_spawns_on_the_edge() {
    let mut world = World::new(Size::new(100_000, 50_000));
    step_with_draws(&mut world, &Actions::new(), 10, 0, 0);
    assert_eq!(world.enemies.len(), 1);
    assert_eq!(world.enemies[0].position, Point::new(0, 0));
}

#[test]
fn seeded_controller_replays() {
    let mut s1 = GameState::new(screen());
    let mut s2 = GameState::new(screen());
    let mut t1 = TimeController::new(42, 42);
    let mut t2 = TimeController::new(42, 42);
    for _ in 0..50 {
        t1.update(700, &Actions::new(), &mut s1);
        t2.update(700, &Actions::new(), &mut s2);
    }
    assert_eq!(s1, s2);
    assert!(!s1.world.enemies.is_empty());
}

#[test]
fn toggles_set_one_action_each() {
    let mut game = Game::new(screen(), 1, 2);
    game.toggle_boost(true);
    game.toggle_turn_right(true);
    assert!(game.actions.boost && game.actions.rotate_right);
    assert!(!game.actions.shoot && !game.actions.rotate_left);
    game.toggle_boost(false);
    assert!(!game.actions.boost);
}

#[test]
fn boost_accelerates_to_a_cap_and_drag_slows_to_cruise() {
    let mut boost = Actions::new();
    boost.boost = true;
    let coast = Actions::new();
    assert_eq!(change_speed(PLAYER_SPEED, &boost, 50), 300);
    assert_eq!(change_speed(300, &coast, 30), 270);
    assert_eq!(change_speed(270, &boost, 500), BOOST_SPEED);
    assert_eq!(change_speed(BOOST_SPEED, &coast, 10_000), PLAYER_SPEED);
    assert_eq!(change_speed(PLAYER_SPEED, &coast, 0), PLAYER_SPEED);
}

#[test]
fn speed_change_is_scaled_by_time_not_calls() {
    let mut boost = Actions::new();
    boost.boost = true;
    let mut one = World::new(screen());
    let mut many = World::new(screen());
    step_with_draws(&mut one, &boost, 60, u32::MAX, 0);
    for _ in 0..6 {
        step_with_draws(&mut many, &boost, 10, u32::MAX, 0);
    }
    assert_eq!(one.player.speed, 320);
    assert_eq!(many.player.speed, 320);
}

#[test]
fn player_moves_at_its_new_speed() {
    let mut world = World::new(screen());
    let mut a = Actions::new();
    a.boost = true;
    step_with_draws(&mut world, &a, 50, u32::MAX, 0);
    assert_eq!(world.player.speed, 300);
    assert_eq!(world.player.position, Point::new(512 * PX + 15 * PX, 300 * PX));
}

#[test]
fn toggles_leave_the_generator_alone() {
    let mut a = Game::new(screen(), 5, 6);
    let mut b = Game::new(screen(), 5, 6);
    a.toggle_shoot(true);
    a.toggle_shoot(false);
    a.toggle_boost(true);
    a.toggle_boost(false);
    a.toggle_turn_left(true);
    a.toggle_turn_left(false);
    a.toggle_turn_right(true);
    a.toggle_turn_right(false);
    for _ in 0..20 {
        a.update(900);
        b.update(900);
    }
    assert_eq!(a.state, b.state);
}

#[test]
fn different_seeds_draw_differently() {
    let mut a = GameState::new(screen());
    let mut b = GameState::new(screen());
    let mut ta = TimeController::new(42, 42);
    let mut tb = TimeController::new(43, 42);
    for _ in 0..50 {
        ta.update(700, &Actions::new(), &mut a);
        tb.update(700, &Actions::new(), &mut b);
    }
    assert_ne!(a, b);
}
