//! The time controller: turns the player, moves and ages every entity, fires
//! bullets and spawns enemies, one time step at a time.
use vstd::prelude::*;
use crate::geometry::{
    heading_velocity, lemma_moved_in_range, velocity_toward, wrap_coordinate,
    wrapped, Point, Size, FULL_TURN, MAX_EXTENT, MAX_STEP_MS,
};
use crate::models::{Bullet, Enemy, Particle, Player};
use crate::rng::{
    next_u32, next_u64, pcg_advance, pcg_output, pcg_output_u64, seeded_generator, Generator,
    PcgModel,
};
use crate::world::{bullets_wf, enemies_wf, particles_wf, GameState, World};

verus! {

/// Cruising speed of the player, in pixels per second: the drift speed it
/// slows back to when not boosting.
pub const PLAYER_SPEED: i64 = 200;

/// Top speed of the player, in pixels per second: boosting accelerates up to it.
pub const BOOST_SPEED: i64 = 400;

/// Speed gained per millisecond of boost, in pixels per second.
pub const BOOST_ACCEL: i64 = 2;

/// Speed lost per millisecond without boost, in pixels per second.
pub const DRAG: i64 = 1;

/// How fast the player turns, in millidegrees per millisecond (a turn a second).
pub const ROTATE_RATE: u64 = 360;

/// Speed of a bullet, in pixels per second.
pub const BULLET_SPEED: i64 = 500;

/// How long a bullet lives, in milliseconds.
pub const BULLET_TTL_MS: u64 = 2000;

/// The shortest pause between two shots, in milliseconds.
pub const SHOT_INTERVAL_MS: u64 = 10;

/// Mean time between two enemy spawns, in milliseconds.
pub const ENEMY_SPAWN_INTERVAL_MS: u64 = 1000;

/// A new enemy heads for where the player was, and would get there after
/// this many milliseconds.
pub const ENEMY_APPROACH_MS: i64 = 4000;

/// Number of distinct values of a spawn roll.
pub const ROLL_RANGE: u64 = 4_294_967_296;

/// What the player asks for: four independent switches. Turning left and
/// right at once cancels out.
#[derive(Clone, Copy, Debug, Default, PartialEq, Eq, Structural)]
pub struct Actions {
    pub shoot: bool,
    pub boost: bool,
    pub rotate_left: bool,
    pub rotate_right: bool,
}

impl Actions {
    /// All switches off.
    pub fn new() -> (r: Actions)
        ensures
            !r.shoot && !r.boost && !r.rotate_left && !r.rotate_right,
    {
        Actions { shoot: false, boost: false, rotate_left: false, rotate_right: false }
    }
}

/// How far the player turns in `dt` milliseconds, modulo a full turn.
pub open spec fn turn_amount(dt: int) -> int {
    (ROTATE_RATE * dt) % (FULL_TURN as int)
}

/// The heading after `dt` milliseconds: clockwise if asked, then
/// counter-clockwise if asked.
pub open spec fn turned(h: int, a: Actions, dt: int) -> int {
    let t = turn_amount(dt);
    let h1 = if a.rotate_right { (h + t) % (FULL_TURN as int) } else { h };
    if a.rotate_left { (h1 + FULL_TURN - t) % (FULL_TURN as int) } else { h1 }
}

/// The player's speed after `dt` milliseconds: boosting accelerates it
/// linearly up to `BOOST_SPEED`; otherwise drag slows it linearly down to
/// `PLAYER_SPEED`. Both are scaled by the elapsed time, so one long step and
/// several short ones with the same switches end at the same speed.
pub open spec fn speed_after(speed: int, a: Actions, dt: int) -> int {
    if a.boost {
        if speed + BOOST_ACCEL * dt < BOOST_SPEED { speed + BOOST_ACCEL * dt } else { BOOST_SPEED as int }
    } else {
        if speed - DRAG * dt > PLAYER_SPEED { speed - DRAG * dt } else { PLAYER_SPEED as int }
    }
}

/// The player after turning, changing speed, moving along its new heading at
/// its new speed with wrap-around, and waiting `dt` milliseconds of its
/// cooldown.
pub open spec fn player_moved(p: Player, size: Size, a: Actions, dt: int) -> Player {
    let h = turned(p.heading as int, a, dt);
    let speed = speed_after(p.speed as int, a, dt);
    let v = heading_velocity(h, speed);
    Player {
        position: Point {
            x: wrapped(p.position.x + v.x * dt, size.width as int) as i64,
            y: wrapped(p.position.y + v.y * dt, size.height as int) as i64,
        },
        heading: h as u32,
        speed: speed as i64,
        cooldown_ms: if p.cooldown_ms > dt { (p.cooldown_ms - dt) as u64 } else { 0 },
    }
}

/// Whether the moved player `m` fires this step.
pub open spec fn fires(m: Player, a: Actions) -> bool {
    a.shoot && m.cooldown_ms == 0
}

/// The bullet that player `p` fires.
pub open spec fn shot(p: Player) -> Bullet {
    Bullet {
        position: p.position,
        velocity: heading_velocity(p.heading as int, BULLET_SPEED as int),
        ttl_ms: BULLET_TTL_MS,
    }
}

/// The player at the end of a step; firing restarts its cooldown.
pub open spec fn player_after(p: Player, size: Size, a: Actions, dt: int) -> Player {
    let m = player_moved(p, size, a, dt);
    if fires(m, a) {
        Player { cooldown_ms: SHOT_INTERVAL_MS, ..m }
    } else {
        m
    }
}

pub open spec fn enemies_after(s: Seq<Enemy>, size: Size, dt: int) -> Seq<Enemy> {
    s.filter_map(|e: Enemy| e.spec_step(size, dt))
}

pub open spec fn bullets_moved(s: Seq<Bullet>, size: Size, dt: int) -> Seq<Bullet> {
    s.filter_map(|b: Bullet| b.spec_step(size, dt))
}

/// The bullets at the end of a step: the survivors, then the new shot if any.
pub open spec fn bullets_after(s: Seq<Bullet>, p: Player, size: Size, a: Actions, dt: int) -> Seq<Bullet> {
    let m = player_moved(p, size, a, dt);
    if fires(m, a) {
        bullets_moved(s, size, dt).push(shot(m))
    } else {
        bullets_moved(s, size, dt)
    }
}

pub open spec fn particles_after(s: Seq<Particle>, size: Size, dt: int) -> Seq<Particle> {
    s.filter_map(|q: Particle| q.spec_step(size, dt))
}

/// The world after the deterministic part of a step of `dt` milliseconds
/// (everything but enemy spawning), field by field.
pub open spec fn advanced(w: World, f: World, a: Actions, dt: int) -> bool {
    &&& f.size == w.size
    &&& f.player == player_after(w.player, w.size, a, dt)
    &&& f.enemies@ == enemies_after(w.enemies@, w.size, dt)
    &&& f.bullets@ == bullets_after(w.bullets@, w.player, w.size, a, dt)
    &&& f.particles@ == particles_after(w.particles@, w.size, dt)
}

/// A spawn roll succeeds with probability `dt / ENEMY_SPAWN_INTERVAL_MS`,
/// capped at one; never when no time passed.
pub open spec fn spawn_due(roll: u32, dt: int) -> bool {
    roll * ENEMY_SPAWN_INTERVAL_MS < dt * ROLL_RANGE
}

/// The point at distance `spot` along the edge of the play area, clockwise
/// from the top-left corner, taken modulo the perimeter.
pub open spec fn perimeter_point(size: Size, spot: u64) -> Point {
    let w = size.width as int;
    let h = size.height as int;
    let t = (spot as int) % (2 * (w + h));
    if t < w {
        Point { x: t as i64, y: 0 }
    } else if t < w + h {
        Point { x: (w - 1) as i64, y: (t - w) as i64 }
    } else if t < 2 * w + h {
        Point { x: (2 * w + h - 1 - t) as i64, y: (h - 1) as i64 }
    } else {
        Point { x: 0, y: (2 * w + 2 * h - 1 - t) as i64 }
    }
}

/// `a / b` rounded toward zero, for `b > 0`.
pub open spec fn div_toward_zero(a: int, b: int) -> int {
    if a >= 0 { a / b } else { -((-a) / b) }
}

/// The enemy that spawns at `perimeter_point(size, spot)`, heading for `target`.
pub open spec fn spawned_enemy(size: Size, target: Point, spot: u64) -> Enemy {
    let p = perimeter_point(size, spot);
    Enemy {
        position: p,
        velocity: Point {
            x: div_toward_zero(target.x - p.x, ENEMY_APPROACH_MS as int) as i64,
            y: div_toward_zero(target.y - p.y, ENEMY_APPROACH_MS as int) as i64,
        },
    }
}

/// The heading after `dt` milliseconds of turning.
pub fn turn(h: u32, a: &Actions, dt: u64) -> (r: u32)
    requires
        h < FULL_TURN,
        dt <= MAX_STEP_MS,
    ensures
        r == turned(h as int, *a, dt as int),
        r < FULL_TURN,
{
    let t = ((ROTATE_RATE * dt) % (FULL_TURN as u64)) as u32;
    let h1 = if a.rotate_right { (h + t) % FULL_TURN } else { h };
    if a.rotate_left { (h1 + FULL_TURN - t) % FULL_TURN } else { h1 }
}

/// Turns and moves the player, wrapping around the edges, and counts down
/// its cooldown.
pub fn move_player(p: &Player, size: Size, a: &Actions, dt: u64) -> (r: Player)
    requires
        size.wf(),
        p.wf(size),
        dt <= MAX_STEP_MS,
    ensures
        r == player_moved(*p, size, *a, dt as int),
        r.wf(size),
{
    let h = turn(p.heading, a, dt);
    let speed = change_speed(p.speed, a, dt);
    let v = velocity_toward(h, speed);
    proof {
        lemma_moved_in_range(p.position, v, dt as int, size);
    }
    let t = dt as i64;
    let x = wrap_coordinate(p.position.x + v.x * t, size.width);
    let y = wrap_coordinate(p.position.y + v.y * t, size.height);
    let cooldown_ms = if p.cooldown_ms > dt { p.cooldown_ms - dt } else { 0 };
    Player { position: Point { x, y }, heading: h, speed, cooldown_ms }
}

/// The player's speed after `dt` milliseconds of boosting or drifting.
pub fn change_speed(speed: i64, a: &Actions, dt: u64) -> (r: i64)
    requires
        PLAYER_SPEED <= speed <= BOOST_SPEED,
        dt <= MAX_STEP_MS,
    ensures
        r == speed_after(speed as int, *a, dt as int),
        PLAYER_SPEED <= r <= BOOST_SPEED,
{
    let t = dt as i64;
    if a.boost {
        if speed + BOOST_ACCEL * t < BOOST_SPEED {
            speed + BOOST_ACCEL * t
        } else {
            BOOST_SPEED
        }
    } else {
        if speed - DRAG * t > PLAYER_SPEED {
            speed - DRAG * t
        } else {
            PLAYER_SPEED
        }
    }
}

fn advance_enemies(s: &Vec<Enemy>, size: Size, dt: u64) -> (r: Vec<Enemy>)
    requires
        size.wf(),
        enemies_wf(s@, size),
        dt <= MAX_STEP_MS,
    ensures
        r@ == enemies_after(s@, size, dt as int),
        enemies_wf(r@, size),
{
    let mut out: Vec<Enemy> = Vec::new();
    let mut i: usize = 0;
    while i < s.len()
        invariant
            i <= s.len(),
            size.wf(),
            enemies_wf(s@, size),
            dt <= MAX_STEP_MS,
            out@ == enemies_after(s@.subrange(0, i as int), size, dt as int),
            enemies_wf(out@, size),
        decreases s.len() - i,
    {
        let next = s[i].step(size, dt);
        proof {
            let t = s@.subrange(0, i + 1);
            assert(t.drop_last() =~= s@.subrange(0, i as int));
            assert(t.last() == s@[i as int]);
        }
        match next {
            Some(e) => {
                proof {
                    let rest = enemies_after(s@.subrange(0, i as int), size, dt as int);
                    assert(rest + seq![e] =~= rest.push(e));
                }
                out.push(e);
            },
            None => {},
        }
        i += 1;
    }
    proof {
        assert(s@.subrange(0, s@.len() as int) =~= s@);
    }
    out
}

fn advance_bullets(s: &Vec<Bullet>, size: Size, dt: u64) -> (r: Vec<Bullet>)
    requires
        size.wf(),
        bullets_wf(s@, size),
        dt <= MAX_STEP_MS,
    ensures
        r@ == bullets_moved(s@, size, dt as int),
        bullets_wf(r@, size),
{
    let mut out: Vec<Bullet> = Vec::new();
    let mut i: usize = 0;
    while i < s.len()
        invariant
            i <= s.len(),
            size.wf(),
            bullets_wf(s@, size),
            dt <= MAX_STEP_MS,
            out@ == bullets_moved(s@.subrange(0, i as int), size, dt as int),
            bullets_wf(out@, size),
        decreases s.len() - i,
    {
        let next = s[i].step(size, dt);
        proof {
            let t = s@.subrange(0, i + 1);
            assert(t.drop_last() =~= s@.subrange(0, i as int));
            assert(t.last() == s@[i as int]);
        }
        match next {
            Some(b) => {
                proof {
                    let rest = bullets_moved(s@.subrange(0, i as int), size, dt as int);
                    assert(rest + seq![b] =~= rest.push(b));
                }
                out.push(b);
            },
            None => {},
        }
        i += 1;
    }
    proof {
        assert(s@.subrange(0, s@.len() as int) =~= s@);
    }
    out
}

fn advance_particles(s: &Vec<Particle>, size: Size, dt: u64) -> (r: Vec<Particle>)
    requires
        size.wf(),
        particles_wf(s@, size),
        dt <= MAX_STEP_MS,
    ensures
        r@ == particles_after(s@, size, dt as int),
        particles_wf(r@, size),
{
    let mut out: Vec<Particle> = Vec::new();
    let mut i: usize = 0;
    while i < s.len()
        invariant
            i <= s.len(),
            size.wf(),
            particles_wf(s@, size),
            dt <= MAX_STEP_MS,
            out@ == particles_after(s@.subrange(0, i as int), size, dt as int),
            particles_wf(out@, size),
        decreases s.len() - i,
    {
        let next = s[i].step(size, dt);
        proof {
            let t = s@.subrange(0, i + 1);
            assert(t.drop_last() =~= s@.subrange(0, i as int));
            assert(t.last() == s@[i as int]);
        }
        match next {
            Some(q) => {
                proof {
                    let rest = particles_after(s@.subrange(0, i as int), size, dt as int);
                    assert(rest + seq![q] =~= rest.push(q));
                }
                out.push(q);
            },
            None => {},
        }
        i += 1;
    }
    proof {
        assert(s@.subrange(0, s@.len() as int) =~= s@);
    }
    out
}

/// The deterministic part of a time step: turn and move the player, move and
/// age every other entity, drop the expired and those that left the play
/// area, and fire if asked and the cooldown is over.
pub fn advance_world(world: &mut World, a: &Actions, dt: u64)
    requires
        old(world).wf(),
        dt <= MAX_STEP_MS,
    ensures
        final(world).wf(),
        advanced(*old(world), *final(world), *a, dt as int),
{
    let size = world.size;
    let m = move_player(&world.player, size, a, dt);
    world.enemies = advance_enemies(&world.enemies, size, dt);
    world.particles = advance_particles(&world.particles, size, dt);
    let mut bullets = advance_bullets(&world.bullets, size, dt);
    if a.shoot && m.cooldown_ms == 0 {
        let velocity = velocity_toward(m.heading, BULLET_SPEED);
        bullets.push(Bullet { position: m.position, velocity, ttl_ms: BULLET_TTL_MS });
        world.player = Player { cooldown_ms: SHOT_INTERVAL_MS, ..m };
    } else {
        world.player = m;
    }
    world.bullets = bullets;
}

/// Whether a spawn roll succeeds over a step of `dt` milliseconds.
pub fn spawn_roll_succeeds(roll: u32, dt: u64) -> (r: bool)
    requires
        dt <= MAX_STEP_MS,
    ensures
        r == spawn_due(roll, dt as int),
{
    if dt >= ENEMY_SPAWN_INTERVAL_MS {
        proof {
            assert(roll * ENEMY_SPAWN_INTERVAL_MS < dt * ROLL_RANGE) by (nonlinear_arith)
                requires
                    roll < ROLL_RANGE,
                    dt >= ENEMY_SPAWN_INTERVAL_MS,
            ;
        }
        true
    } else {
        (roll as u64) * ENEMY_SPAWN_INTERVAL_MS < dt * ROLL_RANGE
    }
}

/// The point at distance `spot` along the edge of the play area.
pub fn spawn_point(size: Size, spot: u64) -> (r: Point)
    requires
        size.wf(),
    ensures
        r == perimeter_point(size, spot),
        size.contains(r),
{
    let w = size.width as u64;
    let h = size.height as u64;
    let t = spot % (2 * (w + h));
    if t < w {
        Point { x: t as i64, y: 0 }
    } else if t < w + h {
        Point { x: (w - 1) as i64, y: (t - w) as i64 }
    } else if t < 2 * w + h {
        Point { x: (2 * w + h - 1 - t) as i64, y: (h - 1) as i64 }
    } else {
        Point { x: 0, y: (2 * w + 2 * h - 1 - t) as i64 }
    }
}

fn approach_component(from: i64, to: i64) -> (r: i64)
    requires
        -MAX_EXTENT <= to - from <= MAX_EXTENT,
    ensures
        r == div_toward_zero(to - from, ENEMY_APPROACH_MS as int),
        -250_000_000 <= r <= 250_000_000,
{
    let d = to - from;
    if d >= 0 {
        d / ENEMY_APPROACH_MS
    } else {
        -((-d) / ENEMY_APPROACH_MS)
    }
}

/// Adds an enemy on the edge of the play area, at distance `spot` from the
/// top-left corner, heading for the player.
pub fn spawn_enemy(world: &mut World, spot: u64)
    requires
        old(world).wf(),
    ensures
        final(world).wf(),
        final(world).size == old(world).size,
        final(world).player == old(world).player,
        final(world).enemies@ == old(world).enemies@.push(
            spawned_enemy(old(world).size, old(world).player.position, spot),
        ),
        final(world).bullets@ == old(world).bullets@,
        final(world).particles@ == old(world).particles@,
{
    let size = world.size;
    let p = spawn_point(size, spot);
    let target = world.player.position;
    let velocity = Point {
        x: approach_component(p.x, target.x),
        y: approach_component(p.y, target.y),
    };
    world.enemies.push(Enemy { position: p, velocity });
    proof {
        let s = world.enemies@;
        assert forall|i: int| 0 <= i < s.len() implies (#[trigger] s[i]).wf(size) by {
            if i < s.len() - 1 {
                assert(s[i] == old(world).enemies@[i]);
            }
        }
    }
}


/// Everything about a step of `dt` milliseconds, given the spawn roll and the
/// spawn spot that were drawn: the deterministic part as in `advanced`, then
/// one enemy more on the edge if the roll succeeds.
pub open spec fn stepped(w: World, f: World, a: Actions, dt: int, roll: u32, spot: u64) -> bool {
    let base = enemies_after(w.enemies@, w.size, dt);
    let p = player_after(w.player, w.size, a, dt);
    &&& f.size == w.size
    &&& f.player == p
    &&& f.bullets@ == bullets_after(w.bullets@, w.player, w.size, a, dt)
    &&& f.particles@ == particles_after(w.particles@, w.size, dt)
    &&& f.enemies@ == if spawn_due(roll, dt) {
        base.push(spawned_enemy(w.size, p.position, spot))
    } else {
        base
    }
}

/// One time step with the random values already drawn: `roll` decides
/// whether an enemy spawns, `spot` where. This is what a replay or a test
/// with a fixed sequence of values calls.
pub fn step_with_draws(world: &mut World, a: &Actions, dt: u64, roll: u32, spot: u64)
    requires
        old(world).wf(),
        dt <= MAX_STEP_MS,
    ensures
        final(world).wf(),
        stepped(*old(world), *final(world), *a, dt as int, roll, spot),
{
    advance_world(world, a, dt);
    if spawn_roll_succeeds(roll, dt) {
        spawn_enemy(world, spot);
    }
}

/// The spawn roll drawn from generator `g`.
pub open spec fn drawn_roll(g: PcgModel) -> u32 {
    pcg_output(g.state)
}

/// The spawn spot drawn after the roll from generator `g`.
pub open spec fn drawn_spot(g: PcgModel) -> u64 {
    pcg_output_u64(pcg_advance(g))
}

/// Whether the spawn roll drawn from `g` succeeds over `dt` milliseconds.
pub open spec fn spawns(g: PcgModel, dt: int) -> bool {
    spawn_due(drawn_roll(g), dt)
}

/// The values a step of `dt` milliseconds uses from generator `g`: the roll,
/// and the spot if the roll succeeds (otherwise the spot is unused, and 0).
pub open spec fn drawn_spot_if_spawning(g: PcgModel, dt: int) -> u64 {
    if spawns(g, dt) { drawn_spot(g) } else { 0 }
}

/// The generator after a step of `dt` milliseconds: one draw for the roll,
/// two more for the spot if the roll succeeds.
pub open spec fn generator_after(g: PcgModel, dt: int) -> PcgModel {
    if dt == 0 {
        g
    } else if spawns(g, dt) {
        pcg_advance(pcg_advance(pcg_advance(g)))
    } else {
        pcg_advance(g)
    }
}

/// Advances the world in time, drawing its random values from a seeded
/// `Pcg32Basic`.
pub struct TimeController {
    rng: Generator,
}

impl TimeController {
    /// The model of the controller's generator.
    pub closed spec fn generator(&self) -> PcgModel {
        self.rng@
    }

    /// A controller whose generator starts from `seed` on stream `stream`.
    pub fn new(seed: u64, stream: u64) -> (r: TimeController)
        ensures
            r.generator() == (PcgModel { state: seed, inc: stream }),
    {
        TimeController { rng: seeded_generator(seed, stream) }
    }

    /// Advances `state` by `dt` milliseconds. No time is no step: nothing
    /// changes and nothing is drawn. Otherwise one spawn roll is drawn, then,
    /// if it succeeds, one spawn spot, and the step is `step_with_draws` with
    /// those values.
    pub fn update(&mut self, dt: u64, a: &Actions, state: &mut GameState)
        requires
            old(state).world.wf(),
            dt <= MAX_STEP_MS,
        ensures
            final(state).world.wf(),
            final(self).generator() == generator_after(old(self).generator(), dt as int),
            dt == 0 ==> *final(state) == *old(state),
            dt > 0 ==> stepped(
                old(state).world,
                final(state).world,
                *a,
                dt as int,
                drawn_roll(old(self).generator()),
                drawn_spot_if_spawning(old(self).generator(), dt as int),
            ),
    {
        if dt == 0 {
            return;
        }
        let roll = next_u32(&mut self.rng);
        let spot = if spawn_roll_succeeds(roll, dt) {
            next_u64(&mut self.rng)
        } else {
            0
        };
        step_with_draws(&mut state.world, a, dt, roll, spot);
    }
}

} // verus!
