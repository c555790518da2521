//! The collisions controller: finds overlapping entities and resolves every
//! overlap found in one pass.
//!
//! Rules: an enemy that overlaps any bullet is destroyed and leaves an
//! explosion; every bullet that overlaps any enemy is spent (a bullet takes
//! out all the enemies it touches); an enemy that rams the player is
//! removed without an explosion, and the player is not harmed.
use vstd::prelude::*;
use crate::geometry::{heading_velocity, velocity_toward, Point, Size, FULL_TURN, MAX_EXTENT};
use crate::models::{Bullet, Enemy, Particle, Player};
use crate::world::{bullets_wf, enemies_wf, particles_wf, GameState, World};

verus! {

/// Radius of the player, in micro-pixels.
pub const PLAYER_RADIUS: i64 = 6_000_000;

/// Radius of an enemy, in micro-pixels.
pub const ENEMY_RADIUS: i64 = 10_000_000;

/// Radius of a bullet, in micro-pixels.
pub const BULLET_RADIUS: i64 = 3_000_000;

/// Particles in one explosion.
pub const EXPLOSION_PARTICLES: u32 = 10;

/// Speed of an explosion particle, in pixels per second.
pub const PARTICLE_SPEED: i64 = 100;

/// How long an explosion particle lives, in milliseconds.
pub const PARTICLE_TTL_MS: u64 = 1000;

/// Whether two circles whose centres are `p` and `q` and whose radii add up
/// to `reach` overlap.
pub open spec fn overlaps(p: Point, q: Point, reach: int) -> bool {
    let dx = p.x - q.x;
    let dy = p.y - q.y;
    dx * dx + dy * dy < reach * reach
}

pub open spec fn bullet_hits(b: Bullet, e: Enemy) -> bool {
    overlaps(b.position, e.position, BULLET_RADIUS + ENEMY_RADIUS)
}

pub open spec fn rams(p: Player, e: Enemy) -> bool {
    overlaps(p.position, e.position, PLAYER_RADIUS + ENEMY_RADIUS)
}

/// Some bullet of `bullets` overlaps `e`.
pub open spec fn shot_down(e: Enemy, bullets: Seq<Bullet>) -> bool {
    exists|i: int| 0 <= i < bullets.len() && bullet_hits(#[trigger] bullets[i], e)
}

/// `b` overlaps some enemy of `enemies`.
pub open spec fn spent(b: Bullet, enemies: Seq<Enemy>) -> bool {
    exists|j: int| 0 <= j < enemies.len() && bullet_hits(b, #[trigger] enemies[j])
}

/// The enemies left: neither shot down nor ramming the player.
pub open spec fn enemies_left(w: World) -> Seq<Enemy> {
    w.enemies@.filter_map(
        |e: Enemy|
            if shot_down(e, w.bullets@) || rams(w.player, e) {
                None
            } else {
                Some(e)
            },
    )
}

/// The bullets left: those that touched no enemy.
pub open spec fn bullets_left(w: World) -> Seq<Bullet> {
    w.bullets@.filter_map(|b: Bullet| if spent(b, w.enemies@) { None } else { Some(b) })
}

/// The particles of an explosion at `at`: evenly spread over a full turn.
pub open spec fn explosion(at: Point) -> Seq<Particle> {
    Seq::new(
        EXPLOSION_PARTICLES as nat,
        |k: int|
            Particle {
                position: at,
                velocity: heading_velocity(k * (FULL_TURN / EXPLOSION_PARTICLES) as int, PARTICLE_SPEED as int),
                ttl_ms: PARTICLE_TTL_MS,
            },
    )
}

/// The explosions of the enemies of `es` that are shot down, in order.
pub open spec fn debris(es: Seq<Enemy>, bullets: Seq<Bullet>) -> Seq<Particle>
    decreases es.len(),
{
    if es.len() == 0 {
        Seq::empty()
    } else if shot_down(es.last(), bullets) {
        debris(es.drop_last(), bullets) + explosion(es.last().position)
    } else {
        debris(es.drop_last(), bullets)
    }
}

/// The world after collisions are resolved, field by field.
pub open spec fn collided(w: World, f: World) -> bool {
    &&& f.size == w.size
    &&& f.player == w.player
    &&& f.enemies@ == enemies_left(w)
    &&& f.bullets@ == bullets_left(w)
    &&& f.particles@ == w.particles@ + debris(w.enemies@, w.bullets@)
}

/// Whether two points of the play area lie closer than `reach`.
pub fn overlap(p: Point, q: Point, reach: i64) -> (r: bool)
    requires
        0 < reach <= 1_000_000_000,
        0 <= p.x <= MAX_EXTENT,
        0 <= p.y <= MAX_EXTENT,
        0 <= q.x <= MAX_EXTENT,
        0 <= q.y <= MAX_EXTENT,
    ensures
        r == overlaps(p, q, reach as int),
{
    let dx = p.x - q.x;
    let dy = p.y - q.y;
    if dx >= reach || dx <= -reach || dy >= reach || dy <= -reach {
        proof {
            assert(dx * dx >= reach * reach || dy * dy >= reach * reach) by (nonlinear_arith)
                requires
                    dx >= reach || dx <= -reach || dy >= reach || dy <= -reach,
                    reach > 0,
            ;
            assert(dx * dx >= 0 && dy * dy >= 0) by (nonlinear_arith);
        }
        false
    } else {
        proof {
            assert(0 <= dx * dx < 1_000_000_000_000_000_000) by (nonlinear_arith)
                requires
                    -reach < dx < reach,
                    reach <= 1_000_000_000,
            ;
            assert(0 <= dy * dy < 1_000_000_000_000_000_000) by (nonlinear_arith)
                requires
                    -reach < dy < reach,
                    reach <= 1_000_000_000,
            ;
            assert(reach * reach <= 1_000_000_000_000_000_000) by (nonlinear_arith)
                requires
                    0 < reach <= 1_000_000_000,
            ;
        }
        dx * dx + dy * dy < reach * reach
    }
}

fn any_bullet_hits(bullets: &Vec<Bullet>, e: &Enemy, size: Size) -> (r: bool)
    requires
        size.wf(),
        bullets_wf(bullets@, size),
        e.wf(size),
    ensures
        r == shot_down(*e, bullets@),
{
    let mut i: usize = 0;
    while i < bullets.len()
        invariant
            i <= bullets.len(),
            size.wf(),
            bullets_wf(bullets@, size),
            e.wf(size),
            forall|k: int| 0 <= k < i ==> !bullet_hits(#[trigger] bullets@[k], *e),
        decreases bullets.len() - i,
    {
        let b = &bullets[i];
        proof {
            assert(bullets@[i as int].wf(size));
        }
        if overlap(b.position, e.position, BULLET_RADIUS + ENEMY_RADIUS) {
            return true;
        }
        i += 1;
    }
    false
}

fn hits_any_enemy(b: &Bullet, enemies: &Vec<Enemy>, size: Size) -> (r: bool)
    requires
        size.wf(),
        enemies_wf(enemies@, size),
        b.wf(size),
    ensures
        r == spent(*b, enemies@),
{
    let mut j: usize = 0;
    while j < enemies.len()
        invariant
            j <= enemies.len(),
            size.wf(),
            enemies_wf(enemies@, size),
            b.wf(size),
            forall|k: int| 0 <= k < j ==> !bullet_hits(*b, #[trigger] enemies@[k]),
        decreases enemies.len() - j,
    {
        let e = &enemies[j];
        proof {
            assert(enemies@[j as int].wf(size));
        }
        if overlap(b.position, e.position, BULLET_RADIUS + ENEMY_RADIUS) {
            return true;
        }
        j += 1;
    }
    false
}

/// Appends the particles of an explosion at `at`.
fn explode(particles: &mut Vec<Particle>, at: Point, size: Size)
    requires
        size.wf(),
        size.contains(at),
        particles_wf(old(particles)@, size),
    ensures
        final(particles)@ == old(particles)@ + explosion(at),
        particles_wf(final(particles)@, size),
{
    let ghost start = particles@;
    let mut k: u32 = 0;
    while k < EXPLOSION_PARTICLES
        invariant
            k <= EXPLOSION_PARTICLES,
            size.wf(),
            size.contains(at),
            particles@ =~= start + explosion(at).take(k as int),
            particles_wf(particles@, size),
        decreases EXPLOSION_PARTICLES - k,
    {
        proof {
            assert(FULL_TURN / EXPLOSION_PARTICLES == 36_000);
            assert(k * 36_000 < 360_000) by (nonlinear_arith)
                requires
                    k < 10,
            ;
        }
        let velocity = velocity_toward(k * (FULL_TURN / EXPLOSION_PARTICLES), PARTICLE_SPEED);
        particles.push(Particle { position: at, velocity, ttl_ms: PARTICLE_TTL_MS });
        proof {
            assert(explosion(at).take(k + 1) =~= explosion(at).take(k as int).push(explosion(at)[k as int]));
        }
        k += 1;
    }
    proof {
        assert(explosion(at).take(EXPLOSION_PARTICLES as int) =~= explosion(at));
    }
}

pub struct CollisionsController;

impl CollisionsController {
    /// Resolves every overlap of the world at once: detection reads the
    /// collections as they were before any removal.
    pub fn handle_collisions(state: &mut GameState)
        requires
            old(state).world.wf(),
        ensures
            final(state).world.wf(),
            collided(old(state).world, final(state).world),
    {
        let size = state.world.size;
        let player = state.world.player;
        let ghost w = state.world;
        let mut enemies: Vec<Enemy> = Vec::new();
        let mut particles: Vec<Particle> = state.world.particles.clone();
        let mut j: usize = 0;
        while j < state.world.enemies.len()
            invariant
                state.world == w,
                w.wf(),
                size == w.size,
                player == w.player,
                j <= w.enemies@.len(),
                enemies@ == w.enemies@.subrange(0, j as int).filter_map(
                    |e: Enemy|
                        if shot_down(e, w.bullets@) || rams(w.player, e) {
                            None
                        } else {
                            Some(e)
                        },
                ),
                enemies_wf(enemies@, size),
                particles@ == w.particles@ + debris(w.enemies@.subrange(0, j as int), w.bullets@),
                particles_wf(particles@, size),
            decreases w.enemies@.len() - j,
        {
            let e = state.world.enemies[j];
            proof {
                assert(w.enemies@[j as int].wf(size));
                let t = w.enemies@.subrange(0, j + 1);
                assert(t.drop_last() =~= w.enemies@.subrange(0, j as int));
                assert(t.last() == e);
            }
            let hit = any_bullet_hits(&state.world.bullets, &e, size);
            if hit {
                explode(&mut particles, e.position, size);
                proof {
                    let d = debris(w.enemies@.subrange(0, j as int), w.bullets@);
                    assert(w.particles@ + d + explosion(e.position) =~= w.particles@ + (d + explosion(e.position)));
                }
            }
            let rammed = overlap(player.position, e.position, PLAYER_RADIUS + ENEMY_RADIUS);
            if !hit && !rammed {
                proof {
                    let rest = enemies@;
                    assert(rest + seq![e] =~= rest.push(e));
                }
                enemies.push(e);
            }
            j += 1;
        }
        proof {
            assert(w.enemies@.subrange(0, w.enemies@.len() as int) =~= w.enemies@);
        }
        let mut bullets: Vec<Bullet> = Vec::new();
        let mut i: usize = 0;
        while i < state.world.bullets.len()
            invariant
                state.world == w,
                w.wf(),
                size == w.size,
                i <= w.bullets@.len(),
                bullets@ == w.bullets@.subrange(0, i as int).filter_map(
                    |b: Bullet| if spent(b, w.enemies@) { None } else { Some(b) },
                ),
                bullets_wf(bullets@, size),
            decreases w.bullets@.len() - i,
        {
            let b = state.world.bullets[i];
            proof {
                assert(w.bullets@[i as int].wf(size));
                let t = w.bullets@.subrange(0, i + 1);
                assert(t.drop_last() =~= w.bullets@.subrange(0, i as int));
                assert(t.last() == b);
            }
            if !hits_any_enemy(&b, &state.world.enemies, size) {
                proof {
                    let rest = bullets@;
                    assert(rest + seq![b] =~= rest.push(b));
                }
                bullets.push(b);
            }
            i += 1;
        }
        proof {
            assert(w.bullets@.subrange(0, w.bullets@.len() as int) =~= w.bullets@);
        }
        state.world.enemies = enemies;
        state.world.bullets = bullets;
        state.world.particles = particles;
    }
}

} // verus!
