//! What holds of the update engine across calls and for all inputs.
use vstd::prelude::*;
use crate::collisions::{
    bullet_hits, collided, debris, explosion, shot_down, spent, EXPLOSION_PARTICLES,
};
use crate::geometry::{heading_velocity, Size};
use crate::models::{Bullet, Enemy, Player};
use crate::render::snapshot;
use crate::game::{frame, updated};
use crate::rng::PcgModel;
use crate::time::{
    bullets_moved, enemies_after, fires, particles_after, player_after, player_moved, shot, speed_after, spawn_due, stepped, turned,
    Actions, BULLET_TTL_MS, SHOT_INTERVAL_MS,
};
use crate::world::{same_contents, World};

verus! {

/// Replaying a step reproduces it: from worlds with the same contents, with
/// the same actions, the same elapsed time and the same values drawn from the
/// generator, the time step and then collision handling end in worlds with
/// the same contents.
pub proof fn lemma_replay_is_identical(
    w1: World,
    w2: World,
    m1: World,
    m2: World,
    f1: World,
    f2: World,
    a: Actions,
    dt: int,
    roll: u32,
    spot: u64,
)
    requires
        same_contents(w1, w2),
        stepped(w1, m1, a, dt, roll, spot),
        stepped(w2, m2, a, dt, roll, spot),
        collided(m1, f1),
        collided(m2, f2),
    ensures
        same_contents(m1, m2),
        same_contents(f1, f2),
{
}

/// Runs from the same seed repeat exactly: worlds with the same contents,
/// updated with the same actions and elapsed time by generators in the same
/// state, end with the same contents (and the generators, by the `ensures`
/// of the update, in the same state again).
pub proof fn lemma_same_generator_same_update(
    w1: World,
    w2: World,
    f1: World,
    f2: World,
    a: Actions,
    dt: int,
    g: PcgModel,
)
    requires
        same_contents(w1, w2),
        updated(w1, f1, a, dt, g),
        updated(w2, f2, a, dt, g),
    ensures
        same_contents(f1, f2),
{
    let m1 = choose|mid: World|
        #[trigger] stepped(w1, mid, a, dt, crate::time::drawn_roll(g), crate::time::drawn_spot_if_spawning(g, dt))
            && #[trigger] collided(mid, f1);
    let m2 = choose|mid: World|
        #[trigger] stepped(w2, mid, a, dt, crate::time::drawn_roll(g), crate::time::drawn_spot_if_spawning(g, dt))
            && #[trigger] collided(mid, f2);
    lemma_replay_is_identical(
        w1,
        w2,
        m1,
        m2,
        f1,
        f2,
        a,
        dt,
        crate::time::drawn_roll(g),
        crate::time::drawn_spot_if_spawning(g, dt),
    );
}

/// No time, no spawn: a spawn roll never succeeds over a step of zero
/// milliseconds, whatever was drawn.
pub proof fn lemma_no_spawn_without_time(roll: u32)
    ensures
        !spawn_due(roll, 0),
{
}

/// Where the player's unwrapped x coordinate would land after a step.
pub open spec fn unwrapped_x(p: Player, a: Actions, dt: int) -> int {
    p.position.x + heading_velocity(
        turned(p.heading as int, a, dt),
        speed_after(p.speed as int, a, dt),
    ).x * dt
}

/// The play area wraps around: a player that steps past the right edge,
/// by less than a whole width, reappears exactly one width to the left.
pub proof fn lemma_wraps_past_right_edge(p: Player, size: Size, a: Actions, dt: int)
    requires
        size.wf(),
        size.width <= unwrapped_x(p, a, dt) < 2 * size.width,
    ensures
        player_after(p, size, a, dt).position.x == unwrapped_x(p, a, dt) - size.width,
{
    let x = unwrapped_x(p, a, dt);
    let w = size.width as int;
    vstd::arithmetic::div_mod::lemma_mod_add_multiples_vanish(x - w, w);
    vstd::arithmetic::div_mod::lemma_small_mod((x - w) as nat, w as nat);
    assert(w + (x - w) == x);
}

proof fn lemma_debris_holds_explosion(es: Seq<Enemy>, bullets: Seq<Bullet>, j: int)
    requires
        0 <= j < es.len(),
        shot_down(es[j], bullets),
    ensures
        debris(es, bullets).len() >= EXPLOSION_PARTICLES,
    decreases es.len(),
{
    if j == es.len() - 1 {
        assert(explosion(es[j].position).len() == EXPLOSION_PARTICLES);
    } else {
        let rest = es.drop_last();
        assert(rest[j] == es[j]);
        lemma_debris_holds_explosion(rest, bullets, j);
    }
}

/// A bullet and an enemy at the same place destroy each other: after
/// collision handling neither is left, and the explosion adds particles.
pub proof fn lemma_shot_enemy_destroyed(w: World, f: World, i: int, j: int)
    requires
        0 <= i < w.bullets@.len(),
        0 <= j < w.enemies@.len(),
        w.bullets@[i].position == w.enemies@[j].position,
        collided(w, f),
    ensures
        !f.bullets@.contains(w.bullets@[i]),
        !f.enemies@.contains(w.enemies@[j]),
        f.particles@.len() > w.particles@.len(),
{
    let b = w.bullets@[i];
    let e = w.enemies@[j];
    assert(bullet_hits(b, e));
    assert(spent(b, w.enemies@));
    assert(shot_down(e, w.bullets@));
    if f.bullets@.contains(b) {
        w.bullets@.lemma_filter_map_contains(
            |x: Bullet| if spent(x, w.enemies@) { None } else { Some(x) },
            b,
        );
    }
    if f.enemies@.contains(e) {
        w.enemies@.lemma_filter_map_contains(
            |x: Enemy|
                if shot_down(x, w.bullets@) || crate::collisions::rams(w.player, x) {
                    None
                } else {
                    Some(x)
                },
            e,
        );
    }
    lemma_debris_holds_explosion(w.enemies@, w.bullets@, j);
}

/// Drawing reads the world and nothing else: worlds with the same contents
/// give the same draw commands, so drawing twice without an update in
/// between gives the same output twice.
pub proof fn lemma_render_is_repeatable(w1: World, w2: World)
    requires
        same_contents(w1, w2),
    ensures
        snapshot(w1) == snapshot(w2),
{
}

/// Bullets paced by the player's fire: each is alive and would have died
/// a full shot interval before a bullet fired when `cooldown` runs out, and
/// each bullet fired later lives at least a shot interval longer.
pub open spec fn fire_schedule(s: Seq<Bullet>, cooldown: int) -> bool {
    &&& forall|i: int|
        0 <= i < s.len() ==> 0 < (#[trigger] s[i]).ttl_ms && s[i].ttl_ms + SHOT_INTERVAL_MS
            <= BULLET_TTL_MS + cooldown
    &&& forall|i: int, j: int|
        0 <= i < j < s.len() ==> (#[trigger] s[i]).ttl_ms + SHOT_INTERVAL_MS <= (#[trigger] s[j]).ttl_ms
}

/// A world whose bullets all came from the player's fire.
pub open spec fn fire_paced(w: World) -> bool {
    w.player.cooldown_ms <= SHOT_INTERVAL_MS && fire_schedule(w.bullets@, w.player.cooldown_ms as int)
}

/// Keeping some bullets, each aged by `d` milliseconds, keeps the schedule.
proof fn lemma_schedule_kept(
    s: Seq<Bullet>,
    f: spec_fn(Bullet) -> Option<Bullet>,
    d: int,
    cooldown: int,
)
    requires
        fire_schedule(s, cooldown),
        0 <= d,
        forall|x: Bullet|
            (#[trigger] f(x)) is Some ==> f(x)->Some_0.ttl_ms + d == x.ttl_ms && (d == 0 || 0
                < f(x)->Some_0.ttl_ms),
    ensures
        fire_schedule(s.filter_map(f), cooldown - d),
    decreases s.len(),
{
    if s.len() > 0 {
        let r = s.drop_last();
        assert forall|i: int, j: int| 0 <= i < j < r.len() implies (#[trigger] r[i]).ttl_ms
            + SHOT_INTERVAL_MS <= (#[trigger] r[j]).ttl_ms by {
            assert(r[i] == s[i] && r[j] == s[j]);
        }
        assert forall|i: int| 0 <= i < r.len() implies 0 < (#[trigger] r[i]).ttl_ms && r[i].ttl_ms
            + SHOT_INTERVAL_MS <= BULLET_TTL_MS + cooldown by {
            assert(r[i] == s[i]);
        }
        lemma_schedule_kept(r, f, d, cooldown);
        let last = s.last();
        let kept = r.filter_map(f);
        if f(last) is Some {
            let y = f(last)->Some_0;
            let out = s.filter_map(f);
            assert(s[s.len() - 1] == last);
            assert(out == kept + seq![y]);
            assert forall|i: int| 0 <= i < kept.len() implies (#[trigger] kept[i]).ttl_ms
                + SHOT_INTERVAL_MS <= y.ttl_ms by {
                assert(kept.contains(kept[i]));
                r.lemma_filter_map_contains(f, kept[i]);
                let t = choose|t: Bullet| #[trigger] r.contains(t) && f(t) == Some(kept[i]);
                let k = choose|k: int| 0 <= k < r.len() && r[k] == t;
                assert(s[k] == t);
                assert(s[k].ttl_ms + SHOT_INTERVAL_MS <= s[s.len() - 1].ttl_ms);
            }
            assert forall|i: int, j: int| 0 <= i < j < out.len() implies (#[trigger] out[i]).ttl_ms
                + SHOT_INTERVAL_MS <= (#[trigger] out[j]).ttl_ms by {
                assert(out[i] == kept[i]);
                if j < out.len() - 1 {
                    assert(out[j] == kept[j]);
                } else {
                    assert(out[j] == y);
                }
            }
            assert forall|i: int| 0 <= i < out.len() implies 0 < (#[trigger] out[i]).ttl_ms
                && out[i].ttl_ms + SHOT_INTERVAL_MS <= BULLET_TTL_MS + cooldown - d by {
                if i < out.len() - 1 {
                    assert(out[i] == kept[i]);
                } else {
                    assert(out[i] == y);
                }
            }
        }
    }
}

/// Along a schedule, the `k`-th bullet outlives the first by `k` shot intervals.
proof fn lemma_schedule_spread(s: Seq<Bullet>, cooldown: int, k: int)
    requires
        fire_schedule(s, cooldown),
        0 <= k < s.len(),
    ensures
        s[k].ttl_ms >= s[0].ttl_ms + k * SHOT_INTERVAL_MS,
    decreases k,
{
    if k > 0 {
        lemma_schedule_spread(s, cooldown, k - 1);
        assert(s[k - 1].ttl_ms + SHOT_INTERVAL_MS <= s[k].ttl_ms);
    }
}

/// Bullets cannot pile up: while they are paced by the player's fire, at
/// most `BULLET_TTL_MS / SHOT_INTERVAL_MS` of them are alive.
pub proof fn lemma_paced_bullets_bounded(w: World)
    requires
        fire_paced(w),
    ensures
        w.bullets@.len() <= BULLET_TTL_MS / SHOT_INTERVAL_MS,
{
    let s = w.bullets@;
    if s.len() > 0 {
        let n = s.len() - 1;
        lemma_schedule_spread(s, w.player.cooldown_ms as int, n);
        assert(0 < s[0].ttl_ms);
        assert(s[n].ttl_ms + SHOT_INTERVAL_MS <= BULLET_TTL_MS + w.player.cooldown_ms);
        assert(n * 10 < 2000);
    }
}

/// A fresh world, with no bullets and the player ready to fire, is paced.
pub proof fn lemma_fresh_world_paced(w: World)
    requires
        w.bullets@.len() == 0,
        w.player.cooldown_ms == 0,
    ensures
        fire_paced(w),
{
}

/// A time step keeps the bullets paced by the player's fire.
pub proof fn lemma_step_keeps_pace(w: World, f: World, a: Actions, dt: int, roll: u32, spot: u64)
    requires
        fire_paced(w),
        0 <= dt,
        stepped(w, f, a, dt, roll, spot),
    ensures
        fire_paced(f),
{
    let cd = w.player.cooldown_ms as int;
    let moved = bullets_moved(w.bullets@, w.size, dt);
    lemma_schedule_kept(w.bullets@, |b: Bullet| b.spec_step(w.size, dt), dt, cd);
    assert(fire_schedule(moved, cd - dt));
    let m = player_moved(w.player, w.size, a, dt);
    if fires(m, a) {
        let out = moved.push(shot(m));
        assert(f.bullets@ == out);
        assert forall|i: int| 0 <= i < out.len() implies 0 < (#[trigger] out[i]).ttl_ms
            && out[i].ttl_ms + SHOT_INTERVAL_MS <= BULLET_TTL_MS + SHOT_INTERVAL_MS by {
            if i < moved.len() {
                assert(out[i] == moved[i]);
            }
        }
        assert forall|i: int, j: int| 0 <= i < j < out.len() implies (#[trigger] out[i]).ttl_ms
            + SHOT_INTERVAL_MS <= (#[trigger] out[j]).ttl_ms by {
            assert(out[i] == moved[i]);
            if j < moved.len() {
                assert(out[j] == moved[j]);
            }
        }
    }
}

/// Collision handling keeps the bullets paced by the player's fire.
pub proof fn lemma_collisions_keep_pace(w: World, f: World)
    requires
        fire_paced(w),
        collided(w, f),
    ensures
        fire_paced(f),
{
    lemma_schedule_kept(
        w.bullets@,
        |b: Bullet| if spent(b, w.enemies@) { None } else { Some(b) },
        0,
        w.player.cooldown_ms as int,
    );
}

/// However long the fire is held, updates never let the bullets pile up:
/// an update of a paced world leaves it paced, with at most
/// `BULLET_TTL_MS / SHOT_INTERVAL_MS` bullets alive.
pub proof fn lemma_update_keeps_bullets_bounded(w: World, f: World, a: Actions, dt: int)
    requires
        fire_paced(w),
        0 < dt,
        frame(w, f, a, dt),
    ensures
        fire_paced(f),
        f.bullets@.len() <= BULLET_TTL_MS / SHOT_INTERVAL_MS,
{
    let (roll, spot, mid) = choose|roll: u32, spot: u64, mid: World|
        #[trigger] stepped(w, mid, a, dt, roll, spot) && #[trigger] collided(mid, f);
    lemma_step_keeps_pace(w, mid, a, dt, roll, spot);
    lemma_collisions_keep_pace(mid, f);
    lemma_paced_bullets_bounded(f);
}

/// Expiry fires on every update: once some time has passed, every bullet
/// left in the world still has time to live, so each bullet whose time ran
/// out during the step is gone.
pub proof fn lemma_update_drops_expired_bullets(w: World, f: World, a: Actions, dt: int)
    requires
        0 < dt,
        frame(w, f, a, dt),
    ensures
        forall|i: int| 0 <= i < f.bullets@.len() ==> 0 < (#[trigger] f.bullets@[i]).ttl_ms,
{
    let (roll, spot, mid) = choose|roll: u32, spot: u64, mid: World|
        #[trigger] stepped(w, mid, a, dt, roll, spot) && #[trigger] collided(mid, f);
    let moved = bullets_moved(w.bullets@, w.size, dt);
    let step = |b: Bullet| b.spec_step(w.size, dt);
    let keep = |b: Bullet| if spent(b, mid.enemies@) { None } else { Some(b) };
    assert forall|i: int| 0 <= i < f.bullets@.len() implies 0 < (#[trigger] f.bullets@[i]).ttl_ms by {
        let y = f.bullets@[i];
        assert(mid.bullets@.filter_map(keep).contains(y));
        mid.bullets@.lemma_filter_map_contains(keep, y);
        let t = choose|t: Bullet| #[trigger] mid.bullets@.contains(t) && keep(t) == Some(y);
        assert(t == y);
        if moved.contains(y) {
            w.bullets@.lemma_filter_map_contains(step, y);
        } else {
            let k = choose|k: int| 0 <= k < mid.bullets@.len() && mid.bullets@[k] == y;
            if k < moved.len() {
                assert(moved[k] == mid.bullets@[k]);
            }
        }
    }
}

proof fn lemma_filter_map_keeps<A, B>(s: Seq<A>, f: spec_fn(A) -> Option<B>, i: int)
    requires
        0 <= i < s.len(),
        f(s[i]) is Some,
    ensures
        s.filter_map(f).contains(f(s[i])->Some_0),
    decreases s.len(),
{
    let r = s.drop_last();
    let y = f(s[i])->Some_0;
    if i == s.len() - 1 {
        let out = s.filter_map(f);
        assert(out == r.filter_map(f) + seq![y]);
        assert(out[out.len() - 1] == y);
    } else {
        assert(r[i] == s[i]);
        lemma_filter_map_keeps(r, f, i);
        let k = choose|k: int| 0 <= k < r.filter_map(f).len() && r.filter_map(f)[k] == y;
        if f(s.last()) is Some {
            let out = s.filter_map(f);
            assert(out == r.filter_map(f) + seq![f(s.last())->Some_0]);
            assert(out[k] == y);
        }
    }
}

/// A bullet and an enemy that start at one place and move together destroy
/// each other within the update, as long as the bullet outlives the step and
/// both stay in the play area: after it, neither is left, and the world has
/// more particles than the step alone would have left.
pub proof fn lemma_update_destroys_meeting_pair(w: World, f: World, a: Actions, dt: int, i: int, j: int)
    requires
        0 < dt,
        frame(w, f, a, dt),
        0 <= i < w.bullets@.len(),
        0 <= j < w.enemies@.len(),
        w.bullets@[i].position == w.enemies@[j].position,
        w.bullets@[i].velocity == w.enemies@[j].velocity,
        w.bullets@[i].spec_step(w.size, dt) is Some,
    ensures
        !f.bullets@.contains(w.bullets@[i].spec_step(w.size, dt)->Some_0),
        !f.enemies@.contains(w.enemies@[j].spec_step(w.size, dt)->Some_0),
        f.particles@.len() > particles_after(w.particles@, w.size, dt).len(),
{
    let (roll, spot, mid) = choose|roll: u32, spot: u64, mid: World|
        #[trigger] stepped(w, mid, a, dt, roll, spot) && #[trigger] collided(mid, f);
    let b = w.bullets@[i].spec_step(w.size, dt)->Some_0;
    let e = w.enemies@[j].spec_step(w.size, dt)->Some_0;
    assert(w.enemies@[j].spec_step(w.size, dt) is Some);
    let step_b = |x: Bullet| x.spec_step(w.size, dt);
    let step_e = |x: Enemy| x.spec_step(w.size, dt);
    lemma_filter_map_keeps(w.bullets@, step_b, i);
    lemma_filter_map_keeps(w.enemies@, step_e, j);
    let moved_b = bullets_moved(w.bullets@, w.size, dt);
    let moved_e = enemies_after(w.enemies@, w.size, dt);
    let bi = choose|k: int| 0 <= k < moved_b.len() && moved_b[k] == b;
    let ej = choose|k: int| 0 <= k < moved_e.len() && moved_e[k] == e;
    assert(mid.bullets@[bi] == b);
    assert(mid.enemies@[ej] == e);
    lemma_shot_enemy_destroyed(mid, f, bi, ej);
}

} // verus!
