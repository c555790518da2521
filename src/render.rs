//! What the renderer is handed: one draw command per entity.
use vstd::prelude::*;
use crate::models::{Bullet, Enemy, Particle, Player};
use crate::world::World;

verus! {

/// One thing to draw. A particle carries the milliseconds it has left, which
/// set how large it is drawn; the player carries its heading.
#[derive(Clone, Copy, Debug, PartialEq, Eq, Structural)]
pub enum DrawCommand {
    Particle { x: i64, y: i64, ttl_ms: u64 },
    Bullet { x: i64, y: i64 },
    Enemy { x: i64, y: i64 },
    Player { x: i64, y: i64, heading: u32 },
}

pub open spec fn particle_command(q: Particle) -> DrawCommand {
    DrawCommand::Particle { x: q.position.x, y: q.position.y, ttl_ms: q.ttl_ms }
}

pub open spec fn bullet_command(b: Bullet) -> DrawCommand {
    DrawCommand::Bullet { x: b.position.x, y: b.position.y }
}

pub open spec fn enemy_command(e: Enemy) -> DrawCommand {
    DrawCommand::Enemy { x: e.position.x, y: e.position.y }
}

pub open spec fn player_command(p: Player) -> DrawCommand {
    DrawCommand::Player { x: p.position.x, y: p.position.y, heading: p.heading }
}

/// The particles, then the bullets, then the enemies, each in the order of
/// their collection, and last the player.
pub open spec fn snapshot(w: World) -> Seq<DrawCommand> {
    w.particles@.map_values(|q: Particle| particle_command(q))
        + w.bullets@.map_values(|b: Bullet| bullet_command(b))
        + w.enemies@.map_values(|e: Enemy| enemy_command(e))
        + seq![player_command(w.player)]
}

/// The draw commands of the world, without changing it.
pub fn render_snapshot(w: &World) -> (r: Vec<DrawCommand>)
    ensures
        r@ == snapshot(*w),
{
    let mut out: Vec<DrawCommand> = Vec::new();
    let mut i: usize = 0;
    while i < w.particles.len()
        invariant
            i <= w.particles@.len(),
            out@ =~= w.particles@.subrange(0, i as int).map_values(|q: Particle| particle_command(q)),
        decreases w.particles@.len() - i,
    {
        let q = &w.particles[i];
        out.push(DrawCommand::Particle { x: q.position.x, y: q.position.y, ttl_ms: q.ttl_ms });
        i += 1;
    }
    let ghost first = out@;
    assert(first =~= w.particles@.map_values(|q: Particle| particle_command(q)));
    let mut i: usize = 0;
    while i < w.bullets.len()
        invariant
            i <= w.bullets@.len(),
            out@ =~= first + w.bullets@.subrange(0, i as int).map_values(|b: Bullet| bullet_command(b)),
        decreases w.bullets@.len() - i,
    {
        let b = &w.bullets[i];
        out.push(DrawCommand::Bullet { x: b.position.x, y: b.position.y });
        i += 1;
    }
    let ghost second = out@;
    assert(second =~= first + w.bullets@.map_values(|b: Bullet| bullet_command(b)));
    let mut i: usize = 0;
    while i < w.enemies.len()
        invariant
            i <= w.enemies@.len(),
            out@ =~= second + w.enemies@.subrange(0, i as int).map_values(|e: Enemy| enemy_command(e)),
        decreases w.enemies@.len() - i,
    {
        let e = &w.enemies[i];
        out.push(DrawCommand::Enemy { x: e.position.x, y: e.position.y });
        i += 1;
    }
    assert(w.enemies@.subrange(0, w.enemies@.len() as int) =~= w.enemies@);
    let p = &w.player;
    out.push(DrawCommand::Player { x: p.position.x, y: p.position.y, heading: p.heading });
    assert(out@ =~= snapshot(*w));
    out
}

} // verus!
