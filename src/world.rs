//! The world: the play area and every entity in it.
use vstd::prelude::*;
use crate::geometry::{Point, Size};
use crate::models::{Bullet, Enemy, Particle, Player};
use crate::time::PLAYER_SPEED;

verus! {

/// The play area, the one player, and the enemies, bullets and particles in
/// the order they appeared.
#[derive(Clone, Debug, PartialEq, Eq)]
pub struct World {
    pub size: Size,
    pub player: Player,
    pub enemies: Vec<Enemy>,
    pub bullets: Vec<Bullet>,
    pub particles: Vec<Particle>,
}

/// The whole state the update engine works on.
#[derive(Clone, Debug, PartialEq, Eq)]
pub struct GameState {
    pub world: World,
}

pub open spec fn enemies_wf(s: Seq<Enemy>, size: Size) -> bool {
    forall|i: int| 0 <= i < s.len() ==> (#[trigger] s[i]).wf(size)
}

pub open spec fn bullets_wf(s: Seq<Bullet>, size: Size) -> bool {
    forall|i: int| 0 <= i < s.len() ==> (#[trigger] s[i]).wf(size)
}

pub open spec fn particles_wf(s: Seq<Particle>, size: Size) -> bool {
    forall|i: int| 0 <= i < s.len() ==> (#[trigger] s[i]).wf(size)
}

/// The world at the start: the player at the centre of the play area,
/// facing along the x axis at cruising speed, ready to fire, and nothing else.
pub open spec fn is_fresh(w: World, size: Size) -> bool {
    &&& w.size == size
    &&& w.player == (Player {
        position: Point { x: (size.width / 2) as i64, y: (size.height / 2) as i64 },
        heading: 0,
        speed: PLAYER_SPEED,
        cooldown_ms: 0,
    })
    &&& w.enemies@.len() == 0
    &&& w.bullets@.len() == 0
    &&& w.particles@.len() == 0
}

/// Two worlds that hold the same play area and the same entities in the
/// same order.
pub open spec fn same_contents(a: World, b: World) -> bool {
    &&& a.size == b.size
    &&& a.player == b.player
    &&& a.enemies@ == b.enemies@
    &&& a.bullets@ == b.bullets@
    &&& a.particles@ == b.particles@
}

impl World {
    /// An empty world with the player at the centre, facing along the x axis.
    pub fn new(size: Size) -> (r: World)
        requires
            size.wf(),
        ensures
            r.wf(),
            is_fresh(r, size),
    {
        let centre = Point::new(size.width / 2, size.height / 2);
        World {
            size,
            player: Player::new(centre, 0),
            enemies: Vec::new(),
            bullets: Vec::new(),
            particles: Vec::new(),
        }
    }

    /// Every entity lies in the play area and moves at a bounded speed.
    pub open spec fn wf(&self) -> bool {
        &&& self.size.wf()
        &&& self.player.wf(self.size)
        &&& enemies_wf(self.enemies@, self.size)
        &&& bullets_wf(self.bullets@, self.size)
        &&& particles_wf(self.particles@, self.size)
    }
}

impl GameState {
    pub fn new(size: Size) -> (r: GameState)
        requires
            size.wf(),
        ensures
            r.world.wf(),
            is_fresh(r.world, size),
    {
        GameState { world: World::new(size) }
    }
}

} // verus!
