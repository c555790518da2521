//! The entities of the world and how each one moves through a time step.
use vstd::prelude::*;
use crate::geometry::{moved, move_point, Point, Size, FULL_TURN, MAX_STEP_MS};
use crate::time::{BOOST_SPEED, PLAYER_SPEED};

verus! {

/// The ship the player steers. Its heading is in millidegrees and its speed,
/// along the heading, in pixels per second; `cooldown_ms` is what is left of
/// the pause between two shots.
#[derive(Clone, Copy, Debug, PartialEq, Eq, Structural)]
pub struct Player {
    pub position: Point,
    pub heading: u32,
    pub speed: i64,
    pub cooldown_ms: u64,
}

/// An enemy drifting at a constant velocity.
#[derive(Clone, Copy, Debug, PartialEq, Eq, Structural)]
pub struct Enemy {
    pub position: Point,
    pub velocity: Point,
}

/// A bullet, with the milliseconds it has left to live.
#[derive(Clone, Copy, Debug, PartialEq, Eq, Structural)]
pub struct Bullet {
    pub position: Point,
    pub velocity: Point,
    pub ttl_ms: u64,
}

/// A fragment of an explosion, with the milliseconds it has left to live;
/// the time left also sets how large it is drawn. Like bullets and enemies,
/// a particle that leaves the play area is dropped: nothing off screen is
/// drawn, and every entity keeps coordinates inside the play area.
#[derive(Clone, Copy, Debug, PartialEq, Eq, Structural)]
pub struct Particle {
    pub position: Point,
    pub velocity: Point,
    pub ttl_ms: u64,
}

impl Player {
    pub fn new(position: Point, heading: u32) -> (r: Player)
        ensures
            r.position == position,
            r.heading == heading,
            r.speed == PLAYER_SPEED,
            r.cooldown_ms == 0,
    {
        Player { position, heading, speed: PLAYER_SPEED, cooldown_ms: 0 }
    }

    pub open spec fn wf(self, size: Size) -> bool {
        &&& size.spec_contains(self.position)
        &&& self.heading < FULL_TURN
        &&& PLAYER_SPEED <= self.speed <= BOOST_SPEED
    }
}

impl Enemy {
    pub fn new(position: Point, velocity: Point) -> (r: Enemy)
        ensures
            r.position == position,
            r.velocity == velocity,
    {
        Enemy { position, velocity }
    }

    pub open spec fn wf(self, size: Size) -> bool {
        size.spec_contains(self.position) && self.velocity.is_bounded_speed()
    }

    /// The enemy after `dt` milliseconds, if it is still inside the play area.
    pub open spec fn spec_step(self, size: Size, dt: int) -> Option<Enemy> {
        let e = Enemy { position: moved(self.position, self.velocity, dt), ..self };
        if size.spec_contains(e.position) {
            Some(e)
        } else {
            None
        }
    }

    pub fn step(&self, size: Size, dt: u64) -> (r: Option<Enemy>)
        requires
            size.wf(),
            self.wf(size),
            dt <= MAX_STEP_MS,
        ensures
            r == self.spec_step(size, dt as int),
            r matches Some(e) ==> e.wf(size),
    {
        let e = Enemy { position: move_point(self.position, self.velocity, dt, size), ..*self };
        if size.contains(e.position) {
            Some(e)
        } else {
            None
        }
    }
}

impl Bullet {
    pub fn new(position: Point, velocity: Point, ttl_ms: u64) -> (r: Bullet)
        ensures
            r.position == position,
            r.velocity == velocity,
            r.ttl_ms == ttl_ms,
    {
        Bullet { position, velocity, ttl_ms }
    }

    pub open spec fn wf(self, size: Size) -> bool {
        size.spec_contains(self.position) && self.velocity.is_bounded_speed()
    }

    /// The bullet after `dt` milliseconds, if it outlives them and is still
    /// inside the play area.
    pub open spec fn spec_step(self, size: Size, dt: int) -> Option<Bullet> {
        let b = Bullet {
            position: moved(self.position, self.velocity, dt),
            ttl_ms: (self.ttl_ms - dt) as u64,
            ..self
        };
        if self.ttl_ms > dt && size.spec_contains(b.position) {
            Some(b)
        } else {
            None
        }
    }

    pub fn step(&self, size: Size, dt: u64) -> (r: Option<Bullet>)
        requires
            size.wf(),
            self.wf(size),
            dt <= MAX_STEP_MS,
        ensures
            r == self.spec_step(size, dt as int),
            r matches Some(b) ==> b.wf(size),
    {
        if self.ttl_ms > dt {
            let b = Bullet {
                position: move_point(self.position, self.velocity, dt, size),
                ttl_ms: self.ttl_ms - dt,
                ..*self
            };
            if size.contains(b.position) {
                return Some(b);
            }
        }
        None
    }
}

impl Particle {
    pub fn new(position: Point, velocity: Point, ttl_ms: u64) -> (r: Particle)
        ensures
            r.position == position,
            r.velocity == velocity,
            r.ttl_ms == ttl_ms,
    {
        Particle { position, velocity, ttl_ms }
    }

    pub open spec fn wf(self, size: Size) -> bool {
        size.spec_contains(self.position) && self.velocity.is_bounded_speed()
    }

    /// The particle after `dt` milliseconds, if it outlives them and is still
    /// inside the play area.
    pub open spec fn spec_step(self, size: Size, dt: int) -> Option<Particle> {
        let q = Particle {
            position: moved(self.position, self.velocity, dt),
            ttl_ms: (self.ttl_ms - dt) as u64,
            ..self
        };
        if self.ttl_ms > dt && size.spec_contains(q.position) {
            Some(q)
        } else {
            None
        }
    }

    pub fn step(&self, size: Size, dt: u64) -> (r: Option<Particle>)
        requires
            size.wf(),
            self.wf(size),
            dt <= MAX_STEP_MS,
        ensures
            r == self.spec_step(size, dt as int),
            r matches Some(q) ==> q.wf(size),
    {
        if self.ttl_ms > dt {
            let q = Particle {
                position: move_point(self.position, self.velocity, dt, size),
                ttl_ms: self.ttl_ms - dt,
                ..*self
            };
            if size.contains(q.position) {
                return Some(q);
            }
        }
        None
    }
}

} // verus!
