//! The game context: the world, the player's current actions and the time
//! controller, driven by input toggles, updates and draws.
use vstd::prelude::*;
use crate::collisions::{collided, CollisionsController};
use crate::geometry::{Size, MAX_STEP_MS};
use crate::render::{render_snapshot, snapshot, DrawCommand};
use crate::rng::PcgModel;
use crate::time::{
    drawn_roll, drawn_spot_if_spawning, generator_after, stepped, Actions, TimeController,
};
use crate::world::{is_fresh, GameState, World};

verus! {

/// Everything one running game owns.
pub struct Game {
    pub state: GameState,
    pub actions: Actions,
    pub time_controller: TimeController,
}

/// What one update of `dt` milliseconds does when some time passes, for some
/// spawn roll and spot: a time step, then collision handling.
pub open spec fn frame(w: World, f: World, a: Actions, dt: int) -> bool {
    exists|roll: u32, spot: u64, mid: World|
        #[trigger] stepped(w, mid, a, dt, roll, spot) && #[trigger] collided(mid, f)
}

/// What one update of `dt` milliseconds does when some time passes, with
/// the generator at `g`: a time step with the roll and spot drawn from `g`,
/// then collision handling.
pub open spec fn updated(w: World, f: World, a: Actions, dt: int, g: PcgModel) -> bool {
    exists|mid: World|
        #[trigger] stepped(w, mid, a, dt, drawn_roll(g), drawn_spot_if_spawning(g, dt))
            && #[trigger] collided(mid, f)
}

impl Game {
    /// A fresh game on a play area of `size`, with the generator seeded by
    /// `seed` and `stream`.
    pub fn new(size: Size, seed: u64, stream: u64) -> (r: Game)
        requires
            size.wf(),
        ensures
            r.wf(),
            is_fresh(r.state.world, size),
            r.actions == (Actions { shoot: false, boost: false, rotate_left: false, rotate_right: false }),
            r.time_controller.generator() == (PcgModel { state: seed, inc: stream }),
    {
        Game {
            state: GameState::new(size),
            actions: Actions::new(),
            time_controller: TimeController::new(seed, stream),
        }
    }

    pub open spec fn wf(&self) -> bool {
        self.state.world.wf()
    }

    /// Runs one simulation step of `dt` milliseconds: the time controller,
    /// then the collisions controller. No time passing is a no-op.
    pub fn update(&mut self, dt: u64)
        requires
            old(self).wf(),
            dt <= MAX_STEP_MS,
        ensures
            final(self).wf(),
            final(self).actions == old(self).actions,
            dt == 0 ==> *final(self) == *old(self),
            final(self).time_controller.generator() == generator_after(
                old(self).time_controller.generator(),
                dt as int,
            ),
            dt > 0 ==> updated(
                old(self).state.world,
                final(self).state.world,
                old(self).actions,
                dt as int,
                old(self).time_controller.generator(),
            ),
            dt > 0 ==> frame(old(self).state.world, final(self).state.world, old(self).actions, dt as int),
    {
        if dt == 0 {
            return;
        }
        let actions = self.actions;
        let ghost g = self.time_controller.generator();
        self.time_controller.update(dt, &actions, &mut self.state);
        let ghost mid = self.state.world;
        CollisionsController::handle_collisions(&mut self.state);
        assert(collided(mid, self.state.world));
        assert(stepped(
            old(self).state.world,
            mid,
            actions,
            dt as int,
            drawn_roll(g),
            drawn_spot_if_spawning(g, dt as int),
        ));
    }

    pub fn toggle_shoot(&mut self, b: bool)
        ensures
            *final(self) == (Game { actions: Actions { shoot: b, ..old(self).actions }, ..*old(self) }),
    {
        self.actions.shoot = b;
    }

    pub fn toggle_boost(&mut self, b: bool)
        ensures
            *final(self) == (Game { actions: Actions { boost: b, ..old(self).actions }, ..*old(self) }),
    {
        self.actions.boost = b;
    }

    pub fn toggle_turn_left(&mut self, b: bool)
        ensures
            *final(self) == (Game { actions: Actions { rotate_left: b, ..old(self).actions }, ..*old(self) }),
    {
        self.actions.rotate_left = b;
    }

    pub fn toggle_turn_right(&mut self, b: bool)
        ensures
            *final(self) == (Game { actions: Actions { rotate_right: b, ..old(self).actions }, ..*old(self) }),
    {
        self.actions.rotate_right = b;
    }

    /// The draw commands of the current world; the game is not changed.
    pub fn draw(&self) -> (r: Vec<DrawCommand>)
        ensures
            r@ == snapshot(self.state.world),
    {
        render_snapshot(&self.state.world)
    }
}

} // verus!
