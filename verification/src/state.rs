use vstd::prelude::*;

use vstd::arithmetic::div_mod::lemma_fundamental_div_mod_converse;

use crate::player::{inv, right_edge, step, Direction, Player, SCREEN_BUFFER, SCREEN_WIDTH};
use crate::trajectory::lemma_left_leg_safe_mod;

verus! {

/// Default width and height of the entity, in pixels.
pub const PLAYER_SIZE: u8 = 50;

/// Default per-frame step size of the entity, in pixels.
pub const PLAYER_SPEED: u8 = 25;

/// Simulation state handed to the frame driver: the single entity and a
/// game-over flag that the core itself never sets.
pub struct State {
    pub player: Player,
    pub gameover: bool,
}

impl State {
    /// Create the simulation with the entity's top-left corner at `(x, y)`,
    /// the default size and speed, and rightward travel. The starting position
    /// must put the entity's box inside the arena; a caller with an arbitrary
    /// position checks that first and reports a configuration error.
    pub fn new(x: u32, y: u32) -> (s: State)
        requires
            SCREEN_BUFFER <= x,
            x + PLAYER_SIZE <= right_edge(),
        ensures
            s.player.x == x,
            s.player.y == y,
            s.player.width == PLAYER_SIZE,
            s.player.height == PLAYER_SIZE,
            s.player.speed == PLAYER_SPEED,
            s.player.last_direction == Direction::Right,
            !s.gameover,
            inv(s.player),
    {
        let player = Player {
            x: x,
            y: y,
            width: PLAYER_SIZE,
            height: PLAYER_SIZE,
            speed: PLAYER_SPEED,
            last_direction: Direction::Right,
        };
        proof {
            let landing = right_edge() - PLAYER_SIZE - PLAYER_SPEED;
            lemma_fundamental_div_mod_converse(landing, PLAYER_SPEED as int, 60, 15);
            lemma_left_leg_safe_mod(landing, PLAYER_SPEED as int);
        }
        State { player: player, gameover: false }
    }

    /// One frame of the driver's update step: advance the entity; the
    /// game-over flag is untouched.
    pub fn update(&mut self)
        requires
            inv(old(self).player),
        ensures
            inv(final(self).player),
            final(self).player == (step(old(self).player)),
            final(self).gameover == old(self).gameover,
    {
        self.player.update();
    }
}

} // verus!
