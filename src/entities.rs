use vstd::prelude::*;

verus! {

/// Side length of the player's square, in half-pixels.
pub const PLAYER_SIZE: i64 = 100;

/// Width of a generated platform, in half-pixels.
pub const BLOCK_WIDTH: i64 = 200;

/// Height of every platform, the ground included, in half-pixels.
pub const BLOCK_HEIGHT: i64 = 40;

/// The player: a square with a velocity and its input intents.
#[derive(Clone, Copy, Debug, PartialEq, Eq, Structural)]
pub struct Player {
    pub x: i64,
    pub y: i64,
    pub width: i64,
    pub height: i64,
    pub velocity_x: i64,
    pub velocity_y: i64,
    pub is_jumping: bool,
    pub is_moving_left: bool,
    pub is_moving_right: bool,
}

impl Player {
    pub open spec fn spec_new(x: int, y: int) -> Player {
        Player {
            x: x as i64,
            y: y as i64,
            width: PLAYER_SIZE,
            height: PLAYER_SIZE,
            velocity_x: 0,
            velocity_y: 0,
            is_jumping: false,
            is_moving_left: false,
            is_moving_right: false,
        }
    }

    /// A player at rest at `(x, y)`, with no input held.
    pub fn new(x: i64, y: i64) -> (r: Player)
        ensures
            r == Player::spec_new(x as int, y as int),
    {
        Player {
            x,
            y,
            width: PLAYER_SIZE,
            height: PLAYER_SIZE,
            velocity_x: 0,
            velocity_y: 0,
            is_jumping: false,
            is_moving_left: false,
            is_moving_right: false,
        }
    }
}

/// A platform. Platforms never change once placed.
#[derive(Clone, Copy, Debug, PartialEq, Eq, Structural)]
pub struct Block {
    pub x: i64,
    pub y: i64,
    pub width: i64,
    pub height: i64,
}

impl Block {
    pub fn new(x: i64, y: i64, width: i64, height: i64) -> (r: Block)
        ensures
            r == (Block { x, y, width, height }),
    {
        Block { x, y, width, height }
    }
}

} // verus!
