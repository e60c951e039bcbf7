//! An endless vertical platformer kernel: one physics tick, camera follow,
//! scoring, and platform generation and pruning over a bounded working set.
//!
//! All lengths are in half-pixels, so that every constant of the game
//! (gravity, speeds, sizes) is a whole number. The viewport itself is given
//! in pixels; a viewport of `h` pixels is `2 * h` half-pixels tall.
//!
//! Randomness comes from the caller as draws: a `u32` draw `d` stands for
//! the fraction `d / 2^32` of `[0, 1)`.

pub mod entities;
pub mod world;
mod game;
mod proofs;
pub mod render;
pub mod session;
pub mod laws;

pub use entities::{Block, Player};
pub use render::{Align, Color, DrawOp, Label};
pub use session::{
    direction_of, handle_click, handle_key_down, handle_key_up, jump, resize, same_text,
    start_move, stop_move,
};
pub use world::{Direction, Game, GameState};
