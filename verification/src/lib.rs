//! A two-player pebble game played between a user and a program.
//!
//! The two sides take turns removing between one and a configured number of
//! pebbles from a shared pile; whoever removes the last pebble wins. The
//! library is a pure state machine: every operation takes the stored game and
//! the randomness of the current invocation as plain values and returns the
//! events to relay, so that a host can load, step and persist the game.

pub mod draw;
pub mod engine;
pub mod laws;
pub mod strategy;
pub mod types;

pub use draw::{first_player, random_u32};
pub use engine::{event_for, handle, init, program_turn, state, user_turn};
pub use strategy::select_move;
pub use types::{
    DifficultyLevel, GameError, GameState, PebblesAction, PebblesEvent, PebblesInit, Player, Reply,
};
