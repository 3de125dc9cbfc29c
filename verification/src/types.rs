//! The data exchanged with the host and the persisted game record.

use vstd::prelude::*;

verus! {

/// How the program chooses its moves.
#[derive(Clone, Copy, Debug, PartialEq, Eq, Structural)]
pub enum DifficultyLevel {
    /// The program removes a random legal number of pebbles.
    Easy,
    /// The program plays the optimal strategy of the subtraction game.
    Hard,
}

/// One of the two sides of the game.
#[derive(Clone, Copy, Debug, PartialEq, Eq, Structural)]
pub enum Player {
    User,
    Program,
}

/// Parameters of a new game.
#[derive(Clone, Copy, Debug, PartialEq, Eq, Structural)]
pub struct PebblesInit {
    pub difficulty: DifficultyLevel,
    pub pebbles_count: u32,
    pub max_pebbles_per_turn: u32,
}

/// What the user asks for in one invocation.
#[derive(Clone, Copy, Debug, PartialEq, Eq, Structural)]
pub enum PebblesAction {
    /// Remove this many pebbles from the pile.
    Turn(u32),
    /// Concede the game to the program.
    GiveUp,
    /// Throw the current game away and start a new one.
    Restart { difficulty: DifficultyLevel, pebbles_count: u32, max_pebbles_per_turn: u32 },
}

/// What the game reports back.
#[derive(Clone, Copy, Debug, PartialEq, Eq, Structural)]
pub enum PebblesEvent {
    /// A number of pebbles: the program's move, or the size of the pile.
    CounterTurn(u32),
    /// The game is over and this player has won it.
    Won(Player),
}

/// What one accepted action hands back to the caller.
#[derive(Clone, Copy, Debug, PartialEq, Eq)]
pub struct Reply {
    /// `CounterTurn` with the number of pebbles the program removed, where
    /// the program moved and the pile is not yet empty.
    pub counter_turn: Option<PebblesEvent>,
    /// The winner, or `CounterTurn` with the size of the pile while there is
    /// none.
    pub event: PebblesEvent,
}

/// Why an invocation was rejected. A rejected invocation changes nothing.
#[derive(Clone, Copy, Debug, PartialEq, Eq, Structural)]
pub enum GameError {
    /// The pile size or the per-turn bound of a new game is zero.
    InvalidConfig,
    /// The user's move is zero, above the per-turn bound, or above what is
    /// left in the pile.
    InvalidMove,
}

/// The record of one game; the only thing that is persisted between calls.
#[derive(Clone, Copy, Debug, PartialEq, Eq)]
pub struct GameState {
    /// Number of pebbles the game started with.
    pub pebbles_count: u32,
    /// Upper bound on the pebbles removed in one turn.
    pub max_pebbles_per_turn: u32,
    /// Current size of the pile.
    pub pebbles_remaining: u32,
    pub difficulty: DifficultyLevel,
    /// Who moved first in this game.
    pub first_player: Player,
    /// `None` while the game is in progress.
    pub winner: Option<Player>,
}

impl GameState {
    /// The invariant of a game record: the configuration is non-zero, the
    /// pile never exceeds its initial size, and an empty pile has a winner.
    pub open spec fn wf(self) -> bool {
        &&& self.pebbles_count > 0
        &&& self.max_pebbles_per_turn > 0
        &&& self.pebbles_remaining <= self.pebbles_count
        &&& self.pebbles_remaining == 0 ==> self.winner is Some
    }

    /// No winner has been recorded yet.
    pub open spec fn in_progress(self) -> bool {
        self.winner is None
    }
}

} // verus!
