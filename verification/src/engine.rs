//! The game engine: starting a game, processing an action, reading the state.
//!
//! The pile is never driven below zero. A user's move that asks for more
//! pebbles than are left is rejected like any other out-of-range move, and
//! the program's easy move is cut down to the pile. Whoever empties the pile
//! wins, the program as well as the user.

use vstd::prelude::*;
use crate::draw::{first_player, random_u32, spec_first_player, spec_random_u32};
use crate::laws::{lemma_rejection_changes_nothing, lemma_step_preserves_wf};
use crate::strategy::{move_amount, select_move};
use crate::types::{
    GameError,
    GameState,
    PebblesAction,
    PebblesEvent,
    PebblesInit,
    Player,
    Reply,
};

verus! {

/// Both parameters of a new game are positive.
pub open spec fn valid_config(init_data: PebblesInit) -> bool {
    init_data.pebbles_count > 0 && init_data.max_pebbles_per_turn > 0
}

/// The user may remove `pebbles` from the pile of `game`.
pub open spec fn valid_turn(game: GameState, pebbles: u32) -> bool {
    1 <= pebbles <= game.max_pebbles_per_turn && pebbles <= game.pebbles_remaining
}

/// The game as it stands before anybody has moved.
pub open spec fn fresh_game(init_data: PebblesInit, first_player: Player) -> GameState {
    GameState {
        pebbles_count: init_data.pebbles_count,
        max_pebbles_per_turn: init_data.max_pebbles_per_turn,
        pebbles_remaining: init_data.pebbles_count,
        difficulty: init_data.difficulty,
        first_player,
        winner: None,
    }
}

/// The game after `player` has removed `amount` pebbles: the pile shrinks by
/// exactly `amount`, and `player` wins where that empties it.
pub open spec fn after_turn(game: GameState, player: Player, amount: int) -> GameState
    recommends
        0 <= amount <= game.pebbles_remaining,
{
    GameState {
        pebbles_remaining: (game.pebbles_remaining - amount) as u32,
        winner: if game.pebbles_remaining == amount {
            Some(player)
        } else {
            game.winner
        },
        ..game
    }
}

/// The number of pebbles the program removes when it moves in `game` with
/// the randomness `random`.
pub open spec fn program_amount(game: GameState, random: Seq<u8>) -> int {
    move_amount(
        game.difficulty,
        game.pebbles_remaining as int,
        game.max_pebbles_per_turn as int,
        spec_random_u32(random),
    )
}

/// The event that reports where `game` stands: the winner, or the size of
/// the pile while there is none.
pub open spec fn event_of(game: GameState) -> PebblesEvent {
    match game.winner {
        Some(player) => PebblesEvent::Won(player),
        None => PebblesEvent::CounterTurn(game.pebbles_remaining),
    }
}

/// What starting a game yields: the new game and, where the program moved
/// first, the event with its move.
pub open spec fn spec_init(init_data: PebblesInit, random: Seq<u8>) -> Result<
    (GameState, Option<PebblesEvent>),
    GameError,
> {
    if !valid_config(init_data) {
        Err(GameError::InvalidConfig)
    } else {
        let first = spec_first_player(random);
        let game = fresh_game(init_data, first);
        match first {
            Player::User => Ok((game, None)),
            Player::Program => {
                let amount = program_amount(game, random);
                Ok(
                    (
                        after_turn(game, Player::Program, amount),
                        Some(PebblesEvent::CounterTurn(amount as u32)),
                    ),
                )
            },
        }
    }
}

/// The transition function of the game: the stored game after `action`, and
/// what the caller is told. A rejected action leaves the game as it was.
pub open spec fn step(game: GameState, action: PebblesAction, random: Seq<u8>) -> (
    GameState,
    Result<Reply, GameError>,
) {
    match action {
        PebblesAction::Turn(pebbles) => {
            if !valid_turn(game, pebbles) {
                (game, Err(GameError::InvalidMove))
            } else {
                let mid = after_turn(game, Player::User, pebbles as int);
                if mid.pebbles_remaining == 0 {
                    (mid, Ok(Reply { counter_turn: None, event: event_of(mid) }))
                } else {
                    let amount = program_amount(mid, random);
                    let end = after_turn(mid, Player::Program, amount);
                    let counter_turn = if end.pebbles_remaining == 0 {
                        None
                    } else {
                        Some(PebblesEvent::CounterTurn(amount as u32))
                    };
                    (end, Ok(Reply { counter_turn, event: event_of(end) }))
                }
            }
        },
        PebblesAction::GiveUp => {
            let end = GameState { winner: Some(Player::Program), ..game };
            (end, Ok(Reply { counter_turn: None, event: event_of(end) }))
        },
        PebblesAction::Restart { difficulty, pebbles_count, max_pebbles_per_turn } => {
            let init_data = PebblesInit { difficulty, pebbles_count, max_pebbles_per_turn };
            match spec_init(init_data, random) {
                Ok((fresh, counter_turn)) => (
                    fresh,
                    Ok(Reply { counter_turn, event: event_of(fresh) }),
                ),
                Err(e) => (game, Err(e)),
            }
        },
    }
}

/// The user removes `pebbles` from the pile and wins if that empties it. The
/// move is rejected, and nothing changes, unless it is at least one, at most
/// the per-turn bound and at most the pile.
pub fn user_turn(game: &mut GameState, pebbles: u32) -> (done: Result<(), GameError>)
    ensures
        valid_turn(*old(game), pebbles) ==> done == Ok::<(), GameError>(()) && *final(game)
            == after_turn(*old(game), Player::User, pebbles as int),
        !valid_turn(*old(game), pebbles) ==> done == Err::<(), GameError>(GameError::InvalidMove)
            && *final(game) == *old(game),
        old(game).wf() ==> final(game).wf(),
{
    if pebbles < 1 || pebbles > game.max_pebbles_per_turn || pebbles > game.pebbles_remaining {
        return Err(GameError::InvalidMove);
    }
    game.pebbles_remaining = game.pebbles_remaining - pebbles;
    if game.pebbles_remaining == 0 {
        game.winner = Some(Player::User);
    }
    Ok(())
}

/// The program removes the pebbles that its difficulty and the number
/// `random` select, and wins if that empties the pile. Returns the number of
/// pebbles removed.
pub fn program_turn(game: &mut GameState, random: u32) -> (amount: u32)
    requires
        old(game).pebbles_remaining >= 1,
        old(game).max_pebbles_per_turn >= 1,
    ensures
        amount == move_amount(
            old(game).difficulty,
            old(game).pebbles_remaining as int,
            old(game).max_pebbles_per_turn as int,
            random as int,
        ),
        1 <= amount <= old(game).max_pebbles_per_turn,
        amount <= old(game).pebbles_remaining,
        *final(game) == after_turn(*old(game), Player::Program, amount as int),
        old(game).wf() ==> final(game).wf(),
{
    let amount: u32 = select_move(
        game.difficulty,
        game.pebbles_remaining,
        game.max_pebbles_per_turn,
        random,
    );
    game.pebbles_remaining = game.pebbles_remaining - amount;
    if game.pebbles_remaining == 0 {
        game.winner = Some(Player::Program);
    }
    amount
}

/// The event that reports where the game stands.
pub fn event_for(game: &GameState) -> (event: PebblesEvent)
    ensures
        event == event_of(*game),
{
    match game.winner {
        Some(player) => PebblesEvent::Won(player),
        None => PebblesEvent::CounterTurn(game.pebbles_remaining),
    }
}

/// Starts a game. The coin in `random` picks who moves first; where that is
/// the program, it moves at once and the move is reported as `CounterTurn`.
/// Fails with `InvalidConfig` exactly when the pile size or the per-turn
/// bound is zero.
pub fn init(init_data: PebblesInit, random: &[u8; 32]) -> (started: Result<
    (GameState, Option<PebblesEvent>),
    GameError,
>)
    ensures
        started == spec_init(init_data, random@),
        started is Ok <==> valid_config(init_data),
        started is Ok ==> started->Ok_0.0.wf(),
{
    if init_data.pebbles_count == 0 || init_data.max_pebbles_per_turn == 0 {
        return Err(GameError::InvalidConfig);
    }
    let first = first_player(random);
    let mut game = GameState {
        pebbles_count: init_data.pebbles_count,
        max_pebbles_per_turn: init_data.max_pebbles_per_turn,
        pebbles_remaining: init_data.pebbles_count,
        difficulty: init_data.difficulty,
        first_player: first,
        winner: None,
    };
    match first {
        Player::User => Ok((game, None)),
        Player::Program => {
            let amount: u32 = program_turn(&mut game, random_u32(random));
            Ok((game, Some(PebblesEvent::CounterTurn(amount))))
        },
    }
}

/// Processes one action of the user on the stored game and returns what to
/// relay. A rejected action returns the error and leaves the game untouched.
pub fn handle(game: &mut GameState, action: PebblesAction, random: &[u8; 32]) -> (outcome: Result<
    Reply,
    GameError,
>)
    ensures
        (*final(game), outcome) == step(*old(game), action, random@),
        outcome is Err ==> *final(game) == *old(game),
        old(game).wf() ==> final(game).wf(),
{
    proof {
        if step(*old(game), action, random@).1 is Err {
            lemma_rejection_changes_nothing(*old(game), action, random@);
        }
        if old(game).wf() {
            lemma_step_preserves_wf(*old(game), action, random@);
        }
    }
    match action {
        PebblesAction::Turn(pebbles) => {
            match user_turn(game, pebbles) {
                Err(e) => {
                    return Err(e);
                },
                Ok(()) => {},
            }
            let mut counter_turn: Option<PebblesEvent> = None;
            if game.pebbles_remaining != 0 {
                let amount: u32 = program_turn(game, random_u32(random));
                if game.pebbles_remaining != 0 {
                    counter_turn = Some(PebblesEvent::CounterTurn(amount));
                }
            }
            Ok(Reply { counter_turn, event: event_for(game) })
        },
        PebblesAction::GiveUp => {
            game.winner = Some(Player::Program);
            Ok(Reply { counter_turn: None, event: event_for(game) })
        },
        PebblesAction::Restart { difficulty, pebbles_count, max_pebbles_per_turn } => {
            let init_data = PebblesInit { difficulty, pebbles_count, max_pebbles_per_turn };
            match init(init_data, random) {
                Ok((fresh, counter_turn)) => {
                    *game = fresh;
                    Ok(Reply { counter_turn, event: event_for(game) })
                },
                Err(e) => Err(e),
            }
        },
    }
}

/// Reads the stored game. Nothing is changed, so two reads with no action
/// in between return the same snapshot.
pub fn state(game: &GameState) -> (snapshot: GameState)
    ensures
        snapshot == *game,
{
    *game
}

} // verus!
