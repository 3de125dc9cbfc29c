//! What holds of every game, proved of the transition function.

use vstd::prelude::*;
use crate::draw::spec_first_player;
use crate::engine::{
    after_turn,
    event_of,
    fresh_game,
    program_amount,
    spec_init,
    step,
    valid_config,
    valid_turn,
};
use crate::strategy::{
    lemma_losing_piles_are_multiples,
    lemma_move_is_legal,
    lemma_optimal_leaves_multiple,
    lemma_remainder_bounds,
    lemma_shifted_multiple,
    mover_wins,
};
use crate::types::{
    DifficultyLevel,
    GameError,
    GameState,
    PebblesAction,
    PebblesEvent,
    PebblesInit,
    Player,
    Reply,
};

verus! {

/// The number drawn from any randomness is non-negative, so the program's
/// move from a non-empty pile with a positive bound is a legal one.
pub proof fn lemma_program_amount_is_legal(game: GameState, random: Seq<u8>)
    requires
        game.pebbles_remaining >= 1,
        game.max_pebbles_per_turn >= 1,
    ensures
        1 <= program_amount(game, random) <= game.max_pebbles_per_turn,
        program_amount(game, random) <= game.pebbles_remaining,
{
    lemma_move_is_legal(
        game.difficulty,
        game.pebbles_remaining as int,
        game.max_pebbles_per_turn as int,
        crate::draw::spec_random_u32(random),
    );
}

/// A game with a positive pile size and a positive per-turn bound always
/// starts. Before anybody moves it holds the full pile and has no winner;
/// where the user moves first that is the game returned, and where the
/// program does, the game returned is that one after the program's move.
pub proof fn lemma_init_succeeds(init_data: PebblesInit, random: Seq<u8>)
    requires
        valid_config(init_data),
    ensures
        spec_init(init_data, random) is Ok,
        fresh_game(init_data, spec_first_player(random)).pebbles_remaining
            == init_data.pebbles_count,
        fresh_game(init_data, spec_first_player(random)).winner is None,
        spec_first_player(random) == Player::User ==> spec_init(init_data, random)
            == Ok::<(GameState, Option<PebblesEvent>), GameError>(
            (fresh_game(init_data, Player::User), None),
        ),
        spec_first_player(random) == Player::Program ==> spec_init(init_data, random)->Ok_0.0
            == after_turn(
            fresh_game(init_data, Player::Program),
            Player::Program,
            program_amount(fresh_game(init_data, Player::Program), random),
        ),
        spec_init(init_data, random)->Ok_0.0.wf(),
{
    lemma_program_amount_is_legal(fresh_game(init_data, Player::Program), random);
}

/// A game whose pile size or per-turn bound is zero is never started, by
/// initialisation or by a restart, and a refused restart keeps the old game.
pub proof fn lemma_zero_config_is_rejected(
    game: GameState,
    init_data: PebblesInit,
    random: Seq<u8>,
)
    requires
        init_data.pebbles_count == 0 || init_data.max_pebbles_per_turn == 0,
    ensures
        spec_init(init_data, random) == Err::<(GameState, Option<PebblesEvent>), GameError>(
            GameError::InvalidConfig,
        ),
        step(
            game,
            PebblesAction::Restart {
                difficulty: init_data.difficulty,
                pebbles_count: init_data.pebbles_count,
                max_pebbles_per_turn: init_data.max_pebbles_per_turn,
            },
            random,
        ) == (game, Err::<Reply, GameError>(GameError::InvalidConfig)),
{
}

/// A restart with valid parameters replaces the game by what initialisation
/// yields for them, whatever the old game was.
pub proof fn lemma_restart_is_init(game: GameState, init_data: PebblesInit, random: Seq<u8>)
    requires
        valid_config(init_data),
    ensures
        step(
            game,
            PebblesAction::Restart {
                difficulty: init_data.difficulty,
                pebbles_count: init_data.pebbles_count,
                max_pebbles_per_turn: init_data.max_pebbles_per_turn,
            },
            random,
        ).0 == spec_init(init_data, random)->Ok_0.0,
        step(
            game,
            PebblesAction::Restart {
                difficulty: init_data.difficulty,
                pebbles_count: init_data.pebbles_count,
                max_pebbles_per_turn: init_data.max_pebbles_per_turn,
            },
            random,
        ).1 is Ok,
{
    lemma_init_succeeds(init_data, random);
}

/// A turn of between one and the per-turn bound pebbles, and no more than
/// the pile holds, is accepted. The user's move takes exactly that many
/// pebbles off the pile; the game stored afterwards is the one after that
/// move where it emptied the pile, and otherwise the one after the program's
/// answer to it, which takes at least one pebble more.
pub proof fn lemma_turn_removes_exactly(game: GameState, pebbles: u32, random: Seq<u8>)
    requires
        1 <= pebbles <= game.max_pebbles_per_turn,
        pebbles <= game.pebbles_remaining,
    ensures
        step(game, PebblesAction::Turn(pebbles), random).1 is Ok,
        after_turn(game, Player::User, pebbles as int).pebbles_remaining
            == game.pebbles_remaining - pebbles,
        after_turn(game, Player::User, pebbles as int).pebbles_remaining < game.pebbles_remaining,
        pebbles == game.pebbles_remaining ==> step(game, PebblesAction::Turn(pebbles), random).0
            == after_turn(game, Player::User, pebbles as int),
        pebbles < game.pebbles_remaining ==> step(game, PebblesAction::Turn(pebbles), random).0
            == after_turn(
            after_turn(game, Player::User, pebbles as int),
            Player::Program,
            program_amount(after_turn(game, Player::User, pebbles as int), random),
        ),
        pebbles < game.pebbles_remaining ==> step(
            game,
            PebblesAction::Turn(pebbles),
            random,
        ).0.pebbles_remaining < game.pebbles_remaining - pebbles,
{
    let mid = after_turn(game, Player::User, pebbles as int);
    if pebbles < game.pebbles_remaining {
        lemma_program_amount_is_legal(mid, random);
    }
}

/// A turn of zero pebbles, or of more than the per-turn bound, is rejected
/// with `InvalidMove` and leaves the game, and so the pile, as it was.
pub proof fn lemma_turn_out_of_range(game: GameState, pebbles: u32, random: Seq<u8>)
    requires
        pebbles < 1 || pebbles > game.max_pebbles_per_turn,
    ensures
        step(game, PebblesAction::Turn(pebbles), random) == (
            game,
            Err::<Reply, GameError>(GameError::InvalidMove),
        ),
{
}

/// A turn is rejected exactly when it is out of range or asks for more than
/// the pile holds, and `InvalidMove` is the only error a turn can give.
pub proof fn lemma_turn_rejected_iff(game: GameState, pebbles: u32, random: Seq<u8>)
    ensures
        step(game, PebblesAction::Turn(pebbles), random).1 is Err <==> !valid_turn(game, pebbles),
        step(game, PebblesAction::Turn(pebbles), random).1 is Err ==> step(
            game,
            PebblesAction::Turn(pebbles),
            random,
        ) == (game, Err::<Reply, GameError>(GameError::InvalidMove)),
{
}

/// The user who takes the last pebbles wins: the winner is the user, the
/// event says so, and the program does not move any more.
pub proof fn lemma_last_pebble_wins(game: GameState, pebbles: u32, random: Seq<u8>)
    requires
        valid_turn(game, pebbles),
        pebbles == game.pebbles_remaining,
    ensures
        step(game, PebblesAction::Turn(pebbles), random).0.pebbles_remaining == 0,
        step(game, PebblesAction::Turn(pebbles), random).0.winner == Some(Player::User),
        step(game, PebblesAction::Turn(pebbles), random).1 == Ok::<Reply, GameError>(
            Reply { counter_turn: None, event: PebblesEvent::Won(Player::User) },
        ),
{
}

/// Giving up hands the game to the program in every state, also with
/// pebbles left in the pile or a winner already recorded. Nothing else in
/// the game changes.
pub proof fn lemma_give_up_concedes(game: GameState, random: Seq<u8>)
    ensures
        step(game, PebblesAction::GiveUp, random) == (
            GameState { winner: Some(Player::Program), ..game },
            Ok::<Reply, GameError>(
                Reply { counter_turn: None, event: PebblesEvent::Won(Player::Program) },
            ),
        ),
{
}

/// The event of an accepted action reports the game as stored afterwards:
/// `Won` with the winner where there is one, and the size of the pile where
/// there is none.
pub proof fn lemma_event_reports_outcome(game: GameState, action: PebblesAction, random: Seq<u8>)
    requires
        step(game, action, random).1 is Ok,
    ensures
        step(game, action, random).1->Ok_0.event == event_of(step(game, action, random).0),
        forall|player: Player|
            step(game, action, random).1->Ok_0.event == PebblesEvent::Won(player) <==> step(
                game,
                action,
                random,
            ).0.winner == Some(player),
        step(game, action, random).0.winner is None ==> step(game, action, random).1->Ok_0.event
            == PebblesEvent::CounterTurn(step(game, action, random).0.pebbles_remaining),
{
}

/// A rejected action leaves the stored game untouched.
pub proof fn lemma_rejection_changes_nothing(
    game: GameState,
    action: PebblesAction,
    random: Seq<u8>,
)
    requires
        step(game, action, random).1 is Err,
    ensures
        step(game, action, random).0 == game,
{
}

/// Every action keeps a well-formed game well-formed.
pub proof fn lemma_step_preserves_wf(game: GameState, action: PebblesAction, random: Seq<u8>)
    requires
        game.wf(),
    ensures
        step(game, action, random).0.wf(),
{
    match action {
        PebblesAction::Turn(pebbles) => {
            if valid_turn(game, pebbles) {
                let mid = after_turn(game, Player::User, pebbles as int);
                if mid.pebbles_remaining != 0 {
                    lemma_program_amount_is_legal(mid, random);
                }
            }
        },
        PebblesAction::GiveUp => {},
        PebblesAction::Restart { difficulty, pebbles_count, max_pebbles_per_turn } => {
            let init_data = PebblesInit { difficulty, pebbles_count, max_pebbles_per_turn };
            if valid_config(init_data) {
                lemma_init_succeeds(init_data, random);
            }
        },
    }
}

/// Short of a restart, the pile never grows and the configuration of the
/// game stays what it was.
pub proof fn lemma_pile_never_grows(game: GameState, action: PebblesAction, random: Seq<u8>)
    requires
        !(action is Restart),
    ensures
        step(game, action, random).0.pebbles_remaining <= game.pebbles_remaining,
        step(game, action, random).0.pebbles_count == game.pebbles_count,
        step(game, action, random).0.max_pebbles_per_turn == game.max_pebbles_per_turn,
        step(game, action, random).0.difficulty == game.difficulty,
        step(game, action, random).0.first_player == game.first_player,
{
    match action {
        PebblesAction::Turn(pebbles) => {
            if valid_turn(game, pebbles) {
                let mid = after_turn(game, Player::User, pebbles as int);
                if mid.pebbles_remaining != 0 {
                    lemma_program_amount_is_legal(mid, random);
                }
            }
        },
        _ => {},
    }
}

/// A winner, once recorded, is only replaced by a player who empties the
/// pile, by the user giving up, or by a restart: a turn that leaves pebbles
/// in the pile keeps the winner that was there.
pub proof fn lemma_turn_keeps_winner(game: GameState, pebbles: u32, random: Seq<u8>)
    requires
        valid_turn(game, pebbles),
        step(game, PebblesAction::Turn(pebbles), random).0.pebbles_remaining > 0,
    ensures
        step(game, PebblesAction::Turn(pebbles), random).0.winner == game.winner,
{
    let mid = after_turn(game, Player::User, pebbles as int);
    lemma_program_amount_is_legal(mid, random);
}

/// On hard difficulty the program never lets go of a won game. Where the
/// user has to move from a pile that is a multiple of the per-turn bound
/// plus one, then after any accepted turn either the program has emptied the
/// pile and won, or the user again faces such a multiple: a pile from which
/// the player to move cannot force a win.
pub proof fn lemma_hard_program_holds_the_win(game: GameState, pebbles: u32, random: Seq<u8>)
    requires
        game.difficulty == DifficultyLevel::Hard,
        game.winner is None,
        valid_turn(game, pebbles),
        game.pebbles_remaining as int % (game.max_pebbles_per_turn + 1) == 0,
    ensures
        step(game, PebblesAction::Turn(pebbles), random).0.pebbles_remaining as int % (
        game.max_pebbles_per_turn + 1) == 0,
        !mover_wins(
            step(game, PebblesAction::Turn(pebbles), random).0.pebbles_remaining as nat,
            game.max_pebbles_per_turn as nat,
        ),
        step(game, PebblesAction::Turn(pebbles), random).0.pebbles_remaining == 0 ==> step(
            game,
            PebblesAction::Turn(pebbles),
            random,
        ).0.winner == Some(Player::Program),
        step(game, PebblesAction::Turn(pebbles), random).0.pebbles_remaining > 0 ==> step(
            game,
            PebblesAction::Turn(pebbles),
            random,
        ).0.winner is None,
{
    let r = game.pebbles_remaining as int;
    let m = game.max_pebbles_per_turn as int;
    let d = m + 1;
    let mid = after_turn(game, Player::User, pebbles as int);
    // The user cannot empty a non-empty multiple of d, nor leave another one.
    lemma_shifted_multiple(r, pebbles as int, d);
    lemma_remainder_bounds(r - pebbles, d);
    assert(mid.pebbles_remaining as int % d != 0);
    assert(mid.pebbles_remaining >= 1);
    lemma_program_amount_is_legal(mid, random);
    lemma_optimal_leaves_multiple(mid.pebbles_remaining as int, m);
    let end = step(game, PebblesAction::Turn(pebbles), random).0;
    lemma_losing_piles_are_multiples(end.pebbles_remaining as nat, m as nat);
}

/// Reading the state twice with no action in between gives the same
/// snapshot: each read returns the stored game itself.
pub proof fn lemma_state_reads_agree(game: GameState, first: GameState, second: GameState)
    requires
        first == game,
        second == game,
    ensures
        first == second,
{
}

} // verus!
