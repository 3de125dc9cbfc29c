use pebbles_game::{
    handle, init, state, user_turn, DifficultyLevel, GameError, GameState, PebblesAction,
    PebblesEvent, PebblesInit, Player,
};

/// Randomness whose coin lets the user move first.
fn user_first() -> [u8; 32] {
    [0u8; 32]
}

fn start(pebbles_count: u32, max_pebbles_per_turn: u32) -> GameState {
    let init_data = PebblesInit {
        difficulty: DifficultyLevel::Easy,
        pebbles_count,
        max_pebbles_per_turn,
    };
    let (game, event) = init(init_data, &user_first()).expect("a valid configuration starts");
    assert!(event.is_none());
    game
}

#[test]
fn test_init() {
    // Test valid initialization
    let init_data = PebblesInit {
        difficulty: DifficultyLevel::Easy,
        pebbles_count: 15,
        max_pebbles_per_turn: 2,
    };
    let (game, _) = init(init_data, &user_first()).unwrap();

    // Check that the game state is initialized correctly
    let state: GameState = state(&game);
    assert_eq!(state.pebbles_count, 15);
    assert_eq!(state.max_pebbles_per_turn, 2);
    assert_eq!(state.pebbles_remaining, 15);
    assert!(state.winner.is_none());

    // Test invalid initialization (zero pebbles)
    let invalid_init_data = PebblesInit {
        difficulty: DifficultyLevel::Easy,
        pebbles_count: 0,
        max_pebbles_per_turn: 2,
    };
    let result = init(invalid_init_data, &user_first());
    assert!(result.is_err()); // Expect an error
    assert_eq!(result, Err(GameError::InvalidConfig));
}

#[test]
fn test_handle() {
    // Initialize the game
    let mut game = start(15, 2);

    // User's turn - valid move
    assert_eq!(user_turn(&mut game, 2), Ok(()));

    // Check the state after the user's turn
    assert_eq!(state(&game).pebbles_remaining, 13); // 15 - 2

    // Thirteen pebbles are above the bound of two per turn: the move is
    // rejected and the pile stays as it is.
    assert_eq!(
        handle(&mut game, PebblesAction::Turn(13), &user_first()),
        Err(GameError::InvalidMove)
    );
    assert_eq!(state(&game).pebbles_remaining, 13);

    // User wins, where the bound allows taking the thirteen
    game.max_pebbles_per_turn = 13;
    let reply = handle(&mut game, PebblesAction::Turn(13), &user_first()).unwrap();
    let event: PebblesEvent = reply.event;
    assert!(matches!(event, PebblesEvent::Won(Player::User)));
    assert_eq!(reply.counter_turn, None);
    assert_eq!(state(&game).pebbles_remaining, 0);

    // One pebble off a pile of thirteen
    let restart = PebblesAction::Restart {
        difficulty: DifficultyLevel::Easy,
        pebbles_count: 13,
        max_pebbles_per_turn: 2,
    };
    handle(&mut game, restart, &user_first()).unwrap();
    assert_eq!(user_turn(&mut game, 1), Ok(()));
    assert_eq!(state(&game).pebbles_remaining, 12);

    // User gives up
    let reply = handle(&mut game, PebblesAction::GiveUp, &user_first()).unwrap();
    let event: PebblesEvent = reply.event;
    assert!(matches!(event, PebblesEvent::Won(Player::Program)));
}

#[test]
fn test_state() {
    // Initialize the game
    let mut game = start(15, 2);

    // Check the initial state
    let state_now: GameState = state(&game);
    assert_eq!(state_now.pebbles_count, 15);
    assert_eq!(state_now.max_pebbles_per_turn, 2);
    assert_eq!(state_now.pebbles_remaining, 15);
    assert!(state_now.winner.is_none());

    // Simulate some turns
    assert_eq!(user_turn(&mut game, 1), Ok(()));
    let state_after_turn: GameState = state(&game);
    assert_eq!(state_after_turn.pebbles_remaining, 14); // 15 - 1

    // User gives up
    handle(&mut game, PebblesAction::GiveUp, &user_first()).unwrap();
    let state_after_give_up: GameState = state(&game);
    assert_eq!(state_after_give_up.winner, Some(Player::Program));
}
