use pebbles_game::{first_player, random_u32, select_move, DifficultyLevel, Player};

fn draw(bytes: [u8; 4]) -> [u8; 32] {
    let mut random = [0xffu8; 32];
    random[..4].copy_from_slice(&bytes);
    random
}

/// Whether the player to move from `pile` can force a win, by searching the
/// game tree.
fn mover_wins(pile: u32, max: u32) -> bool {
    (1..=max.min(pile)).any(|amount| !mover_wins(pile - amount, max))
}

#[test]
fn coin_goes_by_the_parity_of_the_lowest_byte() {
    assert_eq!(first_player(&draw([0, 1, 1, 1])), Player::User);
    assert_eq!(first_player(&draw([1, 0, 0, 0])), Player::Program);
    assert_eq!(first_player(&draw([254, 1, 1, 1])), Player::User);
    assert_eq!(first_player(&draw([255, 0, 0, 0])), Player::Program);
}

#[test]
fn number_is_little_endian() {
    assert_eq!(random_u32(&draw([0x78, 0x56, 0x34, 0x12])), 0x1234_5678);
    assert_eq!(random_u32(&draw([1, 0, 0, 0])), 1);
    assert_eq!(random_u32(&draw([0, 1, 0, 0])), 256);
    assert_eq!(random_u32(&draw([0, 0, 1, 0])), 65_536);
    assert_eq!(random_u32(&draw([0, 0, 0, 1])), 16_777_216);
    assert_eq!(random_u32(&draw([0, 0, 0, 0])), 0);
    assert_eq!(random_u32(&draw([255, 255, 255, 255])), u32::MAX);
}

#[test]
fn number_agrees_with_std() {
    for bytes in [[3u8, 141, 59, 26], [200, 100, 50, 25], [9, 0, 255, 128]] {
        assert_eq!(random_u32(&draw(bytes)), u32::from_le_bytes(bytes));
    }
}

#[test]
fn hard_move_from_seven_with_three_per_turn() {
    for random in [0u32, 1, 2, 3, u32::MAX] {
        let amount = select_move(DifficultyLevel::Hard, 7, 3, random);
        assert_eq!(amount, 3);
        assert_eq!((7 - amount) % 4, 0);
    }
}

#[test]
fn hard_move_from_a_multiple_is_one() {
    for pile in [4u32, 8, 12, 400] {
        assert_eq!(select_move(DifficultyLevel::Hard, pile, 3, 77), 1);
    }
}

#[test]
fn hard_move_leaves_a_multiple_wherever_it_can() {
    for max in 1u32..=6 {
        for pile in 1u32..=40 {
            let amount = select_move(DifficultyLevel::Hard, pile, max, 5);
            assert!(1 <= amount && amount <= max && amount <= pile);
            if pile % (max + 1) != 0 {
                assert_eq!(amount, pile % (max + 1));
                assert_eq!((pile - amount) % (max + 1), 0);
            }
        }
    }
}

#[test]
fn hard_move_wins_wherever_a_win_can_be_forced() {
    for max in 1u32..=4 {
        for pile in 1u32..=14 {
            assert_eq!(mover_wins(pile, max), pile % (max + 1) != 0);
            if mover_wins(pile, max) {
                let amount = select_move(DifficultyLevel::Hard, pile, max, 0);
                assert!(!mover_wins(pile - amount, max));
            }
        }
    }
}

#[test]
fn easy_move_is_the_remainder_plus_one() {
    assert_eq!(select_move(DifficultyLevel::Easy, 15, 2, 0), 1);
    assert_eq!(select_move(DifficultyLevel::Easy, 15, 2, 1), 2);
    assert_eq!(select_move(DifficultyLevel::Easy, 15, 2, 5), 2);
    assert_eq!(select_move(DifficultyLevel::Easy, 15, 7, 20), 7);
    assert_eq!(select_move(DifficultyLevel::Easy, 15, 7, 0x1234_5678), 0x1234_5678 % 7 + 1);
}

#[test]
fn easy_move_never_exceeds_the_pile() {
    assert_eq!(select_move(DifficultyLevel::Easy, 1, 2, 5), 1);
    assert_eq!(select_move(DifficultyLevel::Easy, 3, 10, 8), 3);
    assert_eq!(select_move(DifficultyLevel::Easy, 3, 10, 1), 2);
    for max in 1u32..=6 {
        for pile in 1u32..=8 {
            for random in 0u32..20 {
                let amount = select_move(DifficultyLevel::Easy, pile, max, random);
                assert!(1 <= amount && amount <= max && amount <= pile);
                assert_eq!(amount, (random % max + 1).min(pile));
            }
        }
    }
}

#[test]
fn moves_at_the_largest_values() {
    // The modulus u32::MAX + 1 does not fit in 32 bits.
    assert_eq!(select_move(DifficultyLevel::Hard, u32::MAX, u32::MAX, 0), u32::MAX);
    assert_eq!(select_move(DifficultyLevel::Hard, 5, u32::MAX, 0), 5);
    assert_eq!(select_move(DifficultyLevel::Easy, u32::MAX, u32::MAX, u32::MAX), 1);
    assert_eq!(select_move(DifficultyLevel::Easy, u32::MAX, u32::MAX, u32::MAX - 1), u32::MAX);
}
