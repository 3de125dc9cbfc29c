//! Reading the randomness of an invocation.
//!
//! The host supplies 32 random bytes per invocation. The game uses the
//! parity of the lowest byte as a coin and the lowest four bytes, in
//! little-endian order, as a number.

use vstd::prelude::*;
use crate::types::Player;

verus! {

/// The side that the coin in `random` picks to move first: the user when the
/// lowest byte is even, the program when it is odd.
pub open spec fn spec_first_player(random: Seq<u8>) -> Player
    recommends
        random.len() >= 1,
{
    if random[0] % 2 == 0 {
        Player::User
    } else {
        Player::Program
    }
}

/// The little-endian value of the four lowest bytes of `random`.
pub open spec fn spec_random_u32(random: Seq<u8>) -> int
    recommends
        random.len() >= 4,
{
    random[0] + 0x100 * random[1] + 0x1_0000 * random[2] + 0x100_0000 * random[3]
}

/// Flips the coin that decides who moves first.
pub fn first_player(random: &[u8; 32]) -> (player: Player)
    ensures
        player == spec_first_player(random@),
{
    if random[0] % 2 == 0 {
        Player::User
    } else {
        Player::Program
    }
}

/// Reads the number that the program's random moves are derived from.
pub fn random_u32(random: &[u8; 32]) -> (value: u32)
    ensures
        value == spec_random_u32(random@),
{
    let b0: u32 = random[0] as u32;
    let b1: u32 = random[1] as u32;
    let b2: u32 = random[2] as u32;
    let b3: u32 = random[3] as u32;
    b0 + 0x100 * b1 + 0x1_0000 * b2 + 0x100_0000 * b3
}

} // verus!
