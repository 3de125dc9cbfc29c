//! How the program chooses the number of pebbles to remove.
//!
//! With at most `m` pebbles per turn, the player who has to move from a pile
//! of `r` pebbles loses against perfect play exactly when `r` is a multiple
//! of `m + 1`. On hard difficulty the program therefore removes `r mod (m + 1)`
//! pebbles whenever that is not zero, which leaves the user such a multiple.

use vstd::prelude::*;
use crate::types::DifficultyLevel;

verus! {

/// Removing `a` pebbles is a legal move from a pile of `r` pebbles with
/// per-turn bound `m`.
pub open spec fn legal_move(a: nat, r: nat, m: nat) -> bool {
    1 <= a && a <= m && a <= r
}

/// The player who has to move from a pile of `r` pebbles, taking between one
/// and `m` pebbles per turn, can force a win: some move leaves the opponent
/// a pile from which the opponent cannot. Whoever faces the empty pile has
/// lost, since the other side took the last pebble.
pub open spec fn mover_wins(r: nat, m: nat) -> bool
    decreases r,
{
    exists|a: nat| #[trigger] legal_move(a, r, m) && !mover_wins((r - a) as nat, m)
}

/// The optimal move from a pile of `r` with per-turn bound `m`: the remainder
/// of `r` by `m + 1`, or a single pebble where that remainder is zero and
/// every move loses.
pub open spec fn optimal_amount(r: int, m: int) -> int {
    if r % (m + 1) != 0 {
        r % (m + 1)
    } else {
        1
    }
}

/// The easy move: `random mod m + 1`, cut down to the pile where it exceeds
/// it, so that the pile never goes below zero.
pub open spec fn easy_amount(r: int, m: int, random: int) -> int {
    let wish = random % m + 1;
    if wish <= r {
        wish
    } else {
        r
    }
}

/// The number of pebbles the program removes from a pile of `r` pebbles.
pub open spec fn move_amount(difficulty: DifficultyLevel, r: int, m: int, random: int) -> int {
    match difficulty {
        DifficultyLevel::Easy => easy_amount(r, m, random),
        DifficultyLevel::Hard => optimal_amount(r, m),
    }
}

/// Every amount that `move_amount` yields is a legal move: at least one
/// pebble, at most the per-turn bound, at most the pile.
pub proof fn lemma_move_is_legal(difficulty: DifficultyLevel, r: int, m: int, random: int)
    requires
        r >= 1,
        m >= 1,
        random >= 0,
    ensures
        1 <= move_amount(difficulty, r, m, random) <= m,
        move_amount(difficulty, r, m, random) <= r,
{
    assert(0 <= random % m < m) by (nonlinear_arith)
        requires
            m >= 1,
            random >= 0,
    ;
    lemma_remainder_bounds(r, m + 1);
}

/// The remainder of a non-negative `r` by a positive `d` is below `d`, at
/// most `r`, and taking it away from `r` leaves a multiple of `d`.
pub proof fn lemma_remainder_bounds(r: int, d: int)
    requires
        r >= 0,
        d >= 1,
    ensures
        0 <= r % d < d,
        r % d <= r,
        (r - r % d) % d == 0,
{
    vstd::arithmetic::div_mod::lemma_fundamental_div_mod(r, d);
    vstd::arithmetic::div_mod::lemma_mod_bound(r, d);
    vstd::arithmetic::div_mod::lemma_div_pos_is_pos(r, d);
    let q = r / d;
    assert(d * q >= 0) by (nonlinear_arith)
        requires
            d >= 1,
            q >= 0,
    ;
    vstd::arithmetic::div_mod::lemma_mod_multiples_basic(q, d);
    assert(q * d == d * q) by (nonlinear_arith);
}

/// On hard difficulty, from a pile that is no multiple of `m + 1`, the
/// program's move leaves a multiple of `m + 1`.
pub proof fn lemma_optimal_leaves_multiple(r: int, m: int)
    requires
        r >= 1,
        m >= 1,
        r % (m + 1) != 0,
    ensures
        (r - optimal_amount(r, m)) % (m + 1) == 0,
{
    lemma_remainder_bounds(r, m + 1);
}

/// The player to move from a pile of `r` pebbles can force a win exactly when
/// `r` is not a multiple of `m + 1`.
pub proof fn lemma_losing_piles_are_multiples(r: nat, m: nat)
    requires
        m >= 1,
    ensures
        mover_wins(r, m) <==> r % (m + 1) != 0,
    decreases r,
{
    let d = m as int + 1;
    lemma_remainder_bounds(r as int, d);
    if r as int % d != 0 {
        let a = (r as int % d) as nat;
        lemma_losing_piles_are_multiples((r - a) as nat, m);
        assert(legal_move(a, r, m) && !mover_wins((r - a) as nat, m));
    } else {
        assert forall|a: nat| #[trigger] legal_move(a, r, m) implies mover_wins(
            (r - a) as nat,
            m,
        ) by {
            lemma_losing_piles_are_multiples((r - a) as nat, m);
            lemma_shifted_multiple(r as int, a as int, d);
        }
    }
}

/// Taking between one and `d - 1` away from a multiple of `d` never leaves a
/// multiple of `d`.
pub proof fn lemma_shifted_multiple(r: int, a: int, d: int)
    requires
        r >= 0,
        d >= 1,
        r % d == 0,
        1 <= a < d,
        a <= r,
    ensures
        (r - a) % d != 0,
{
    lemma_remainder_bounds(r - a, d);
    if (r - a) % d == 0 {
        vstd::arithmetic::div_mod::lemma_fundamental_div_mod(r, d);
        vstd::arithmetic::div_mod::lemma_fundamental_div_mod(r - a, d);
        let q1 = r / d;
        let q2 = (r - a) / d;
        assert(a == d * (q1 - q2)) by (nonlinear_arith)
            requires
                r == d * q1,
                r - a == d * q2,
        ;
        assert(false) by (nonlinear_arith)
            requires
                a == d * (q1 - q2),
                1 <= a < d,
        ;
    }
}

/// The optimal move wins wherever a win can be forced: it leaves the
/// opponent a pile from which no win can be forced.
pub proof fn lemma_optimal_move_wins(r: nat, m: nat)
    requires
        r >= 1,
        m >= 1,
        mover_wins(r, m),
    ensures
        !mover_wins((r - optimal_amount(r as int, m as int)) as nat, m),
{
    lemma_losing_piles_are_multiples(r, m);
    lemma_remainder_bounds(r as int, m as int + 1);
    lemma_losing_piles_are_multiples((r - optimal_amount(r as int, m as int)) as nat, m);
}

/// Chooses the number of pebbles that the program removes from a pile of
/// `pebbles_remaining`, given the number `random` drawn for this invocation.
pub fn select_move(
    difficulty: DifficultyLevel,
    pebbles_remaining: u32,
    max_pebbles_per_turn: u32,
    random: u32,
) -> (amount: u32)
    requires
        pebbles_remaining >= 1,
        max_pebbles_per_turn >= 1,
    ensures
        amount == move_amount(
            difficulty,
            pebbles_remaining as int,
            max_pebbles_per_turn as int,
            random as int,
        ),
        1 <= amount <= max_pebbles_per_turn,
        amount <= pebbles_remaining,
        difficulty == DifficultyLevel::Hard && pebbles_remaining as int % (max_pebbles_per_turn
            + 1) != 0 ==> (pebbles_remaining - amount) % (max_pebbles_per_turn + 1) == 0,
{
    proof {
        lemma_move_is_legal(
            difficulty,
            pebbles_remaining as int,
            max_pebbles_per_turn as int,
            random as int,
        );
        if pebbles_remaining as int % (max_pebbles_per_turn + 1) != 0 {
            lemma_optimal_leaves_multiple(pebbles_remaining as int, max_pebbles_per_turn as int);
        }
    }
    match difficulty {
        DifficultyLevel::Easy => {
            let wish: u32 = random % max_pebbles_per_turn + 1;
            if wish <= pebbles_remaining {
                wish
            } else {
                pebbles_remaining
            }
        },
        DifficultyLevel::Hard => {
            let modulus: u64 = max_pebbles_per_turn as u64 + 1;
            let rest: u64 = pebbles_remaining as u64 % modulus;
            if rest != 0 {
                rest as u32
            } else {
                1
            }
        },
    }
}

} // verus!
