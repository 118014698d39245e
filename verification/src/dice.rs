//! Dice and parity: rolling a pair of six-sided dice, evaluating whether
//! their sum is even (cho) or odd (han), and matching a guess against the
//! outcome.

use vstd::prelude::*;

verus! {

/// A parity guess or outcome: cho is even, han is odd.
#[derive(PartialEq, Eq, Structural, Clone, Copy, Debug)]
pub enum Parity {
    CHO,
    HAN,
}

/// Both dice of a pair show a face between 1 and 6.
pub open spec fn valid_dice(dice: (u8, u8)) -> bool {
    1 <= dice.0 <= 6 && 1 <= dice.1 <= 6
}

/// The parity of a dice pair: cho when the sum of the faces is even,
/// han when it is odd.
pub open spec fn parity_of(dice: (u8, u8)) -> Parity {
    if (dice.0 + dice.1) % 2 == 0 {
        Parity::CHO
    } else {
        Parity::HAN
    }
}

/// The sum of the two faces of a dice pair.
pub fn sum_dice(dice: (u8, u8)) -> (s: u8)
    requires
        valid_dice(dice),
    ensures
        s == dice.0 + dice.1,
{
    dice.0 + dice.1
}

/// Evaluates a dice pair: `Parity::CHO` if and only if the sum of the two
/// faces is even.
pub fn mod_dice(dice: (u8, u8)) -> (p: Parity)
    requires
        valid_dice(dice),
    ensures
        p == parity_of(dice),
        p == Parity::CHO <==> (dice.0 + dice.1) % 2 == 0,
{
    if sum_dice(dice) % 2 == 0 {
        Parity::CHO
    } else {
        Parity::HAN
    }
}

/// Rolls the pair for a round. Relies on rand::random_range over the
/// inclusive range 1 to 6: it returns a value inside a non-empty range.
/// Nothing more is promised of a random draw.
#[verifier::external_body]
pub(crate) fn roll_dice() -> (dice: (u8, u8))
    ensures
        valid_dice(dice),
{
    (rand::random_range(1..=6), rand::random_range(1..=6))
}

/// A guess matches a dice pair exactly when it equals the pair's parity.
pub fn is_bet_correct(dice: (u8, u8), bet: Parity) -> (win: bool)
    requires
        valid_dice(dice),
    ensures
        win == (parity_of(dice) == bet),
{
    if bet == mod_dice(dice) {
        true
    } else {
        false
    }
}

} // verus!
