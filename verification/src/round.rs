//! Round resolution: the controller's `Resolving` state. A placed bet and
//! a guess meet the rolled dice; a win credits the bet minus the 10% house
//! fee, a loss debits the bet, and a loss that empties the purse ends the
//! game in bankruptcy.

use vstd::prelude::*;

use crate::dice::{is_bet_correct, parity_of, roll_dice, valid_dice, Parity};
use crate::purse::{is_game_over, Purse};

verus! {

/// What a resolved round reports: the revealed dice, whether the guess
/// matched, the house fee collected on a win, and whether the loss
/// emptied the purse.
#[derive(Clone, Copy, Debug)]
pub struct RoundOutcome {
    pub dice: (u8, u8),
    pub win: bool,
    pub fee: u64,
    pub game_over: bool,
}

/// The outcome relates the dice, the guess, the fee and the purse as the
/// game's rules demand, for a round bet from `before` down to the purse
/// now holding `after`.
pub open spec fn round_resolved(
    before: u64,
    after: u64,
    bet: u64,
    guess: Parity,
    r: RoundOutcome,
) -> bool {
    &&& valid_dice(r.dice)
    &&& r.win == (parity_of(r.dice) == guess)
    &&& r.win ==> r.fee == bet / 10 && after == before + bet - bet / 10
    &&& !r.win ==> r.fee == 0 && after == before - bet
    &&& r.game_over == (after == 0)
}

/// Resolves a round on given dice: a win pays the bet minus the truncated
/// 10% fee, a loss forfeits the bet, and a loss that leaves the purse
/// empty ends the game.
pub fn resolve_round(purse: &mut Purse, bet: u64, dice: (u8, u8), guess: Parity) -> (r:
    RoundOutcome)
    requires
        valid_dice(dice),
        1 <= bet <= old(purse).0,
        old(purse).0 + bet <= u64::MAX,
    ensures
        r.dice == dice,
        round_resolved(old(purse).0, final(purse).0, bet, guess, r),
{
    let win = is_bet_correct(dice, guess);
    if win {
        let fee = bet / 10;
        purse.adjust(bet - fee, true);
        RoundOutcome { dice, win, fee, game_over: false }
    } else {
        purse.adjust(bet, false);
        let game_over = is_game_over(purse);
        RoundOutcome { dice, win, fee: 0u64, game_over }
    }
}

/// Plays out a round once the bet and the guess are in: rolls the dice
/// and resolves against them. Whatever pair the roll produces, the
/// outcome and the purse obey the round's rules for that pair.
pub fn play_round(purse: &mut Purse, bet: u64, guess: Parity) -> (r: RoundOutcome)
    requires
        1 <= bet <= old(purse).0,
        old(purse).0 + bet <= u64::MAX,
    ensures
        round_resolved(old(purse).0, final(purse).0, bet, guess, r),
{
    let dice = roll_dice();
    resolve_round(purse, bet, dice, guess)
}

} // verus!
