//! The purse: the player's balance of mon, adjusted after each round, and
//! the bankruptcy check that ends the game.

use vstd::prelude::*;

verus! {

/// The player's purse, holding a non-negative balance of mon.
pub struct Purse(pub u64);

impl Purse {
    /// Applies a round's outcome to the balance: credit `bet` on a win,
    /// debit `bet` on a loss. Callers never debit more than the balance,
    /// because bets are capped at the balance when they are placed.
    pub fn adjust(&mut self, bet: u64, is_positive: bool)
        requires
            is_positive ==> old(self).0 + bet <= u64::MAX,
            !is_positive ==> bet <= old(self).0,
        ensures
            is_positive ==> final(self).0 == old(self).0 + bet,
            !is_positive ==> final(self).0 == old(self).0 - bet,
    {
        if is_positive {
            self.0 += bet
        } else {
            self.0 -= bet
        }
    }
}

/// The game is over exactly when the purse is empty.
pub fn is_game_over(purse: &Purse) -> (over: bool)
    ensures
        over == (purse.0 == 0),
{
    if purse.0 == 0 {
        true
    } else {
        false
    }
}

} // verus!
