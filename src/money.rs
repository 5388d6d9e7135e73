use vstd::prelude::*;

verus! {

/// The money a new game starts with.
pub const STARTING_MONEY: u64 = 100;

/// The player's balance, in whole units of the game's currency.
#[derive(Clone, Copy, Debug, PartialEq, Eq, Structural)]
pub struct Money(pub u64);

/// The balance after `amount` is added to `balance`, held at the largest
/// representable balance.
pub open spec fn credited(balance: u64, amount: u64) -> u64 {
    if balance + amount > u64::MAX {
        u64::MAX
    } else {
        (balance + amount) as u64
    }
}

impl Money {
    pub fn new(balance: u64) -> (r: Self)
        ensures
            r.0 == balance,
    {
        Money(balance)
    }

    /// Takes `cost` from the balance when the balance covers it; otherwise
    /// leaves it as it is. Returns whether the money was spent.
    pub fn try_spend(&mut self, cost: u64) -> (r: bool)
        ensures
            r == (old(self).0 >= cost),
            r ==> final(self).0 == old(self).0 - cost,
            !r ==> *final(self) == *old(self),
    {
        if self.0 >= cost {
            self.0 = self.0 - cost;
            true
        } else {
            false
        }
    }

    /// Adds `amount` to the balance, saturating at the largest balance.
    pub fn earn(&mut self, amount: u64)
        ensures
            final(self).0 == credited(old(self).0, amount),
    {
        if self.0 <= u64::MAX - amount {
            self.0 = self.0 + amount;
        } else {
            self.0 = u64::MAX;
        }
    }
}

} // verus!
