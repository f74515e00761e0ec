//! Per-currency totals: what the pool can lend out, and the interest it has collected.

use vstd::prelude::*;
use crate::currency::Currency;
use crate::error::Error;
use crate::position::Balance;

verus! {

/// One amount for each supported currency.
#[derive(Clone, Copy, Debug, PartialEq, Eq, Structural)]
pub struct Reserves {
    pub astar: Balance,
    pub usdt: Balance,
}

impl Reserves {
    /// The amount held in `currency`.
    pub open spec fn of(self, currency: Currency) -> nat {
        match currency {
            Currency::ASTAR => self.astar as nat,
            Currency::USDT => self.usdt as nat,
        }
    }

    /// These reserves with the amount in `currency` replaced by `amount`.
    pub open spec fn with(self, currency: Currency, amount: Balance) -> Reserves {
        match currency {
            Currency::ASTAR => (Reserves { astar: amount, usdt: self.usdt }),
            Currency::USDT => (Reserves { astar: self.astar, usdt: amount }),
        }
    }

    /// Reserves that hold nothing in any currency.
    pub fn new() -> (r: Reserves)
        ensures
            forall|c: Currency| r.of(c) == 0,
            r == (Reserves { astar: 0, usdt: 0 }),
    {
        Reserves { astar: 0, usdt: 0 }
    }

    /// Reads the amount held in `currency`.
    pub fn get(&self, currency: Currency) -> (r: Balance)
        ensures
            r == self.of(currency),
    {
        match currency {
            Currency::ASTAR => self.astar,
            Currency::USDT => self.usdt,
        }
    }

    /// Replaces the amount held in `currency`; the other currencies keep theirs.
    pub fn set(&mut self, currency: Currency, amount: Balance)
        ensures
            *final(self) == old(self).with(currency, amount),
    {
        match currency {
            Currency::ASTAR => {
                self.astar = amount;
            },
            Currency::USDT => {
                self.usdt = amount;
            },
        }
    }

    /// Adds `amount` to what is held in `currency`, unless the sum cannot be represented: then
    /// nothing changes and `Overflow` is reported.
    pub fn credit(&mut self, currency: Currency, amount: Balance) -> (r: Result<(), Error>)
        ensures
            old(self).of(currency) + amount <= Balance::MAX ==> r is Ok && *final(self) == old(
                self,
            ).with(currency, (old(self).of(currency) + amount) as Balance),
            old(self).of(currency) + amount > Balance::MAX ==> r == Err::<(), Error>(
                Error::Overflow,
            ) && *final(self) == *old(self),
    {
        match self.get(currency).checked_add(amount) {
            Some(sum) => {
                self.set(currency, sum);
                Ok(())
            },
            None => Err(Error::Overflow),
        }
    }

    /// Takes `amount` out of what is held in `currency`, unless less than that is held: then
    /// nothing changes and `InsufficientLiquidity` is reported.
    pub fn debit(&mut self, currency: Currency, amount: Balance) -> (r: Result<(), Error>)
        ensures
            amount <= old(self).of(currency) ==> r is Ok && *final(self) == old(self).with(
                currency,
                (old(self).of(currency) - amount) as Balance,
            ),
            amount > old(self).of(currency) ==> r == Err::<(), Error>(
                Error::InsufficientLiquidity,
            ) && *final(self) == *old(self),
    {
        let held: Balance = self.get(currency);
        if amount <= held {
            self.set(currency, held - amount);
            Ok(())
        } else {
            Err(Error::InsufficientLiquidity)
        }
    }
}

} // verus!
