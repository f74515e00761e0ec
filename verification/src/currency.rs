//! The closed set of assets the ledger can account for.

use vstd::prelude::*;

verus! {

/// An asset the pool can hold. The set is closed: every value of this type is supported.
#[derive(Clone, Copy, Debug, PartialEq, Eq, Structural)]
pub enum Currency {
    ASTAR,
    USDT,
}

impl Currency {
    /// The place of this currency in the enumeration of the supported ones.
    pub open spec fn ordinal(self) -> u8 {
        match self {
            Currency::ASTAR => 0,
            Currency::USDT => 1,
        }
    }

    /// The place of this currency in the enumeration of the supported ones.
    pub fn index(self) -> (r: u8)
        ensures
            r == self.ordinal(),
    {
        match self {
            Currency::ASTAR => 0,
            Currency::USDT => 1,
        }
    }

    /// The currency at place `index` of the enumeration, if there is one.
    pub fn from_index(index: u8) -> (r: Option<Currency>)
        ensures
            match r {
                Some(currency) => currency.ordinal() == index,
                None => forall|currency: Currency| currency.ordinal() != index,
            },
    {
        if index == 0 {
            Some(Currency::ASTAR)
        } else if index == 1 {
            Some(Currency::USDT)
        } else {
            None
        }
    }

    /// Tells whether two currencies are the same asset.
    pub fn same(self, other: Currency) -> (r: bool)
        ensures
            r == (self == other),
    {
        self == other
    }
}

} // verus!
