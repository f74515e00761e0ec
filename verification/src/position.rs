//! The records the ledger keeps for each participant.

use vstd::prelude::*;
use crate::account::AccountId;
use crate::currency::Currency;

verus! {

/// An amount of an asset, in its smallest unit.
pub type Balance = u128;

/// A point in host time.
pub type Timestamp = u64;

/// What names a position: who holds it, and in which currency.
#[derive(Clone, Copy, Debug)]
pub struct PositionKey {
    pub account: AccountId,
    pub currency: Currency,
}

/// A lender's position: what they have deposited and the terms fixed when it was opened.
#[derive(Clone, Copy, Debug, PartialEq, Eq, Structural)]
pub struct Lend {
    /// The principal currently on deposit.
    pub amount: Balance,
    /// Interest in percent, fixed when the position was opened.
    pub interest_rate: u32,
    /// The currency interest is paid in.
    pub interest_currency: Currency,
}

/// A borrower's position: what they owe, what they posted, and the terms fixed when it was
/// opened.
#[derive(Clone, Copy, Debug, PartialEq, Eq)]
pub struct Borrow {
    /// The principal currently owed.
    pub amount: Balance,
    /// The collateral posted so far.
    pub collateral: Balance,
    /// The currency the collateral was posted in.
    pub collateral_currency: Currency,
    /// Interest in percent, fixed when the position was opened.
    pub interest_rate: u32,
    /// The currency interest is paid in.
    pub interest_currency: Currency,
    /// When the position was opened.
    pub start: Option<Timestamp>,
    /// When the position was closed, if it has been.
    pub close: Option<Timestamp>,
}

} // verus!
