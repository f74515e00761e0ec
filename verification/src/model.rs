//! The ledger as a mathematical state, and each operation as a step from one state to the next.
//!
//! A step either yields the next state or names the reason it was refused; a refused step
//! leaves the state as it was.

use vstd::prelude::*;
use crate::account::AccountId;
use crate::currency::Currency;
use crate::error::Error;
use crate::policy::interest_due;
use crate::position::{Balance, Borrow, Lend, PositionKey, Timestamp};
use crate::reserve::Reserves;

verus! {

/// Everything the ledger records.
pub struct LedgerState {
    /// The lender positions, by account and currency.
    pub lenders: Map<PositionKey, Lend>,
    /// The borrower positions, by account and currency borrowed.
    pub borrowers: Map<PositionKey, Borrow>,
    /// What each currency's pool can still lend out.
    pub pool: Reserves,
    /// The interest collected so far in each currency.
    pub interest: Reserves,
}

impl LedgerState {
    /// The state before anything has happened: no positions, nothing in any reserve.
    pub open spec fn empty() -> LedgerState {
        LedgerState {
            lenders: Map::empty(),
            borrowers: Map::empty(),
            pool: Reserves { astar: 0, usdt: 0 },
            interest: Reserves { astar: 0, usdt: 0 },
        }
    }

    /// The principal a lender has on deposit; zero where there is no record.
    pub open spec fn lender_principal(self, key: PositionKey) -> nat {
        if self.lenders.contains_key(key) {
            self.lenders[key].amount as nat
        } else {
            0
        }
    }

    /// The principal a borrower owes; zero where there is no record.
    pub open spec fn borrower_principal(self, key: PositionKey) -> nat {
        if self.borrowers.contains_key(key) {
            self.borrowers[key].amount as nat
        } else {
            0
        }
    }

    /// The collateral a borrower has posted; zero where there is no record.
    pub open spec fn borrower_collateral(self, key: PositionKey) -> nat {
        if self.borrowers.contains_key(key) {
            self.borrowers[key].collateral as nat
        } else {
            0
        }
    }

    /// What a query reports for a lender: the principal, or nothing where it is zero.
    pub open spec fn lender_balance(self, key: PositionKey) -> Option<Balance> {
        if self.lender_principal(key) > 0 {
            Some(self.lenders[key].amount)
        } else {
            None
        }
    }

    /// What a query reports for a borrower: the principal, or nothing where it is zero.
    pub open spec fn borrower_balance(self, key: PositionKey) -> Option<Balance> {
        if self.borrower_principal(key) > 0 {
            Some(self.borrowers[key].amount)
        } else {
            None
        }
    }

    /// What a query reports for a key: the lender's balance if there is one, else the
    /// borrower's.
    pub open spec fn position(self, key: PositionKey) -> Option<Balance> {
        if self.lender_balance(key) is Some {
            self.lender_balance(key)
        } else {
            self.borrower_balance(key)
        }
    }

    /// Every position carries a rate that is a percentage and is denominated in the currency
    /// it is filed under.
    pub open spec fn sound(self) -> bool {
        &&& forall|key: PositionKey| #[trigger]
            self.lenders.contains_key(key) ==> {
                &&& self.lenders[key].interest_rate <= 100
                &&& self.lenders[key].interest_currency == key.currency
            }
        &&& forall|key: PositionKey| #[trigger]
            self.borrowers.contains_key(key) ==> {
                &&& self.borrowers[key].interest_rate <= 100
                &&& self.borrowers[key].interest_currency == key.currency
                &&& self.borrowers[key].collateral_currency == key.currency
            }
    }
}

/// A deposit of `amount` by `account` into the pool of `currency`.
///
/// The lender's principal and the pool grow by `amount`. A first deposit opens the position at
/// `rate`; later ones keep its terms. Refused with `Overflow` where either sum cannot be
/// represented.
pub open spec fn lend_step(
    s: LedgerState,
    account: AccountId,
    currency: Currency,
    amount: Balance,
    rate: u32,
) -> Result<LedgerState, Error> {
    let key = PositionKey { account, currency };
    if s.lender_principal(key) + amount > Balance::MAX || s.pool.of(currency) + amount
        > Balance::MAX {
        Err(Error::Overflow)
    } else {
        let record = if s.lenders.contains_key(key) {
            Lend {
                amount: (s.lenders[key].amount + amount) as Balance,
                interest_rate: s.lenders[key].interest_rate,
                interest_currency: s.lenders[key].interest_currency,
            }
        } else {
            Lend { amount, interest_rate: rate, interest_currency: currency }
        };
        Ok(
            LedgerState {
                lenders: s.lenders.insert(key, record),
                borrowers: s.borrowers,
                pool: s.pool.with(currency, (s.pool.of(currency) + amount) as Balance),
                interest: s.interest,
            },
        )
    }
}

/// A loan of `borrow_amount` to `account`, against `collateral_amount` of collateral.
///
/// Refused with `CurrencyMismatch` unless collateral and loan are in one currency, then with
/// `InsufficientLiquidity` where the pool holds less than the loan, then with `Overflow` where
/// the borrower's principal or collateral cannot be represented. Otherwise the borrower's
/// principal and collateral grow and the pool shrinks by the loan. A first loan opens the
/// position at `rate` and at time `now`; later ones keep its terms.
pub open spec fn borrow_step(
    s: LedgerState,
    account: AccountId,
    collateral_currency: Currency,
    collateral_amount: Balance,
    borrow_currency: Currency,
    borrow_amount: Balance,
    now: Timestamp,
    rate: u32,
) -> Result<LedgerState, Error> {
    let key = PositionKey { account, currency: borrow_currency };
    if collateral_currency != borrow_currency {
        Err(Error::CurrencyMismatch)
    } else if borrow_amount > s.pool.of(borrow_currency) {
        Err(Error::InsufficientLiquidity)
    } else if s.borrowers.contains_key(key) && (s.borrowers[key].amount + borrow_amount
        > Balance::MAX || s.borrowers[key].collateral + collateral_amount > Balance::MAX) {
        Err(Error::Overflow)
    } else {
        let record = if s.borrowers.contains_key(key) {
            Borrow {
                amount: (s.borrowers[key].amount + borrow_amount) as Balance,
                collateral: (s.borrowers[key].collateral + collateral_amount) as Balance,
                collateral_currency: s.borrowers[key].collateral_currency,
                interest_rate: s.borrowers[key].interest_rate,
                interest_currency: s.borrowers[key].interest_currency,
                start: s.borrowers[key].start,
                close: s.borrowers[key].close,
            }
        } else {
            Borrow {
                amount: borrow_amount,
                collateral: collateral_amount,
                collateral_currency,
                interest_rate: rate,
                interest_currency: borrow_currency,
                start: Some(now),
                close: None,
            }
        };
        Ok(
            LedgerState {
                lenders: s.lenders,
                borrowers: s.borrowers.insert(key, record),
                pool: s.pool.with(
                    borrow_currency,
                    (s.pool.of(borrow_currency) - borrow_amount) as Balance,
                ),
                interest: s.interest,
            },
        )
    }
}

/// A withdrawal of `amount` by the lender `account` from the pool of `currency`.
///
/// Refused with `NotALender` where the account has no lender record for the currency, then
/// with `InsufficientBalance` where `amount` exceeds the principal, then with
/// `InsufficientLiquidity` where the pool holds less than `amount`. Otherwise principal and
/// pool shrink by `amount`.
pub open spec fn withdraw_step(
    s: LedgerState,
    account: AccountId,
    currency: Currency,
    amount: Balance,
) -> Result<LedgerState, Error> {
    let key = PositionKey { account, currency };
    if !s.lenders.contains_key(key) {
        Err(Error::NotALender)
    } else if amount > s.lenders[key].amount {
        Err(Error::InsufficientBalance)
    } else if amount > s.pool.of(currency) {
        Err(Error::InsufficientLiquidity)
    } else {
        Ok(
            LedgerState {
                lenders: s.lenders.insert(
                    key,
                    Lend {
                        amount: (s.lenders[key].amount - amount) as Balance,
                        interest_rate: s.lenders[key].interest_rate,
                        interest_currency: s.lenders[key].interest_currency,
                    },
                ),
                borrowers: s.borrowers,
                pool: s.pool.with(currency, (s.pool.of(currency) - amount) as Balance),
                interest: s.interest,
            },
        )
    }
}

/// A payment of `paid` as interest by the borrower `account` on the loan in `currency`.
///
/// Refused with `NotABorrower` where the account has no borrower record for the currency, then
/// with `InterestMismatch` unless `paid` is exactly the interest due on the principal at the
/// position's rate, then with `Overflow` where the interest collected cannot be represented.
/// Otherwise the interest collected in the position's interest currency grows by `paid`.
pub open spec fn pay_interest_step(
    s: LedgerState,
    account: AccountId,
    currency: Currency,
    paid: Balance,
) -> Result<LedgerState, Error> {
    let key = PositionKey { account, currency };
    if !s.borrowers.contains_key(key) {
        Err(Error::NotABorrower)
    } else {
        let record = s.borrowers[key];
        if paid as nat != interest_due(record.amount as nat, record.interest_rate as nat) {
            Err(Error::InterestMismatch)
        } else if s.interest.of(record.interest_currency) + paid > Balance::MAX {
            Err(Error::Overflow)
        } else {
            Ok(
                LedgerState {
                    lenders: s.lenders,
                    borrowers: s.borrowers,
                    pool: s.pool,
                    interest: s.interest.with(
                        record.interest_currency,
                        (s.interest.of(record.interest_currency) + paid) as Balance,
                    ),
                },
            )
        }
    }
}

/// One call of an operation, with its arguments.
pub enum Op {
    /// A deposit.
    Lend { account: AccountId, currency: Currency, amount: Balance },
    /// A loan against collateral, at host time `now`.
    Borrow {
        account: AccountId,
        collateral_currency: Currency,
        collateral_amount: Balance,
        borrow_currency: Currency,
        borrow_amount: Balance,
        now: Timestamp,
    },
    /// A withdrawal from a deposit.
    Withdraw { account: AccountId, currency: Currency, amount: Balance },
    /// A payment of interest on a loan.
    PayInterest { account: AccountId, currency: Currency, paid: Balance },
}

impl Op {
    /// This call is a deposit or a loan filed under `key`: the two calls that can open a
    /// position there.
    pub open spec fn opens(self, key: PositionKey) -> bool {
        match self {
            Op::Lend { account, currency, .. } => key == (PositionKey { account, currency }),
            Op::Borrow { account, borrow_currency, .. } => key == (PositionKey {
                account,
                currency: borrow_currency,
            }),
            _ => false,
        }
    }
}

/// The step that the call `op` takes from `s`, under a policy of `rate` percent.
pub open spec fn step(s: LedgerState, op: Op, rate: u32) -> Result<LedgerState, Error> {
    match op {
        Op::Lend { account, currency, amount } => lend_step(s, account, currency, amount, rate),
        Op::Borrow {
            account,
            collateral_currency,
            collateral_amount,
            borrow_currency,
            borrow_amount,
            now,
        } => borrow_step(
            s,
            account,
            collateral_currency,
            collateral_amount,
            borrow_currency,
            borrow_amount,
            now,
            rate,
        ),
        Op::Withdraw { account, currency, amount } => withdraw_step(s, account, currency, amount),
        Op::PayInterest { account, currency, paid } => pay_interest_step(
            s,
            account,
            currency,
            paid,
        ),
    }
}

/// The state once the call `op` has returned: the next state, or `s` itself where the call was
/// refused.
pub open spec fn after(s: LedgerState, op: Op, rate: u32) -> LedgerState {
    match step(s, op, rate) {
        Ok(next) => next,
        Err(_) => s,
    }
}

/// The state once the calls `ops` have returned, one after the other.
pub open spec fn run(s: LedgerState, ops: Seq<Op>, rate: u32) -> LedgerState
    decreases ops.len(),
{
    if ops.len() == 0 {
        s
    } else {
        after(run(s, ops.drop_last(), rate), ops.last(), rate)
    }
}

/// The sum of `amounts`.
pub open spec fn total(amounts: Seq<Balance>) -> nat
    decreases amounts.len(),
{
    if amounts.len() == 0 {
        0
    } else {
        total(amounts.drop_last()) + amounts.last() as nat
    }
}

/// Deposits of `amounts`, in turn, by one account into one currency: the state after the last,
/// or the refusal of the first that was refused.
pub open spec fn lend_all(
    s: LedgerState,
    account: AccountId,
    currency: Currency,
    amounts: Seq<Balance>,
    rate: u32,
) -> Result<LedgerState, Error>
    decreases amounts.len(),
{
    if amounts.len() == 0 {
        Ok(s)
    } else {
        match lend_all(s, account, currency, amounts.drop_last(), rate) {
            Ok(mid) => lend_step(mid, account, currency, amounts.last(), rate),
            Err(e) => Err(e),
        }
    }
}

} // verus!
