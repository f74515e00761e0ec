//! The accounting engine: the operations that read and change the ledger.

use vstd::prelude::*;
use crate::account::AccountId;
use crate::currency::Currency;
use crate::error::Error;
use crate::ledger::Ledger;
use crate::model::{borrow_step, lend_step, pay_interest_step, withdraw_step, LedgerState};
use crate::policy::{interest_on, InterestPolicy};
use crate::position::{Balance, Borrow, Lend, PositionKey, Timestamp};

verus! {

/// An outbound payment the host is asked to make once a withdrawal has been booked.
#[derive(Clone, Copy, Debug)]
pub struct Transfer {
    /// Who is to be paid.
    pub to: AccountId,
    /// How much.
    pub amount: Balance,
}

impl Transfer {
    /// Turns the host's report on this payment into the outcome of the withdrawal:
    /// `TransferFailed` where it was not delivered. The ledger already shows the withdrawal
    /// either way.
    pub fn settle(self, delivered: bool) -> (r: Result<(), Error>)
        ensures
            r == (if delivered {
                Ok::<(), Error>(())
            } else {
                Err::<(), Error>(Error::TransferFailed)
            }),
    {
        if delivered {
            Ok(())
        } else {
            Err(Error::TransferFailed)
        }
    }
}

/// The engine. It alone owns the ledger, and every change to it is one of the operations
/// below, each applied whole or not at all.
#[derive(Debug)]
pub struct BitleaseContract {
    ledger: Ledger,
    policy: InterestPolicy,
}

impl View for BitleaseContract {
    type V = LedgerState;

    open spec fn view(&self) -> LedgerState {
        self.stored()@
    }
}

impl BitleaseContract {
    /// The ledger this engine owns.
    pub closed spec fn stored(&self) -> Ledger {
        self.ledger
    }

    /// The ledger is well formed and the policy's rate is a percentage.
    pub open spec fn wf(&self) -> bool {
        self.stored().wf() && self.policy().wf()
    }

    /// The policy that sets the rate of new positions.
    pub closed spec fn policy(&self) -> InterestPolicy {
        self.policy
    }

    /// An engine over an empty ledger, with the default policy.
    pub fn new() -> (r: Self)
        ensures
            r.wf(),
            r@ == LedgerState::empty(),
            r.policy().percent() == crate::policy::DEFAULT_RATE,
    {
        BitleaseContract { ledger: Ledger::new(), policy: InterestPolicy::standard() }
    }

    /// An engine over a stored ledger, with the given policy.
    pub fn resume(ledger: Ledger, policy: InterestPolicy) -> (r: Self)
        requires
            ledger.wf(),
            policy.wf(),
        ensures
            r.wf(),
            r.stored() == ledger,
            r.policy() == policy,
    {
        BitleaseContract { ledger, policy }
    }

    /// Read access to the ledger.
    pub fn ledger(&self) -> (r: &Ledger)
        ensures
            *r == self.stored(),
    {
        &self.ledger
    }

    /// Gives the ledger back for storing.
    pub fn into_ledger(self) -> (r: Ledger)
        ensures
            r == self.stored(),
    {
        self.ledger
    }

    /// Deposits `amount` of `currency` for `account`; a deposit is more than nothing.
    ///
    /// The lender's principal and the pool both grow by `amount`; a first deposit opens the
    /// position at the policy's rate. Where a sum cannot be represented, `Overflow` is
    /// returned and nothing changes.
    pub fn lend(&mut self, account: AccountId, currency: Currency, amount: Balance) -> (r:
        Result<(), Error>)
        requires
            old(self).wf(),
            amount > 0,
        ensures
            final(self).wf(),
            final(self).policy() == old(self).policy(),
            match lend_step(old(self)@, account, currency, amount, old(self).policy().percent()) {
                Ok(next) => r is Ok && final(self)@ == next,
                Err(e) => r == Err::<(), Error>(e) && final(self)@ == old(self)@,
            },
    {
        let record = match self.ledger.lenders.get(&account, currency) {
            Some(prior) => match prior.amount.checked_add(amount) {
                Some(sum) => Lend {
                    amount: sum,
                    interest_rate: prior.interest_rate,
                    interest_currency: prior.interest_currency,
                },
                None => {
                    return Err(Error::Overflow);
                },
            },
            None => Lend { amount, interest_rate: self.policy.rate(), interest_currency: currency },
        };
        match self.ledger.assets.credit(currency, amount) {
            Ok(()) => {},
            Err(e) => {
                return Err(e);
            },
        }
        self.ledger.lenders.put(account, currency, record);
        Ok(())
    }

    /// Lends `borrow_amount` of `borrow_currency` to `account` against `collateral_amount` of
    /// `collateral_currency`, at host time `now`.
    ///
    /// Collateral and loan must be in one currency (`CurrencyMismatch`), and the pool must hold
    /// the loan (`InsufficientLiquidity`). Then the borrower's principal and collateral grow
    /// and the pool shrinks by the loan; a first loan opens the position at the policy's rate
    /// and at `now`. Where a sum cannot be represented, `Overflow` is returned. A refused loan
    /// changes nothing.
    pub fn borrow(
        &mut self,
        account: AccountId,
        collateral_currency: Currency,
        collateral_amount: Balance,
        borrow_currency: Currency,
        borrow_amount: Balance,
        now: Timestamp,
    ) -> (r: Result<(), Error>)
        requires
            old(self).wf(),
        ensures
            final(self).wf(),
            final(self).policy() == old(self).policy(),
            match borrow_step(
                old(self)@,
                account,
                collateral_currency,
                collateral_amount,
                borrow_currency,
                borrow_amount,
                now,
                old(self).policy().percent(),
            ) {
                Ok(next) => r is Ok && final(self)@ == next,
                Err(e) => r == Err::<(), Error>(e) && final(self)@ == old(self)@,
            },
    {
        if !collateral_currency.same(borrow_currency) {
            return Err(Error::CurrencyMismatch);
        }
        if borrow_amount > self.ledger.assets.get(borrow_currency) {
            return Err(Error::InsufficientLiquidity);
        }
        let record = match self.ledger.borrowers.get(&account, borrow_currency) {
            Some(prior) => {
                let amount: Balance = match prior.amount.checked_add(borrow_amount) {
                    Some(sum) => sum,
                    None => {
                        return Err(Error::Overflow);
                    },
                };
                let collateral: Balance = match prior.collateral.checked_add(collateral_amount) {
                    Some(sum) => sum,
                    None => {
                        return Err(Error::Overflow);
                    },
                };
                Borrow {
                    amount,
                    collateral,
                    collateral_currency: prior.collateral_currency,
                    interest_rate: prior.interest_rate,
                    interest_currency: prior.interest_currency,
                    start: prior.start,
                    close: prior.close,
                }
            },
            None => Borrow {
                amount: borrow_amount,
                collateral: collateral_amount,
                collateral_currency,
                interest_rate: self.policy.rate(),
                interest_currency: borrow_currency,
                start: Some(now),
                close: None,
            },
        };
        match self.ledger.assets.debit(borrow_currency, borrow_amount) {
            Ok(()) => {},
            Err(e) => {
                return Err(e);
            },
        }
        self.ledger.borrowers.put(account, borrow_currency, record);
        Ok(())
    }

    /// Takes `amount` of `currency` out of the deposit of `account`.
    ///
    /// The account must have a lender record (`NotALender`) whose principal covers `amount`
    /// (`InsufficientBalance`), and the pool must hold `amount` (`InsufficientLiquidity`).
    /// Principal and pool shrink by `amount` before anything is paid out: the payment is
    /// returned as a request for the host to carry out. A refused withdrawal changes nothing.
    pub fn withdraw(&mut self, account: AccountId, currency: Currency, amount: Balance) -> (r:
        Result<Transfer, Error>)
        requires
            old(self).wf(),
        ensures
            final(self).wf(),
            final(self).policy() == old(self).policy(),
            match withdraw_step(old(self)@, account, currency, amount) {
                Ok(next) => r == Ok::<Transfer, Error>(Transfer { to: account, amount })
                    && final(self)@ == next,
                Err(e) => r == Err::<Transfer, Error>(e) && final(self)@ == old(self)@,
            },
    {
        let prior = match self.ledger.lenders.get(&account, currency) {
            Some(prior) => prior,
            None => {
                return Err(Error::NotALender);
            },
        };
        if amount > prior.amount {
            return Err(Error::InsufficientBalance);
        }
        match self.ledger.assets.debit(currency, amount) {
            Ok(()) => {},
            Err(e) => {
                return Err(e);
            },
        }
        self.ledger.lenders.put(
            account,
            currency,
            Lend {
                amount: prior.amount - amount,
                interest_rate: prior.interest_rate,
                interest_currency: prior.interest_currency,
            },
        );
        Ok(Transfer { to: account, amount })
    }

    /// Books `paid` as the interest `account` owes on its loan in `currency`.
    ///
    /// The account must have a borrower record (`NotABorrower`), and `paid` must be exactly
    /// the interest due, the principal times the position's rate over a hundred, rounded down
    /// (`InterestMismatch`). Then the interest collected in the position's interest currency
    /// grows by `paid`; where that sum cannot be represented, `Overflow` is returned. A refused
    /// payment changes nothing.
    pub fn pay_interest(&mut self, account: AccountId, currency: Currency, paid: Balance) -> (r:
        Result<(), Error>)
        requires
            old(self).wf(),
        ensures
            final(self).wf(),
            final(self).policy() == old(self).policy(),
            match pay_interest_step(old(self)@, account, currency, paid) {
                Ok(next) => r is Ok && final(self)@ == next,
                Err(e) => r == Err::<(), Error>(e) && final(self)@ == old(self)@,
            },
    {
        let record = match self.ledger.borrowers.get(&account, currency) {
            Some(record) => record,
            None => {
                return Err(Error::NotABorrower);
            },
        };
        match interest_on(record.amount, record.interest_rate) {
            Some(due) => {
                if paid != due {
                    return Err(Error::InterestMismatch);
                }
            },
            None => {
                return Err(Error::InterestMismatch);
            },
        }
        self.ledger.interests.credit(record.interest_currency, paid)
    }

    /// The principal `account` has on deposit in `currency`, or `None` where it has none.
    pub fn getter_lender(&self, account: AccountId, currency: Currency) -> (r: Option<Balance>)
        requires
            self.wf(),
        ensures
            r == self@.lender_balance(PositionKey { account, currency }),
    {
        match self.ledger.lenders.get(&account, currency) {
            Some(record) => if record.amount > 0 {
                Some(record.amount)
            } else {
                None
            },
            None => None,
        }
    }

    /// The principal `account` owes in `currency`, or `None` where it owes nothing.
    pub fn getter_borrower(&self, account: AccountId, currency: Currency) -> (r: Option<Balance>)
        requires
            self.wf(),
        ensures
            r == self@.borrower_balance(PositionKey { account, currency }),
    {
        match self.ledger.borrowers.get(&account, currency) {
            Some(record) => if record.amount > 0 {
                Some(record.amount)
            } else {
                None
            },
            None => None,
        }
    }

    /// The position of `account` in `currency`: the lender's principal if there is one, else
    /// the borrower's, else `None`. The answer depends on the ledger's state alone.
    pub fn get_position(&self, account: AccountId, currency: Currency) -> (r: Option<Balance>)
        requires
            self.wf(),
        ensures
            r == self@.position(PositionKey { account, currency }),
    {
        match self.getter_lender(account, currency) {
            Some(amount) => Some(amount),
            None => self.getter_borrower(account, currency),
        }
    }

    /// What each currency's pool can still lend out.
    pub fn pool_reserve(&self, currency: Currency) -> (r: Balance)
        requires
            self.wf(),
        ensures
            r == self@.pool.of(currency),
    {
        self.ledger.assets.get(currency)
    }

    /// The interest collected so far in `currency`.
    pub fn interest_reserve(&self, currency: Currency) -> (r: Balance)
        requires
            self.wf(),
        ensures
            r == self@.interest.of(currency),
    {
        self.ledger.interests.get(currency)
    }
}

} // verus!
