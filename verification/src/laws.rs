//! What holds of the operations, whatever the state and the arguments.

use vstd::prelude::*;
use crate::account::AccountId;
use crate::currency::Currency;
use crate::error::Error;
use crate::model::{
    after, borrow_step, lend_all, pay_interest_step, run, total, withdraw_step, LedgerState, Op,
};
use crate::policy::interest_due;
use crate::position::{Balance, PositionKey, Timestamp};

verus! {

/// Deposits add up: a run of deposits by one account into one currency goes through exactly
/// when principal and pool can each hold their old amount plus the sum of the deposits, and
/// then both have grown by that sum.
pub proof fn lemma_lends_add_up(
    s: LedgerState,
    account: AccountId,
    currency: Currency,
    amounts: Seq<Balance>,
    rate: u32,
)
    ensures
        lend_all(s, account, currency, amounts, rate) is Ok <==> (s.lender_principal(
            PositionKey { account, currency },
        ) + total(amounts) <= Balance::MAX && s.pool.of(currency) + total(amounts)
            <= Balance::MAX),
        lend_all(s, account, currency, amounts, rate) matches Ok(end) ==> {
            &&& end.lender_principal(PositionKey { account, currency }) == s.lender_principal(
                PositionKey { account, currency },
            ) + total(amounts)
            &&& end.pool.of(currency) == s.pool.of(currency) + total(amounts)
        },
        lend_all(s, account, currency, amounts, rate) matches Err(e) ==> e == Error::Overflow,
    decreases amounts.len(),
{
    if amounts.len() > 0 {
        lemma_lends_add_up(s, account, currency, amounts.drop_last(), rate);
    }
}

/// A loan whose collateral is in another currency than the loan is refused with
/// `CurrencyMismatch`, and the state stays as it was.
pub proof fn lemma_mismatch_is_refused(
    s: LedgerState,
    account: AccountId,
    collateral_currency: Currency,
    collateral_amount: Balance,
    borrow_currency: Currency,
    borrow_amount: Balance,
    now: Timestamp,
    rate: u32,
)
    requires
        collateral_currency != borrow_currency,
    ensures
        borrow_step(
            s,
            account,
            collateral_currency,
            collateral_amount,
            borrow_currency,
            borrow_amount,
            now,
            rate,
        ) == Err::<LedgerState, Error>(Error::CurrencyMismatch),
        after(
            s,
            Op::Borrow {
                account,
                collateral_currency,
                collateral_amount,
                borrow_currency,
                borrow_amount,
                now,
            },
            rate,
        ) == s,
{
}

/// A loan in one currency is refused with `InsufficientLiquidity` exactly when it is larger
/// than the pool. A loan that the pool covers goes through unless the borrower's principal or
/// collateral would leave the representable range; then principal and collateral have grown by
/// what was lent and posted, the pool has shrunk by the loan, and the other pools are
/// untouched.
pub proof fn lemma_borrow_needs_liquidity(
    s: LedgerState,
    account: AccountId,
    currency: Currency,
    collateral_amount: Balance,
    borrow_amount: Balance,
    now: Timestamp,
    rate: u32,
)
    ensures
        borrow_step(s, account, currency, collateral_amount, currency, borrow_amount, now, rate)
            == Err::<LedgerState, Error>(Error::InsufficientLiquidity) <==> borrow_amount
            > s.pool.of(currency),
        borrow_amount <= s.pool.of(currency) ==> (borrow_step(
            s,
            account,
            currency,
            collateral_amount,
            currency,
            borrow_amount,
            now,
            rate,
        ) is Ok <==> (s.borrower_principal(PositionKey { account, currency }) + borrow_amount
            <= Balance::MAX && s.borrower_collateral(PositionKey { account, currency })
            + collateral_amount <= Balance::MAX)),
        borrow_step(
            s,
            account,
            currency,
            collateral_amount,
            currency,
            borrow_amount,
            now,
            rate,
        ) matches Ok(next) ==> {
            &&& next.pool.of(currency) == s.pool.of(currency) - borrow_amount
            &&& forall|other: Currency| other != currency ==> next.pool.of(other) == s.pool.of(other)
            &&& next.borrower_principal(PositionKey { account, currency })
                == s.borrower_principal(PositionKey { account, currency }) + borrow_amount
            &&& next.borrower_collateral(PositionKey { account, currency })
                == s.borrower_collateral(PositionKey { account, currency }) + collateral_amount
        },
{
}

/// A lender who asks for more than their principal is refused with `InsufficientBalance`, and
/// a withdrawal that goes through leaves the principal it took from, less the amount: never
/// below zero.
pub proof fn lemma_withdraw_within_principal(
    s: LedgerState,
    account: AccountId,
    currency: Currency,
    amount: Balance,
)
    requires
        s.lenders.contains_key(PositionKey { account, currency }),
    ensures
        amount > s.lender_principal(PositionKey { account, currency }) <==> withdraw_step(
            s,
            account,
            currency,
            amount,
        ) == Err::<LedgerState, Error>(Error::InsufficientBalance),
        withdraw_step(s, account, currency, amount) matches Ok(next) ==> {
            &&& amount <= s.lender_principal(PositionKey { account, currency })
            &&& next.lender_principal(PositionKey { account, currency }) == s.lender_principal(
                PositionKey { account, currency },
            ) - amount
            &&& next.pool.of(currency) == s.pool.of(currency) - amount
        },
{
}

/// Without a lender record a withdrawal is refused with `NotALender`, whatever the amount.
pub proof fn lemma_withdraw_needs_lender(
    s: LedgerState,
    account: AccountId,
    currency: Currency,
    amount: Balance,
)
    requires
        !s.lenders.contains_key(PositionKey { account, currency }),
    ensures
        withdraw_step(s, account, currency, amount) == Err::<LedgerState, Error>(
            Error::NotALender,
        ),
{
}

/// A borrower's interest payment goes through exactly when it is the interest due, provided
/// the interest collected can hold it; then the interest collected in the loan's currency has
/// grown by the payment and nothing else has changed.
pub proof fn lemma_interest_must_match(
    s: LedgerState,
    account: AccountId,
    currency: Currency,
    paid: Balance,
)
    requires
        s.sound(),
        s.borrowers.contains_key(PositionKey { account, currency }),
        s.interest.of(currency) + paid <= Balance::MAX,
    ensures
        pay_interest_step(s, account, currency, paid) is Ok <==> paid as nat == interest_due(
            s.borrower_principal(PositionKey { account, currency }),
            s.borrowers[PositionKey { account, currency }].interest_rate as nat,
        ),
        pay_interest_step(s, account, currency, paid) matches Ok(next) ==> {
            &&& next.interest.of(currency) == s.interest.of(currency) + paid
            &&& forall|other: Currency|
                other != currency ==> next.interest.of(other) == s.interest.of(other)
            &&& next.pool == s.pool
            &&& next.lenders == s.lenders
            &&& next.borrowers == s.borrowers
        },
        pay_interest_step(s, account, currency, paid) matches Err(e) ==> e
            == Error::InterestMismatch,
{
}

/// At a rate that is a percentage the interest due never exceeds the principal, so an exact
/// payment can always be made.
pub proof fn lemma_interest_within_principal(principal: Balance, rate: u32)
    requires
        rate <= 100,
    ensures
        interest_due(principal as nat, rate as nat) <= principal,
{
    assert(principal * rate <= principal * 100) by (nonlinear_arith)
        requires
            rate <= 100,
            principal >= 0,
    ;
}

/// A key that no deposit and no loan was ever filed under has no position: whatever else was
/// called in between, a query for it reports nothing.
pub proof fn lemma_untouched_is_absent(s: LedgerState, ops: Seq<Op>, key: PositionKey, rate: u32)
    requires
        !s.lenders.contains_key(key),
        !s.borrowers.contains_key(key),
        forall|i: int| 0 <= i < ops.len() ==> !(#[trigger] ops[i]).opens(key),
    ensures
        !run(s, ops, rate).lenders.contains_key(key),
        !run(s, ops, rate).borrowers.contains_key(key),
        run(s, ops, rate).position(key) is None,
    decreases ops.len(),
{
    if ops.len() > 0 {
        lemma_untouched_is_absent(s, ops.drop_last(), key, rate);
        assert(!ops[ops.len() - 1].opens(key));
    }
}

/// The terms of a position are fixed when it is opened: no call changes the rate or the
/// interest currency of a position that exists, nor a loan's collateral currency or opening
/// time, and no call removes a position.
pub proof fn lemma_terms_are_fixed(s: LedgerState, op: Op, key: PositionKey, rate: u32)
    ensures
        s.lenders.contains_key(key) ==> {
            &&& after(s, op, rate).lenders.contains_key(key)
            &&& after(s, op, rate).lenders[key].interest_rate == s.lenders[key].interest_rate
            &&& after(s, op, rate).lenders[key].interest_currency
                == s.lenders[key].interest_currency
        },
        s.borrowers.contains_key(key) ==> {
            &&& after(s, op, rate).borrowers.contains_key(key)
            &&& after(s, op, rate).borrowers[key].interest_rate == s.borrowers[key].interest_rate
            &&& after(s, op, rate).borrowers[key].interest_currency
                == s.borrowers[key].interest_currency
            &&& after(s, op, rate).borrowers[key].collateral_currency
                == s.borrowers[key].collateral_currency
            &&& after(s, op, rate).borrowers[key].start == s.borrowers[key].start
            &&& after(s, op, rate).borrowers[key].amount >= s.borrowers[key].amount
            &&& after(s, op, rate).borrowers[key].collateral >= s.borrowers[key].collateral
        },
{
}

/// Soundness is kept: in the empty state, and after any call from a sound state under a policy
/// whose rate is a percentage, every position carries a percentage as its rate and is
/// denominated in the currency it is filed under.
pub proof fn lemma_step_keeps_sound(s: LedgerState, op: Op, rate: u32)
    requires
        s.sound(),
        rate <= 100,
    ensures
        LedgerState::empty().sound(),
        after(s, op, rate).sound(),
{
}

/// Soundness is kept over any number of calls.
pub proof fn lemma_run_keeps_sound(s: LedgerState, ops: Seq<Op>, rate: u32)
    requires
        s.sound(),
        rate <= 100,
    ensures
        run(s, ops, rate).sound(),
    decreases ops.len(),
{
    if ops.len() > 0 {
        lemma_run_keeps_sound(s, ops.drop_last(), rate);
        lemma_step_keeps_sound(run(s, ops.drop_last(), rate), ops.last(), rate);
    }
}

} // verus!
