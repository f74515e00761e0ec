//! The ways an operation on the ledger can be turned down.

use vstd::prelude::*;

verus! {

/// Why an operation was refused. Every refusal is reported to the caller; none aborts.
#[derive(Clone, Copy, Debug, PartialEq, Eq, Structural)]
pub enum Error {
    /// Collateral and borrowed asset are not the same currency.
    CurrencyMismatch,
    /// The pool holds less of the currency than was asked for.
    InsufficientLiquidity,
    /// A lender asked for more than their principal.
    InsufficientBalance,
    /// The account has no lender position in the currency.
    NotALender,
    /// The account has no borrower position in the currency.
    NotABorrower,
    /// The interest paid is not the interest due.
    InterestMismatch,
    /// The host could not deliver an outbound transfer.
    TransferFailed,
    /// An amount would leave the representable range.
    Overflow,
}

} // verus!
