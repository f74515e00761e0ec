//! The ledger's stored state: two books of positions and two sets of reserves.

use vstd::prelude::*;
use crate::book::PositionBook;
use crate::model::LedgerState;
use crate::position::{Borrow, Lend};
use crate::reserve::Reserves;

verus! {

/// The stored state. It holds data and validates nothing beyond keeping one record per key;
/// the rules are the engine's.
#[derive(Debug)]
pub struct Ledger {
    /// The lender positions.
    pub lenders: PositionBook<Lend>,
    /// The borrower positions.
    pub borrowers: PositionBook<Borrow>,
    /// What each currency's pool can still lend out.
    pub assets: Reserves,
    /// The interest collected so far in each currency.
    pub interests: Reserves,
}

impl View for Ledger {
    type V = LedgerState;

    open spec fn view(&self) -> LedgerState {
        LedgerState {
            lenders: self.lenders@,
            borrowers: self.borrowers@,
            pool: self.assets,
            interest: self.interests,
        }
    }
}

impl Ledger {
    /// Both books keep one record per key.
    pub open spec fn wf(&self) -> bool {
        self.lenders.wf() && self.borrowers.wf()
    }

    /// A ledger without positions and with nothing in any reserve.
    pub fn new() -> (r: Ledger)
        ensures
            r.wf(),
            r@ == LedgerState::empty(),
    {
        Ledger {
            lenders: PositionBook::new(),
            borrowers: PositionBook::new(),
            assets: Reserves::new(),
            interests: Reserves::new(),
        }
    }
}

} // verus!
