//! A pooled lending and borrowing ledger with verified accounting rules.

pub mod account;
pub mod book;
pub mod contract;
pub mod currency;
pub mod error;
pub mod laws;
pub mod ledger;
pub mod model;
pub mod policy;
pub mod position;
pub mod reserve;

pub use account::AccountId;
pub use book::PositionBook;
pub use contract::{BitleaseContract, Transfer};
pub use currency::Currency;
pub use error::Error;
pub use ledger::Ledger;
pub use model::LedgerState;
pub use policy::InterestPolicy;
pub use position::{Balance, Borrow, Lend, PositionKey, Timestamp};
pub use reserve::Reserves;
