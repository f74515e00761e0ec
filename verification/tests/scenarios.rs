use bitlease::{AccountId, BitleaseContract, Currency, Error};

fn alice() -> AccountId {
    AccountId::new([1u8; 32])
}

fn bob() -> AccountId {
    AccountId::new([2u8; 32])
}

#[test]
fn lend_works() {
    let alice = alice();
    let mut contract = BitleaseContract::new();
    let currency = Currency::USDT;
    assert_eq!(contract.lend(alice, currency, 100), Ok(()));
    assert_eq!(contract.get_position(alice, currency).unwrap(), 100);
}

#[test]
fn lend_works2() {
    let alice = alice();
    let mut contract = BitleaseContract::new();
    let currency = Currency::USDT;
    assert_eq!(contract.lend(alice, currency, 300), Ok(()));
    assert_eq!(contract.get_position(alice, currency).unwrap(), 300);
}

#[test]
fn borrow_works() {
    let bob = bob();
    let mut contract = BitleaseContract::new();
    let downpayment_currency = Currency::USDT;
    let borrow_currency = Currency::USDT;
    assert_eq!(contract.lend(alice(), borrow_currency, 3000), Ok(()));
    assert_eq!(
        contract.borrow(bob, downpayment_currency, 1000, borrow_currency, 3000, 0),
        Ok(())
    );
    assert_eq!(contract.get_position(bob, downpayment_currency).unwrap(), 3000);
}

#[test]
fn withdraw_works() {
    let alice = alice();
    let mut contract = BitleaseContract::new();
    let currency = Currency::USDT;
    assert_eq!(contract.lend(alice, currency, 100), Ok(()));
    assert!(contract.withdraw(alice, currency, 20).is_ok());
    assert_eq!(contract.get_position(alice, currency).unwrap(), 80);
}

#[test]
fn two_deposits_add_up() {
    let mut contract = BitleaseContract::new();
    assert_eq!(contract.lend(alice(), Currency::USDT, 100), Ok(()));
    assert_eq!(contract.lend(alice(), Currency::USDT, 300), Ok(()));
    assert_eq!(contract.getter_lender(alice(), Currency::USDT), Some(400));
    assert_eq!(contract.get_position(alice(), Currency::USDT), Some(400));
    assert_eq!(contract.pool_reserve(Currency::USDT), 400);
    assert_eq!(contract.pool_reserve(Currency::ASTAR), 0);
}

#[test]
fn loan_larger_than_pool_is_refused() {
    let mut contract = BitleaseContract::new();
    assert_eq!(contract.lend(alice(), Currency::USDT, 400), Ok(()));
    assert_eq!(
        contract.borrow(bob(), Currency::USDT, 1000, Currency::USDT, 3000, 5),
        Err(Error::InsufficientLiquidity)
    );
    assert_eq!(contract.pool_reserve(Currency::USDT), 400);
    assert_eq!(contract.getter_borrower(bob(), Currency::USDT), None);
}

#[test]
fn withdrawal_books_before_paying_out() {
    let mut contract = BitleaseContract::new();
    assert_eq!(contract.lend(alice(), Currency::USDT, 100), Ok(()));
    let transfer = contract.withdraw(alice(), Currency::USDT, 20).unwrap();
    assert!(transfer.to.same(&alice()));
    assert_eq!(transfer.amount, 20);
    assert_eq!(contract.getter_lender(alice(), Currency::USDT), Some(80));
    assert_eq!(contract.pool_reserve(Currency::USDT), 80);
    assert_eq!(transfer.settle(true), Ok(()));
}

#[test]
fn withdrawal_without_deposit_is_refused() {
    let mut contract = BitleaseContract::new();
    assert_eq!(
        contract.withdraw(alice(), Currency::USDT, 20).unwrap_err(),
        Error::NotALender
    );
    assert_eq!(contract.pool_reserve(Currency::USDT), 0);
}

#[test]
fn failed_transfer_is_reported_after_booking() {
    let mut contract = BitleaseContract::new();
    assert_eq!(contract.lend(alice(), Currency::ASTAR, 50), Ok(()));
    let transfer = contract.withdraw(alice(), Currency::ASTAR, 50).unwrap();
    assert_eq!(transfer.settle(false), Err(Error::TransferFailed));
    assert_eq!(contract.pool_reserve(Currency::ASTAR), 0);
    assert_eq!(contract.getter_lender(alice(), Currency::ASTAR), None);
}
