use lending_pool::controller::{Data as Controller, Error};
use lending_pool::types::{AccountId, ZERO_ADDRESS};

fn bob() -> AccountId {
    42
}

#[test]
fn new_works() {
    let contract = Controller::new();
    assert!(contract.markets().is_empty());
}

#[test]
fn mint_allowed_works() {
    let mut contract = Controller::new();

    let pool: AccountId = 1;
    assert!(contract.support_market(pool).is_ok());
    assert!(contract.mint_allowed(pool, bob(), 0).is_ok());
}

#[test]
fn mint_allowed_fail_when_not_supported() {
    let contract = Controller::new();

    let pool: AccountId = 1;
    assert_eq!(
        contract.mint_allowed(pool, bob(), 0).unwrap_err(),
        Error::MintIsPaused
    );
}

#[test]
fn mint_allowed_fail_when_paused() {
    let mut contract = Controller::new();

    let pool: AccountId = 1;
    assert!(contract.support_market(pool).is_ok());
    assert!(contract.set_mint_guardian_paused(pool, true).is_ok());
    assert_eq!(
        contract.mint_allowed(pool, bob(), 0).unwrap_err(),
        Error::MintIsPaused
    );
}

#[test]
fn borrow_allowed_works() {
    let mut contract = Controller::new();

    let pool: AccountId = 1;
    assert!(contract.support_market(pool).is_ok());
    assert!(contract.borrow_allowed(pool, bob(), 0).is_ok());
}

#[test]
fn borrow_allowed_fail_when_not_supported() {
    let contract = Controller::new();

    let pool: AccountId = 1;
    assert_eq!(
        contract.borrow_allowed(pool, bob(), 0).unwrap_err(),
        Error::BorrowIsPaused
    );
}

#[test]
fn borrow_allowed_fail_when_paused() {
    let mut contract = Controller::new();

    let pool: AccountId = 1;
    assert!(contract.support_market(pool).is_ok());
    assert!(contract.set_borrow_guardian_paused(pool, true).is_ok());
    assert_eq!(
        contract.borrow_allowed(pool, bob(), 0).unwrap_err(),
        Error::BorrowIsPaused
    );
}

#[test]
fn liquidate_borrow_allowed_works() {
    let mut contract = Controller::new();

    let pool1: AccountId = 1;
    let pool2: AccountId = 2;
    assert!(contract.support_market(pool1).is_ok());
    assert!(contract.support_market(pool2).is_ok());
    assert!(contract
        .liquidate_borrow_allowed(pool1, pool2, ZERO_ADDRESS, ZERO_ADDRESS, 0)
        .is_ok())
}

#[test]
fn liquidate_borrow_allowed_fail() {
    let mut contract = Controller::new();

    // not in market
    let pool1: AccountId = 1;
    let pool2: AccountId = 2;
    assert_eq!(
        contract
            .liquidate_borrow_allowed(pool1, pool2, ZERO_ADDRESS, ZERO_ADDRESS, 0)
            .unwrap_err(),
        Error::MarketNotListed
    );
    assert!(contract.support_market(pool1).is_ok());
    assert_eq!(
        contract
            .liquidate_borrow_allowed(pool1, pool2, ZERO_ADDRESS, ZERO_ADDRESS, 0)
            .unwrap_err(),
        Error::MarketNotListed
    );
}

#[test]
fn seize_allowed_fail() {
    let mut contract = Controller::new();

    // not in market
    let pool1: AccountId = 1;
    let pool2: AccountId = 2;
    assert_eq!(
        contract
            .seize_allowed(pool1, pool2, ZERO_ADDRESS, ZERO_ADDRESS, 0)
            .unwrap_err(),
        Error::MarketNotListed
    );
    assert!(contract.support_market(pool1).is_ok());
    assert_eq!(
        contract
            .seize_allowed(pool1, pool2, ZERO_ADDRESS, ZERO_ADDRESS, 0)
            .unwrap_err(),
        Error::MarketNotListed
    );
}

#[test]
fn support_market_works() {
    let mut contract = Controller::new();

    let p1: AccountId = 1;
    assert!(contract.support_market(p1).is_ok());
    assert_eq!(contract.markets(), [p1]);
    assert_eq!(contract.mint_guardian_paused(p1), Some(false));
    assert_eq!(contract.borrow_guardian_paused(p1), Some(false));

    let p2: AccountId = 2;
    assert!(contract.support_market(p2).is_ok());
    assert_eq!(contract.markets(), [p1, p2]);
}

#[test]
fn mint_guardian_paused_works() {
    let mut contract = Controller::new();

    let pool: AccountId = 1;
    assert_eq!(contract.mint_guardian_paused(pool), None);

    assert!(contract.support_market(pool).is_ok());
    assert_eq!(contract.mint_guardian_paused(pool), Some(false));

    assert!(contract.set_mint_guardian_paused(pool, true).is_ok());
    assert_eq!(contract.mint_guardian_paused(pool), Some(true));
    assert!(contract.set_mint_guardian_paused(pool, false).is_ok());
    assert_eq!(contract.mint_guardian_paused(pool), Some(false));
}

#[test]
fn borrow_guardian_paused_works() {
    let mut contract = Controller::new();

    let pool: AccountId = 1;
    assert_eq!(contract.borrow_guardian_paused(pool), None);

    assert!(contract.support_market(pool).is_ok());
    assert_eq!(contract.mint_guardian_paused(pool), Some(false));

    assert!(contract.set_borrow_guardian_paused(pool, true).is_ok());
    assert_eq!(contract.borrow_guardian_paused(pool), Some(true));
    assert!(contract.set_borrow_guardian_paused(pool, false).is_ok());
    assert_eq!(contract.borrow_guardian_paused(pool), Some(false));
}

#[test]
fn support_market_twice_keeps_one_listing() {
    let mut contract = Controller::new();
    contract.support_market(1).unwrap();
    contract.support_market(1).unwrap();
    assert_eq!(contract.markets(), [1]);
    assert_eq!(contract.mint_guardian_paused(1), Some(false));
}

#[test]
fn set_pause_flags_fail_when_not_listed() {
    let mut contract = Controller::new();
    assert_eq!(
        contract.set_mint_guardian_paused(9, true).unwrap_err(),
        Error::MarketNotListed
    );
    assert_eq!(
        contract.set_borrow_guardian_paused(9, true).unwrap_err(),
        Error::MarketNotListed
    );
}
