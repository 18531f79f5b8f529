use chain_core::account::AccountId;
use chain_core::token::Erc20;
use chain_core::token::Error;

fn alice() -> AccountId {
    AccountId(1)
}

fn bob() -> AccountId {
    AccountId(2)
}

fn charlie() -> AccountId {
    AccountId(3)
}

#[test]
fn new_works() {
    let erc20 = Erc20::new(1000, alice());
    assert_eq!(erc20.total_supply(), 1000);
}

#[test]
fn balance_works() {
    let erc20 = Erc20::new(1000, alice());
    assert_eq!(erc20.balance_of(alice()), 1000);
    assert_eq!(erc20.balance_of(bob()), 0);
}

#[test]
fn transfer_works() {
    let mut erc20 = Erc20::new(1000, alice());
    assert_eq!(erc20.balance_of(alice()), 1000);
    assert!(erc20.transfer(alice(), bob(), 100).is_ok());
    assert_eq!(erc20.balance_of(alice()), 900);
    assert_eq!(erc20.balance_of(bob()), 100);
}

#[test]
fn transfer_fails_with_insufficient_balance() {
    let mut erc20 = Erc20::new(100, alice());
    let result = erc20.transfer(alice(), bob(), 200);
    assert_eq!(result, Err(Error::InsufficientBalance));
}

#[test]
fn approve_works() {
    let mut erc20 = Erc20::new(1000, alice());
    assert!(erc20.approve(alice(), bob(), 200).is_ok());
    assert_eq!(erc20.allowance(alice(), bob()), 200);
}

#[test]
fn transfer_from_works() {
    let mut erc20 = Erc20::new(1000, alice());
    assert!(erc20.approve(alice(), bob(), 200).is_ok());
    assert!(erc20.transfer_from(bob(), alice(), charlie(), 100).is_ok());
    assert_eq!(erc20.balance_of(alice()), 900);
    assert_eq!(erc20.balance_of(charlie()), 100);
    assert_eq!(erc20.allowance(alice(), bob()), 100);
}

#[test]
fn burn_works() {
    let mut erc20 = Erc20::new(1000, alice());
    assert!(erc20.burn(alice(), 100).is_ok());
    assert_eq!(erc20.balance_of(alice()), 900);
    assert_eq!(erc20.total_supply(), 900);
}

#[test]
fn mint_works() {
    let mut erc20 = Erc20::new(1000, alice());
    assert!(erc20.mint(bob(), 500).is_ok());
    assert_eq!(erc20.balance_of(bob()), 500);
    assert_eq!(erc20.total_supply(), 1500);
}

#[test]
fn e2e_transfer_works() {
    let total_supply = 1_000_000;
    let mut erc20 = Erc20::new(total_supply, alice());
    let transfer_amount = 1000;
    let transfer_result = erc20.transfer(alice(), bob(), transfer_amount);
    assert!(transfer_result.is_ok());
}

#[test]
fn transfer_failure_leaves_state() {
    let mut erc20 = Erc20::new(100, alice());
    let result = erc20.transfer(alice(), bob(), 200);
    assert_eq!(result, Err(Error::InsufficientBalance));
    assert_eq!(erc20.balance_of(alice()), 100);
    assert_eq!(erc20.balance_of(bob()), 0);
    assert_eq!(erc20.total_supply(), 100);
}

#[test]
fn approve_twice_same_value() {
    let mut erc20 = Erc20::new(1000, alice());
    assert!(erc20.approve(alice(), bob(), 200).is_ok());
    assert!(erc20.approve(alice(), bob(), 200).is_ok());
    assert_eq!(erc20.allowance(alice(), bob()), 200);
}

#[test]
fn approve_overwrites() {
    let mut erc20 = Erc20::new(1000, alice());
    assert!(erc20.approve(alice(), bob(), 200).is_ok());
    assert!(erc20.approve(alice(), bob(), 30).is_ok());
    assert_eq!(erc20.allowance(alice(), bob()), 30);
}

#[test]
fn transfer_from_fails_with_insufficient_allowance() {
    let mut erc20 = Erc20::new(1000, alice());
    assert!(erc20.approve(alice(), bob(), 50).is_ok());
    let result = erc20.transfer_from(bob(), alice(), charlie(), 100);
    assert_eq!(result, Err(Error::InsufficientAllowance));
    assert_eq!(erc20.balance_of(alice()), 1000);
    assert_eq!(erc20.balance_of(charlie()), 0);
    assert_eq!(erc20.allowance(alice(), bob()), 50);
}

#[test]
fn transfer_from_balance_failure_keeps_allowance() {
    let mut erc20 = Erc20::new(100, alice());
    assert!(erc20.approve(alice(), bob(), 200).is_ok());
    let result = erc20.transfer_from(bob(), alice(), charlie(), 150);
    assert_eq!(result, Err(Error::InsufficientBalance));
    assert_eq!(erc20.balance_of(alice()), 100);
    assert_eq!(erc20.balance_of(charlie()), 0);
    assert_eq!(erc20.allowance(alice(), bob()), 200);
}

#[test]
fn self_transfer_still_checked() {
    let mut erc20 = Erc20::new(1000, alice());
    assert!(erc20.transfer(alice(), alice(), 400).is_ok());
    assert_eq!(erc20.balance_of(alice()), 1000);
    let result = erc20.transfer(alice(), alice(), 2000);
    assert_eq!(result, Err(Error::InsufficientBalance));
    assert_eq!(erc20.balance_of(alice()), 1000);
}

#[test]
fn zero_value_transfer_is_ok() {
    let mut erc20 = Erc20::new(1000, alice());
    assert!(erc20.transfer(alice(), bob(), 0).is_ok());
    assert_eq!(erc20.balance_of(alice()), 1000);
    assert_eq!(erc20.balance_of(bob()), 0);
}

#[test]
fn mint_overflow_fails() {
    let mut erc20 = Erc20::new(u64::MAX, alice());
    let result = erc20.mint(bob(), 1);
    assert_eq!(result, Err(Error::Overflow));
    assert_eq!(erc20.total_supply(), u64::MAX);
    assert_eq!(erc20.balance_of(bob()), 0);
}

#[test]
fn burn_fails_with_insufficient_balance() {
    let mut erc20 = Erc20::new(100, alice());
    let result = erc20.burn(alice(), 200);
    assert_eq!(result, Err(Error::InsufficientBalance));
    assert_eq!(erc20.balance_of(alice()), 100);
    assert_eq!(erc20.total_supply(), 100);
}

#[test]
fn unknown_pairs_read_zero() {
    let erc20 = Erc20::new(1000, alice());
    assert_eq!(erc20.allowance(alice(), bob()), 0);
    assert_eq!(erc20.allowance(bob(), charlie()), 0);
    assert_eq!(erc20.balance_of(charlie()), 0);
}
