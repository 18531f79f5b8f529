use chain_core::account::AccountId;
use chain_core::counter::Counter;
use chain_core::counter::CounterError;

fn alice() -> AccountId {
    AccountId(1)
}

fn bob() -> AccountId {
    AccountId(2)
}

#[test]
fn initialize_starts_at_zero() {
    let counter = Counter::initialize(alice());
    assert_eq!(counter.count, 0);
    assert_eq!(counter.authority, alice());
}

#[test]
fn increment_then_decrement() {
    let mut counter = Counter::initialize(alice());
    assert!(counter.increment(alice(), 5).is_ok());
    assert!(counter.decrement(alice(), 3).is_ok());
    assert_eq!(counter.count, 2);
    let result = counter.increment(bob(), 1);
    assert_eq!(result, Err(CounterError::Unauthorized));
    assert_eq!(counter.count, 2);
}

#[test]
fn decrement_below_zero_fails() {
    let mut counter = Counter::initialize(alice());
    assert!(counter.increment(alice(), 2).is_ok());
    let result = counter.decrement(alice(), 5);
    assert_eq!(result, Err(CounterError::Underflow));
    assert_eq!(counter.count, 2);
}

#[test]
fn zero_amount_is_rejected() {
    let mut counter = Counter::initialize(alice());
    assert_eq!(counter.increment(alice(), 0), Err(CounterError::InvalidAmount));
    assert_eq!(counter.decrement(alice(), 0), Err(CounterError::InvalidAmount));
    assert_eq!(counter.count, 0);
}

#[test]
fn increment_overflow_fails() {
    let mut counter = Counter::initialize(alice());
    assert!(counter.increment(alice(), u64::MAX).is_ok());
    let result = counter.increment(alice(), 1);
    assert_eq!(result, Err(CounterError::Overflow));
    assert_eq!(counter.count, u64::MAX);
}

#[test]
fn reset_requires_authority() {
    let mut counter = Counter::initialize(alice());
    assert!(counter.increment(alice(), 7).is_ok());
    let result = counter.reset(bob());
    assert_eq!(result, Err(CounterError::Unauthorized));
    assert_eq!(counter.count, 7);
    assert!(counter.reset(alice()).is_ok());
    assert_eq!(counter.count, 0);
}
