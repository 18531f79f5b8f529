//! An authority-gated counter: a single unsigned value that only the
//! account recorded at initialization may change.

use crate::account::AccountId;
use vstd::prelude::*;

verus! {

/// Everything a counter operation can fail with.
#[derive(Clone, Copy, Debug, PartialEq, Eq, Structural)]
pub enum CounterError {
    /// The provided amount must be greater than zero.
    InvalidAmount,
    /// Arithmetic overflow occurred.
    Overflow,
    /// Arithmetic underflow occurred.
    Underflow,
    /// Only the authority can perform this action.
    Unauthorized,
}

/// A counter and the single account allowed to mutate it.
#[derive(Clone, Copy, Debug)]
pub struct Counter {
    pub count: u64,
    pub authority: AccountId,
}

impl Counter {
    /// Creates a counter at zero, owned by `authority` (the caller that
    /// asked the host to create it).
    pub fn initialize(authority: AccountId) -> (c: Counter)
        ensures
            c.count == 0,
            c.authority == authority,
    {
        Counter { count: 0, authority }
    }

    /// Adds `amount` to the count.  Only the authority may call this, the
    /// amount must be positive, and the new count must fit in a `u64`.
    pub fn increment(&mut self, caller: AccountId, amount: u64) -> (r: Result<(), CounterError>)
        ensures
            final(self).authority == old(self).authority,
            r is Ok <==> caller == old(self).authority && amount > 0 && old(self).count + amount
                <= u64::MAX,
            r is Ok ==> final(self).count == old(self).count + amount,
            caller != old(self).authority ==> r == Err::<(), CounterError>(
                CounterError::Unauthorized,
            ) && *final(self) == *old(self),
            caller == old(self).authority && amount == 0 ==> r == Err::<(), CounterError>(
                CounterError::InvalidAmount,
            ) && *final(self) == *old(self),
            caller == old(self).authority && amount > 0 && old(self).count + amount > u64::MAX
                ==> r == Err::<(), CounterError>(CounterError::Overflow) && *final(self) == *old(
                self,
            ),
    {
        if caller != self.authority {
            return Err(CounterError::Unauthorized);
        }
        if amount == 0 {
            return Err(CounterError::InvalidAmount);
        }
        if amount > u64::MAX - self.count {
            return Err(CounterError::Overflow);
        }
        self.count = self.count + amount;
        Ok(())
    }

    /// Subtracts `amount` from the count.  Only the authority may call
    /// this, the amount must be positive and no larger than the count.
    pub fn decrement(&mut self, caller: AccountId, amount: u64) -> (r: Result<(), CounterError>)
        ensures
            final(self).authority == old(self).authority,
            r is Ok <==> caller == old(self).authority && amount > 0 && amount <= old(self).count,
            r is Ok ==> final(self).count == old(self).count - amount,
            caller != old(self).authority ==> r == Err::<(), CounterError>(
                CounterError::Unauthorized,
            ) && *final(self) == *old(self),
            caller == old(self).authority && amount == 0 ==> r == Err::<(), CounterError>(
                CounterError::InvalidAmount,
            ) && *final(self) == *old(self),
            caller == old(self).authority && amount > old(self).count ==> r == Err::<
                (),
                CounterError,
            >(CounterError::Underflow) && *final(self) == *old(self),
    {
        if caller != self.authority {
            return Err(CounterError::Unauthorized);
        }
        if amount == 0 {
            return Err(CounterError::InvalidAmount);
        }
        if amount > self.count {
            return Err(CounterError::Underflow);
        }
        self.count = self.count - amount;
        Ok(())
    }

    /// Sets the count back to zero.  Only the authority may call this.
    pub fn reset(&mut self, caller: AccountId) -> (r: Result<(), CounterError>)
        ensures
            final(self).authority == old(self).authority,
            r is Ok <==> caller == old(self).authority,
            r is Ok ==> final(self).count == 0,
            r is Err ==> r == Err::<(), CounterError>(CounterError::Unauthorized) && *final(self)
                == *old(self),
    {
        if caller != self.authority {
            return Err(CounterError::Unauthorized);
        }
        self.count = 0;
        Ok(())
    }
}

} // verus!
