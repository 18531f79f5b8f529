//! The fungible-token ledger: total supply, per-account balances, and
//! per-(owner, spender) allowances.
//!
//! Balances and allowances are association lists with pairwise-distinct
//! keys (see `entries`); an absent key reads as 0.  A ledger is
//! well-formed when, in addition, the recorded total supply equals the sum
//! of all balances; every operation requires and preserves that invariant.

use crate::account::AccountId;
use crate::entries::contains_key;
use crate::entries::lemma_absent_lookup_zero;
use crate::entries::lemma_lookup_at;
use crate::entries::lemma_lookup_le_sum;
use crate::entries::lemma_push_entry;
use crate::entries::lemma_update_entry;
use crate::entries::lookup;
use crate::entries::sum_values;
use crate::entries::unique_keys;
use vstd::prelude::*;

verus! {

/// Record of a token movement: a mint leaves `from` empty, a burn leaves
/// `to` empty.  The core hands these to the host's event sink; delivery is
/// the host's concern.
#[derive(Clone, Copy, Debug, PartialEq, Eq)]
pub struct Transfer {
    pub from: Option<AccountId>,
    pub to: Option<AccountId>,
    pub value: u64,
}

/// Record of an approval: `owner` allowed `spender` to move `value` on its
/// behalf.
#[derive(Clone, Copy, Debug, PartialEq, Eq)]
pub struct Approval {
    pub owner: AccountId,
    pub spender: AccountId,
    pub value: u64,
}

/// Everything a ledger operation can fail with.
#[derive(Clone, Copy, Debug, PartialEq, Eq, Structural)]
pub enum Error {
    /// Insufficient balance for the requested movement.
    InsufficientBalance,
    /// Insufficient allowance for a transfer on behalf of another account.
    InsufficientAllowance,
    /// Minting would push the total supply past the integer range.
    Overflow,
}

/// The ledger's state.
#[derive(Debug)]
pub struct Erc20 {
    /// Total token supply; equal to the sum of all balances.
    pub total_supply: u64,
    /// Balance table, keyed by account.
    pub balances: Vec<(AccountId, u64)>,
    /// Allowance table, keyed by (owner, spender).
    pub allowances: Vec<((AccountId, AccountId), u64)>,
}

impl Erc20 {
    /// The balance recorded for `owner`; 0 for unknown accounts.
    pub open spec fn spec_balance_of(self, owner: AccountId) -> u64 {
        lookup(self.balances@, owner)
    }

    /// The allowance `owner` has granted `spender`; 0 for unknown pairs.
    pub open spec fn spec_allowance(self, owner: AccountId, spender: AccountId) -> u64 {
        lookup(self.allowances@, (owner, spender))
    }

    /// Well-formedness: distinct keys in both tables, and a total supply
    /// that equals the sum of all balances.
    pub open spec fn wf(self) -> bool {
        &&& unique_keys(self.balances@)
        &&& unique_keys(self.allowances@)
        &&& self.total_supply as int == sum_values(self.balances@)
    }
}

/// `a` and `b` record the same balance for every account.
pub open spec fn same_balances(a: Erc20, b: Erc20) -> bool {
    forall|x: AccountId| a.spec_balance_of(x) == b.spec_balance_of(x)
}

/// `a` and `b` record the same allowance for every (owner, spender) pair.
pub open spec fn same_allowances(a: Erc20, b: Erc20) -> bool {
    forall|o: AccountId, s: AccountId| a.spec_allowance(o, s) == b.spec_allowance(o, s)
}

/// What a successful movement of `value` from `from` to `to` does to the
/// balances: the total supply stands, a self-transfer changes nothing, and
/// otherwise exactly the two accounts involved change, by `value` each way.
pub open spec fn moves_balance(
    pre: Erc20,
    post: Erc20,
    from: AccountId,
    to: AccountId,
    value: u64,
) -> bool {
    &&& post.total_supply == pre.total_supply
    &&& (if to == from {
        same_balances(pre, post)
    } else {
        &&& post.spec_balance_of(from) == pre.spec_balance_of(from) - value
        &&& post.spec_balance_of(to) == pre.spec_balance_of(to) + value
        &&& forall|a: AccountId|
            a != from && a != to ==> post.spec_balance_of(a) == pre.spec_balance_of(a)
    })
}

/// What an approval of `value` from `caller` to `spender` does: exactly
/// that one allowance is overwritten; balances and supply stand.
pub open spec fn approve_effect(
    pre: Erc20,
    post: Erc20,
    caller: AccountId,
    spender: AccountId,
    value: u64,
) -> bool {
    &&& post.spec_allowance(caller, spender) == value
    &&& forall|o: AccountId, s: AccountId|
        !(o == caller && s == spender) ==> post.spec_allowance(o, s) == pre.spec_allowance(o, s)
    &&& same_balances(pre, post)
    &&& post.total_supply == pre.total_supply
}

/// Index of the first balance entry for `key`, if any.
fn find_index(v: &Vec<(AccountId, u64)>, key: AccountId) -> (r: Option<usize>)
    ensures
        match r {
            Some(i) => i < v@.len() && v@[i as int].0 == key,
            None => !contains_key(v@, key),
        },
{
    let n = v.len();
    let mut i: usize = 0;
    while i < n
        invariant
            n == v@.len(),
            i <= n,
            forall|j: int| 0 <= j < i ==> v@[j].0 != key,
        decreases n - i,
    {
        if v[i].0 == key {
            return Some(i);
        }
        i = i + 1;
    }
    None
}

/// The amount recorded for `key` in a balance table; 0 when absent.
fn get_amount(v: &Vec<(AccountId, u64)>, key: AccountId) -> (r: u64)
    requires
        unique_keys(v@),
    ensures
        r == lookup(v@, key),
{
    match find_index(v, key) {
        Some(i) => {
            proof {
                lemma_lookup_at(v@, i as int);
            }
            v[i].1
        },
        None => {
            proof {
                lemma_absent_lookup_zero(v@, key);
            }
            0
        },
    }
}

/// Overwrites (or creates) the entry for `key` in a balance table.
fn set_amount(v: &mut Vec<(AccountId, u64)>, key: AccountId, val: u64)
    requires
        unique_keys(old(v)@),
    ensures
        unique_keys(final(v)@),
        forall|a: AccountId|
            lookup(final(v)@, a) == (if a == key {
                val
            } else {
                lookup(old(v)@, a)
            }),
        sum_values(final(v)@) == sum_values(old(v)@) - lookup(old(v)@, key) + val,
{
    match find_index(v, key) {
        Some(i) => {
            proof {
                lemma_lookup_at(v@, i as int);
                lemma_update_entry(v@, i as int, val);
            }
            v[i] = (key, val);
        },
        None => {
            proof {
                lemma_absent_lookup_zero(v@, key);
                lemma_push_entry(v@, key, val);
            }
            v.push((key, val));
        },
    }
}

/// Index of the first allowance entry for `(owner, spender)`, if any.
fn find_pair_index(
    v: &Vec<((AccountId, AccountId), u64)>,
    owner: AccountId,
    spender: AccountId,
) -> (r: Option<usize>)
    ensures
        match r {
            Some(i) => i < v@.len() && v@[i as int].0 == (owner, spender),
            None => !contains_key(v@, (owner, spender)),
        },
{
    let n = v.len();
    let mut i: usize = 0;
    while i < n
        invariant
            n == v@.len(),
            i <= n,
            forall|j: int| 0 <= j < i ==> v@[j].0 != (owner, spender),
        decreases n - i,
    {
        let e = v[i];
        if e.0.0 == owner && e.0.1 == spender {
            return Some(i);
        }
        i = i + 1;
    }
    None
}

/// The amount recorded for `(owner, spender)` in an allowance table; 0
/// when absent.
fn get_pair_amount(
    v: &Vec<((AccountId, AccountId), u64)>,
    owner: AccountId,
    spender: AccountId,
) -> (r: u64)
    requires
        unique_keys(v@),
    ensures
        r == lookup(v@, (owner, spender)),
{
    match find_pair_index(v, owner, spender) {
        Some(i) => {
            proof {
                lemma_lookup_at(v@, i as int);
            }
            v[i].1
        },
        None => {
            proof {
                lemma_absent_lookup_zero(v@, (owner, spender));
            }
            0
        },
    }
}

/// Overwrites (or creates) the entry for `(owner, spender)` in an
/// allowance table.
fn set_pair_amount(
    v: &mut Vec<((AccountId, AccountId), u64)>,
    owner: AccountId,
    spender: AccountId,
    val: u64,
)
    requires
        unique_keys(old(v)@),
    ensures
        unique_keys(final(v)@),
        forall|p: (AccountId, AccountId)|
            lookup(final(v)@, p) == (if p == (owner, spender) {
                val
            } else {
                lookup(old(v)@, p)
            }),
{
    match find_pair_index(v, owner, spender) {
        Some(i) => {
            proof {
                lemma_update_entry(v@, i as int, val);
            }
            v[i] = ((owner, spender), val);
        },
        None => {
            proof {
                lemma_push_entry(v@, (owner, spender), val);
            }
            v.push(((owner, spender), val));
        },
    }
}

impl Erc20 {
    /// Creates the ledger with `total_supply` tokens, all credited to
    /// `caller` (the deploying account).  The host emits the matching
    /// mint-style `Transfer` record.
    pub fn new(total_supply: u64, caller: AccountId) -> (l: Erc20)
        ensures
            l.wf(),
            l.total_supply == total_supply,
            l.spec_balance_of(caller) == total_supply,
            forall|a: AccountId| a != caller ==> l.spec_balance_of(a) == 0,
            forall|o: AccountId, s: AccountId| l.spec_allowance(o, s) == 0,
    {
        let mut balances: Vec<(AccountId, u64)> = Vec::new();
        balances.push((caller, total_supply));
        let l = Erc20 { total_supply, balances, allowances: Vec::new() };
        proof {
            let s = l.balances@;
            assert(s.drop_first() =~= Seq::<(AccountId, u64)>::empty());
            assert(s[0] == (caller, total_supply));
            assert(sum_values(s.drop_first()) == 0);
            assert(sum_values(s) == total_supply);
            assert forall|a: AccountId| a != caller implies l.spec_balance_of(a) == 0 by {
                assert(lookup(s, a) == lookup(s.drop_first(), a));
            }
            assert forall|o: AccountId, sp: AccountId| l.spec_allowance(o, sp) == 0 by {
                assert(l.allowances@.len() == 0);
            }
        }
        l
    }

    /// Returns the total token supply.
    pub fn total_supply(&self) -> (r: u64)
        ensures
            r == self.total_supply,
    {
        self.total_supply
    }

    /// Returns the balance of `owner`; 0 for unknown accounts.
    pub fn balance_of(&self, owner: AccountId) -> (r: u64)
        requires
            self.wf(),
        ensures
            r == self.spec_balance_of(owner),
    {
        get_amount(&self.balances, owner)
    }

    /// Returns the allowance `owner` has granted `spender`; 0 for unknown
    /// pairs.
    pub fn allowance(&self, owner: AccountId, spender: AccountId) -> (r: u64)
        requires
            self.wf(),
        ensures
            r == self.spec_allowance(owner, spender),
    {
        get_pair_amount(&self.allowances, owner, spender)
    }

    /// Moves `value` from `caller` to `to`.  Fails with
    /// `InsufficientBalance`, leaving the ledger untouched, when `caller`
    /// holds less than `value`.
    pub fn transfer(&mut self, caller: AccountId, to: AccountId, value: u64) -> (r: Result<
        (),
        Error,
    >)
        requires
            old(self).wf(),
        ensures
            final(self).wf(),
            same_allowances(*old(self), *final(self)),
            r is Ok <==> value <= old(self).spec_balance_of(caller),
            r is Ok ==> moves_balance(*old(self), *final(self), caller, to, value),
            r is Err ==> r == Err::<(), Error>(Error::InsufficientBalance) && *final(self) == *old(
                self,
            ),
    {
        self.transfer_from_to(caller, to, value)
    }

    /// Sets the allowance of `spender` over `caller`'s tokens to `value`,
    /// overwriting any earlier allowance.  Always succeeds; the host emits
    /// the matching `Approval` record.
    pub fn approve(&mut self, caller: AccountId, spender: AccountId, value: u64) -> (r: Result<
        (),
        Error,
    >)
        requires
            old(self).wf(),
        ensures
            final(self).wf(),
            r == Ok::<(), Error>(()),
            approve_effect(*old(self), *final(self), caller, spender, value),
    {
        set_pair_amount(&mut self.allowances, caller, spender, value);
        Ok(())
    }

    /// Moves `value` from `from` to `to` on behalf of `from`; the caller
    /// spends its allowance.  Fails with `InsufficientAllowance` when the
    /// allowance is short, then with `InsufficientBalance` when `from`'s
    /// balance is; either failure leaves the ledger untouched, and the
    /// allowance is reduced only after the balances have moved.
    pub fn transfer_from(
        &mut self,
        caller: AccountId,
        from: AccountId,
        to: AccountId,
        value: u64,
    ) -> (r: Result<(), Error>)
        requires
            old(self).wf(),
        ensures
            final(self).wf(),
            r is Ok <==> value <= old(self).spec_allowance(from, caller) && value <= old(
                self,
            ).spec_balance_of(from),
            old(self).spec_allowance(from, caller) < value ==> r == Err::<(), Error>(
                Error::InsufficientAllowance,
            ) && *final(self) == *old(self),
            value <= old(self).spec_allowance(from, caller) && old(self).spec_balance_of(from)
                < value ==> r == Err::<(), Error>(Error::InsufficientBalance) && *final(self)
                == *old(self),
            r is Ok ==> moves_balance(*old(self), *final(self), from, to, value),
            r is Ok ==> final(self).spec_allowance(from, caller) == old(self).spec_allowance(
                from,
                caller,
            ) - value,
            r is Ok ==> forall|o: AccountId, s: AccountId|
                !(o == from && s == caller) ==> final(self).spec_allowance(o, s) == old(
                    self,
                ).spec_allowance(o, s),
    {
        let granted = get_pair_amount(&self.allowances, from, caller);
        if granted < value {
            return Err(Error::InsufficientAllowance);
        }
        match self.transfer_from_to(from, to, value) {
            Ok(()) => {},
            Err(e) => {
                return Err(e);
            },
        }
        set_pair_amount(&mut self.allowances, from, caller, granted - value);
        Ok(())
    }

    /// Moves `value` between two accounts after checking the source
    /// balance; both public transfer entry points come down to this.
    fn transfer_from_to(&mut self, from: AccountId, to: AccountId, value: u64) -> (r: Result<
        (),
        Error,
    >)
        requires
            old(self).wf(),
        ensures
            final(self).wf(),
            same_allowances(*old(self), *final(self)),
            r is Ok <==> value <= old(self).spec_balance_of(from),
            r is Ok ==> moves_balance(*old(self), *final(self), from, to, value),
            r is Err ==> r == Err::<(), Error>(Error::InsufficientBalance) && *final(self) == *old(
                self,
            ),
    {
        let from_balance = get_amount(&self.balances, from);
        if from_balance < value {
            return Err(Error::InsufficientBalance);
        }
        set_amount(&mut self.balances, from, from_balance - value);
        let to_balance = get_amount(&self.balances, to);
        proof {
            lemma_lookup_le_sum(self.balances@, to);
        }
        set_amount(&mut self.balances, to, to_balance + value);
        Ok(())
    }

    /// Creates `value` new tokens on `to`'s balance.  Fails with
    /// `Overflow`, leaving the ledger untouched, when the total supply
    /// would pass the integer range.  Deliberately unrestricted: access
    /// control is left to a collaborator of the host.
    pub fn mint(&mut self, to: AccountId, value: u64) -> (r: Result<(), Error>)
        requires
            old(self).wf(),
        ensures
            final(self).wf(),
            same_allowances(*old(self), *final(self)),
            r is Ok <==> old(self).total_supply + value <= u64::MAX,
            r is Err ==> r == Err::<(), Error>(Error::Overflow) && *final(self) == *old(self),
            r is Ok ==> final(self).total_supply == old(self).total_supply + value,
            r is Ok ==> final(self).spec_balance_of(to) == old(self).spec_balance_of(to) + value,
            r is Ok ==> forall|a: AccountId|
                a != to ==> final(self).spec_balance_of(a) == old(self).spec_balance_of(a),
    {
        if value > u64::MAX - self.total_supply {
            return Err(Error::Overflow);
        }
        let to_balance = get_amount(&self.balances, to);
        proof {
            lemma_lookup_le_sum(self.balances@, to);
        }
        set_amount(&mut self.balances, to, to_balance + value);
        self.total_supply = self.total_supply + value;
        Ok(())
    }

    /// Destroys `value` tokens from `caller`'s balance, shrinking the
    /// total supply.  Fails with `InsufficientBalance`, leaving the ledger
    /// untouched, when `caller` holds less than `value`.
    pub fn burn(&mut self, caller: AccountId, value: u64) -> (r: Result<(), Error>)
        requires
            old(self).wf(),
        ensures
            final(self).wf(),
            same_allowances(*old(self), *final(self)),
            r is Ok <==> value <= old(self).spec_balance_of(caller),
            r is Err ==> r == Err::<(), Error>(Error::InsufficientBalance) && *final(self) == *old(
                self,
            ),
            r is Ok ==> final(self).total_supply == old(self).total_supply - value,
            r is Ok ==> final(self).spec_balance_of(caller) == old(self).spec_balance_of(caller)
                - value,
            r is Ok ==> forall|a: AccountId|
                a != caller ==> final(self).spec_balance_of(a) == old(self).spec_balance_of(a),
    {
        let caller_balance = get_amount(&self.balances, caller);
        if caller_balance < value {
            return Err(Error::InsufficientBalance);
        }
        proof {
            lemma_lookup_le_sum(self.balances@, caller);
        }
        set_amount(&mut self.balances, caller, caller_balance - value);
        self.total_supply = self.total_supply - value;
        Ok(())
    }
}

/// Law: in every well-formed ledger the recorded total supply equals the
/// sum of all balance entries.
pub proof fn lemma_total_supply_is_sum_of_balances(l: Erc20)
    requires
        l.wf(),
    ensures
        l.total_supply as int == sum_values(l.balances@),
{
}

/// Law: every balance and every allowance is a nonnegative amount.
pub proof fn lemma_amounts_nonnegative(l: Erc20, a: AccountId, owner: AccountId, spender: AccountId)
    ensures
        0 <= l.spec_balance_of(a),
        0 <= l.spec_allowance(owner, spender),
{
}

/// Law: no account's balance can exceed the total supply of a well-formed
/// ledger.
pub proof fn lemma_balance_le_total_supply(l: Erc20, a: AccountId)
    requires
        l.wf(),
    ensures
        l.spec_balance_of(a) <= l.total_supply,
{
    lemma_lookup_le_sum(l.balances@, a);
}

/// Law: approving the same value twice yields the state one approval
/// yields — the second approval changes no allowance, no balance and not
/// the supply.
pub proof fn lemma_approve_idempotent(
    l0: Erc20,
    l1: Erc20,
    l2: Erc20,
    caller: AccountId,
    spender: AccountId,
    value: u64,
)
    requires
        approve_effect(l0, l1, caller, spender, value),
        approve_effect(l1, l2, caller, spender, value),
    ensures
        l2.spec_allowance(caller, spender) == l1.spec_allowance(caller, spender),
        same_allowances(l1, l2),
        same_balances(l1, l2),
        l2.total_supply == l1.total_supply,
{
}

} // verus!

