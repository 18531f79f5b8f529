//! Association lists of `(key, amount)` entries, the mathematical model
//! behind the ledger's balance and allowance tables.
//!
//! A table is a sequence of entries with pairwise-distinct keys; a key that
//! is absent stands for the amount 0.  `lookup` reads a key, `sum_values`
//! adds every recorded amount, and the lemmas below say how both behave
//! under an update of one entry or the addition of a fresh one.

use vstd::prelude::*;

verus! {

/// The amount recorded for `key`: the value of the first entry whose key
/// matches, or 0 when no entry does.
pub open spec fn lookup<K>(s: Seq<(K, u64)>, key: K) -> u64
    decreases s.len(),
{
    if s.len() == 0 {
        0u64
    } else if s[0].0 == key {
        s[0].1
    } else {
        lookup(s.drop_first(), key)
    }
}

/// Whether some entry records `key`.
pub open spec fn contains_key<K>(s: Seq<(K, u64)>, key: K) -> bool {
    exists|i: int| 0 <= i < s.len() && s[i].0 == key
}

/// Whether the entries' keys are pairwise distinct.
pub open spec fn unique_keys<K>(s: Seq<(K, u64)>) -> bool {
    forall|i: int, j: int| 0 <= i < j < s.len() ==> s[i].0 != s[j].0
}

/// The sum of every recorded amount.
pub open spec fn sum_values<K>(s: Seq<(K, u64)>) -> int
    decreases s.len(),
{
    if s.len() == 0 {
        0
    } else {
        s[0].1 + sum_values(s.drop_first())
    }
}

pub proof fn lemma_sum_nonneg<K>(s: Seq<(K, u64)>)
    ensures
        0 <= sum_values(s),
    decreases s.len(),
{
    if s.len() != 0 {
        lemma_sum_nonneg(s.drop_first());
    }
}

pub proof fn lemma_sum_push<K>(s: Seq<(K, u64)>, entry: (K, u64))
    ensures
        sum_values(s.push(entry)) == sum_values(s) + entry.1,
    decreases s.len(),
{
    if s.len() == 0 {
        assert(s.push(entry).drop_first() =~= s);
    } else {
        lemma_sum_push(s.drop_first(), entry);
        assert(s.push(entry).drop_first() =~= s.drop_first().push(entry));
    }
}

/// No single recorded amount exceeds the sum of all of them.
pub proof fn lemma_lookup_le_sum<K>(s: Seq<(K, u64)>, key: K)
    ensures
        lookup(s, key) <= sum_values(s),
    decreases s.len(),
{
    if s.len() == 0 {
    } else if s[0].0 == key {
        lemma_sum_nonneg(s.drop_first());
    } else {
        lemma_lookup_le_sum(s.drop_first(), key);
        lemma_sum_nonneg(s.drop_first());
    }
}

pub proof fn lemma_unique_drop_first<K>(s: Seq<(K, u64)>)
    requires
        s.len() > 0,
        unique_keys(s),
    ensures
        unique_keys(s.drop_first()),
{
    assert forall|i: int, j: int|
        0 <= i < j < s.drop_first().len() implies s.drop_first()[i].0 != s.drop_first()[j].0 by {
        assert(s.drop_first()[i] == s[i + 1]);
        assert(s.drop_first()[j] == s[j + 1]);
    }
}

pub proof fn lemma_absent_drop_first<K>(s: Seq<(K, u64)>, key: K)
    requires
        s.len() > 0,
        !contains_key(s, key),
    ensures
        s[0].0 != key,
        !contains_key(s.drop_first(), key),
{
    assert(s[0].0 != key);
    assert forall|i: int| 0 <= i < s.drop_first().len() implies s.drop_first()[i].0 != key by {
        assert(s.drop_first()[i] == s[i + 1]);
        assert(s[i + 1].0 != key);
    }
}

/// An absent key reads as 0.
pub proof fn lemma_absent_lookup_zero<K>(s: Seq<(K, u64)>, key: K)
    requires
        !contains_key(s, key),
    ensures
        lookup(s, key) == 0,
    decreases s.len(),
{
    if s.len() != 0 {
        lemma_absent_drop_first(s, key);
        lemma_absent_lookup_zero(s.drop_first(), key);
    }
}

/// With distinct keys, reading the key of entry `i` yields that entry's amount.
pub proof fn lemma_lookup_at<K>(s: Seq<(K, u64)>, i: int)
    requires
        0 <= i < s.len(),
        unique_keys(s),
    ensures
        lookup(s, s[i].0) == s[i].1,
    decreases i,
{
    if i > 0 {
        assert(s[0].0 != s[i].0);
        lemma_unique_drop_first(s);
        lemma_lookup_at(s.drop_first(), i - 1);
        assert(s.drop_first()[i - 1] == s[i]);
    }
}

/// Overwriting entry `i` with a new amount changes exactly that entry's
/// reading, keeps the keys distinct, and moves the sum by the difference.
pub proof fn lemma_update_entry<K>(s: Seq<(K, u64)>, i: int, val: u64)
    requires
        0 <= i < s.len(),
        unique_keys(s),
    ensures
        unique_keys(s.update(i, (s[i].0, val))),
        forall|a: K|
            lookup(s.update(i, (s[i].0, val)), a) == (if a == s[i].0 {
                val
            } else {
                lookup(s, a)
            }),
        sum_values(s.update(i, (s[i].0, val))) == sum_values(s) - s[i].1 + val,
    decreases i,
{
    let t = s.update(i, (s[i].0, val));
    assert forall|a: int, b: int| 0 <= a < b < t.len() implies t[a].0 != t[b].0 by {
        assert(t[a].0 == s[a].0);
        assert(t[b].0 == s[b].0);
    }
    if i == 0 {
        assert(t.drop_first() =~= s.drop_first());
        assert forall|a: K|
            lookup(t, a) == (if a == s[i].0 {
                val
            } else {
                lookup(s, a)
            }) by {
            assert(t[0] == (s[0].0, val));
            if a != s[0].0 {
                assert(lookup(t, a) == lookup(t.drop_first(), a));
                assert(lookup(s, a) == lookup(s.drop_first(), a));
            }
        }
    } else {
        lemma_unique_drop_first(s);
        lemma_update_entry(s.drop_first(), i - 1, val);
        assert(s.drop_first()[i - 1] == s[i]);
        assert(t.drop_first() =~= s.drop_first().update(i - 1, (s[i].0, val)));
        assert(s[0].0 != s[i].0);
        assert forall|a: K|
            lookup(t, a) == (if a == s[i].0 {
                val
            } else {
                lookup(s, a)
            }) by {
            assert(t[0] == s[0]);
            if a == s[0].0 {
                assert(lookup(t, a) == t[0].1);
                assert(lookup(s, a) == s[0].1);
            } else {
                assert(lookup(t, a) == lookup(t.drop_first(), a));
                assert(lookup(s, a) == lookup(s.drop_first(), a));
            }
        }
    }
}

/// Appending an entry for a fresh key changes exactly that key's reading,
/// keeps the keys distinct, and adds the new amount to the sum.
pub proof fn lemma_push_entry<K>(s: Seq<(K, u64)>, key: K, val: u64)
    requires
        unique_keys(s),
        !contains_key(s, key),
    ensures
        unique_keys(s.push((key, val))),
        forall|a: K|
            lookup(s.push((key, val)), a) == (if a == key {
                val
            } else {
                lookup(s, a)
            }),
        sum_values(s.push((key, val))) == sum_values(s) + val,
    decreases s.len(),
{
    let t = s.push((key, val));
    lemma_sum_push(s, (key, val));
    assert forall|a: int, b: int| 0 <= a < b < t.len() implies t[a].0 != t[b].0 by {
        if b < s.len() {
            assert(t[a] == s[a]);
            assert(t[b] == s[b]);
        } else {
            assert(t[a] == s[a]);
            assert(t[b] == (key, val));
            assert(s[a].0 != key);
        }
    }
    if s.len() == 0 {
        assert(t.drop_first() =~= s);
        assert forall|a: K|
            lookup(t, a) == (if a == key {
                val
            } else {
                lookup(s, a)
            }) by {
            assert(t[0] == (key, val));
        }
    } else {
        lemma_absent_drop_first(s, key);
        lemma_unique_drop_first(s);
        lemma_push_entry(s.drop_first(), key, val);
        assert(t.drop_first() =~= s.drop_first().push((key, val)));
        assert forall|a: K|
            lookup(t, a) == (if a == key {
                val
            } else {
                lookup(s, a)
            }) by {
            assert(t[0] == s[0]);
            if a == s[0].0 {
                assert(lookup(t, a) == t[0].1);
                assert(lookup(s, a) == s[0].1);
            } else {
                assert(lookup(t, a) == lookup(t.drop_first(), a));
                assert(lookup(s, a) == lookup(s.drop_first(), a));
            }
        }
    }
}

} // verus!
