use vstd::prelude::*;
use crate::account::AccountId;

verus! {

/// The balance table of the ledger: a list of `(account, amount)` entries
/// with pairwise-distinct keys. An account without an entry holds 0, so an
/// explicit zero entry and an absent entry are indistinguishable to readers.
pub struct Balances {
    pub entries: Vec<(AccountId, u128)>,
}

/// The amount held by `key`: the value of the first entry whose account has
/// view `key`, or 0 when there is none.
pub open spec fn amount_of(s: Seq<(AccountId, u128)>, key: Seq<u8>) -> u128
    decreases s.len(),
{
    if s.len() == 0 {
        0
    } else if s[0].0@ == key {
        s[0].1
    } else {
        amount_of(s.drop_first(), key)
    }
}

/// The sum of all amounts in the table.
pub open spec fn total_of(s: Seq<(AccountId, u128)>) -> int
    decreases s.len(),
{
    if s.len() == 0 {
        0
    } else {
        s[0].1 + total_of(s.drop_first())
    }
}

/// No two entries share a key.
pub open spec fn distinct_keys(s: Seq<(AccountId, u128)>) -> bool {
    forall|i: int, j: int| 0 <= i < j < s.len() ==> s[i].0@ != s[j].0@
}

/// `amount_of` is determined by the first matching entry.
proof fn lemma_amount_of_first_match(s: Seq<(AccountId, u128)>, key: Seq<u8>, i: int)
    requires
        0 <= i < s.len(),
        s[i].0@ == key,
        forall|j: int| 0 <= j < i ==> s[j].0@ != key,
    ensures
        amount_of(s, key) == s[i].1,
    decreases i,
{
    if i > 0 {
        lemma_amount_of_first_match(s.drop_first(), key, i - 1);
    }
}

/// A key matched by no entry holds 0.
proof fn lemma_amount_of_absent(s: Seq<(AccountId, u128)>, key: Seq<u8>)
    requires
        forall|j: int| 0 <= j < s.len() ==> s[j].0@ != key,
    ensures
        amount_of(s, key) == 0,
    decreases s.len(),
{
    if s.len() > 0 {
        lemma_amount_of_absent(s.drop_first(), key);
    }
}

/// Replacing the entry at `i` changes the total by the difference of amounts.
proof fn lemma_total_of_update(s: Seq<(AccountId, u128)>, i: int, e: (AccountId, u128))
    requires
        0 <= i < s.len(),
    ensures
        total_of(s.update(i, e)) == total_of(s) - s[i].1 + e.1,
    decreases i,
{
    if i == 0 {
        assert(s.update(0, e).drop_first() =~= s.drop_first());
    } else {
        assert(s.update(i, e).drop_first() =~= s.drop_first().update(i - 1, e));
        lemma_total_of_update(s.drop_first(), i - 1, e);
    }
}

/// Replacing the entry at `i` with one of the same key leaves every other
/// key's amount unchanged.
proof fn lemma_amount_of_update_other(
    s: Seq<(AccountId, u128)>,
    i: int,
    e: (AccountId, u128),
    key: Seq<u8>,
)
    requires
        0 <= i < s.len(),
        e.0@ == s[i].0@,
        key != s[i].0@,
    ensures
        amount_of(s.update(i, e), key) == amount_of(s, key),
    decreases i,
{
    if i == 0 {
        assert(s.update(0, e).drop_first() =~= s.drop_first());
    } else {
        assert(s.update(i, e).drop_first() =~= s.drop_first().update(i - 1, e));
        if s[0].0@ != key {
            lemma_amount_of_update_other(s.drop_first(), i - 1, e, key);
        }
    }
}

/// Appending an entry adds its amount to the total.
proof fn lemma_total_of_push(s: Seq<(AccountId, u128)>, e: (AccountId, u128))
    ensures
        total_of(s.push(e)) == total_of(s) + e.1,
    decreases s.len(),
{
    if s.len() == 0 {
        let t = s.push(e);
        assert(t[0] == e);
        assert(t.drop_first().len() == 0);
        assert(total_of(t.drop_first()) == 0);
        assert(total_of(t) == e.1);
    } else {
        assert(s.push(e)[0] == s[0]);
        assert(s.push(e).drop_first() =~= s.drop_first().push(e));
        lemma_total_of_push(s.drop_first(), e);
    }
}

/// Appending an entry leaves every other key's amount unchanged.
proof fn lemma_amount_of_push_other(s: Seq<(AccountId, u128)>, e: (AccountId, u128), key: Seq<u8>)
    requires
        key != e.0@,
    ensures
        amount_of(s.push(e), key) == amount_of(s, key),
    decreases s.len(),
{
    if s.len() == 0 {
        let t = s.push(e);
        assert(t[0] == e);
        assert(t.drop_first().len() == 0);
        assert(amount_of(t.drop_first(), key) == 0);
        assert(amount_of(t, key) == 0);
    } else {
        assert(s.push(e)[0] == s[0]);
        assert(s.push(e).drop_first() =~= s.drop_first().push(e));
        if s[0].0@ != key {
            lemma_amount_of_push_other(s.drop_first(), e, key);
        }
    }
}

/// The total is non-negative, and no single key holds more than the total.
pub proof fn lemma_amount_le_total(s: Seq<(AccountId, u128)>, key: Seq<u8>)
    ensures
        0 <= total_of(s),
        amount_of(s, key) <= total_of(s),
    decreases s.len(),
{
    if s.len() > 0 {
        lemma_amount_le_total(s.drop_first(), key);
    }
}

impl Balances {
    /// The empty table: every account holds 0.
    pub fn new() -> (r: Balances)
        ensures
            r.entries@.len() == 0,
            distinct_keys(r.entries@),
            forall|key: Seq<u8>| amount_of(r.entries@, key) == 0,
            total_of(r.entries@) == 0,
    {
        Balances { entries: Vec::new() }
    }

    /// The amount held by `of`.
    pub fn get(&self, of: &AccountId) -> (r: u128)
        ensures
            r == amount_of(self.entries@, of@),
    {
        let n = self.entries.len();
        let mut i: usize = 0;
        while i < n
            invariant
                n == self.entries@.len(),
                i <= n,
                forall|j: int| 0 <= j < i ==> self.entries@[j].0@ != of@,
            decreases n - i,
        {
            if self.entries[i].0 == *of {
                proof {
                    lemma_amount_of_first_match(self.entries@, of@, i as int);
                }
                return self.entries[i].1;
            }
            i = i + 1;
        }
        proof {
            lemma_amount_of_absent(self.entries@, of@);
        }
        0
    }

    /// Sets the amount held by `of` to `amount`, leaving every other account
    /// unchanged and moving the total by the difference.
    pub fn set(&mut self, of: AccountId, amount: u128)
        requires
            distinct_keys(old(self).entries@),
        ensures
            distinct_keys(final(self).entries@),
            amount_of(final(self).entries@, of@) == amount,
            forall|key: Seq<u8>|
                key != of@ ==> amount_of(final(self).entries@, key) == amount_of(
                    old(self).entries@,
                    key,
                ),
            total_of(final(self).entries@) == total_of(old(self).entries@) - amount_of(
                old(self).entries@,
                of@,
            ) + amount,
    {
        let n = self.entries.len();
        let mut i: usize = 0;
        while i < n
            invariant
                n == self.entries@.len(),
                i <= n,
                forall|j: int| 0 <= j < i ==> self.entries@[j].0@ != of@,
                *self == *old(self),
                distinct_keys(old(self).entries@),
            decreases n - i,
        {
            if self.entries[i].0 == of {
                let ghost pre = self.entries@;
                let ghost idx = i as int;
                let key_i = self.entries[i].0;
                self.entries.set(i, (key_i, amount));
                proof {
                    assert(self.entries@ =~= pre.update(idx, (pre[idx].0, amount)));
                    lemma_amount_of_first_match(pre, of@, idx);
                    lemma_amount_of_first_match(self.entries@, of@, idx);
                    lemma_total_of_update(pre, idx, (pre[idx].0, amount));
                    assert forall|key: Seq<u8>| key != of@ implies amount_of(
                        self.entries@,
                        key,
                    ) == amount_of(pre, key) by {
                        lemma_amount_of_update_other(pre, idx, (pre[idx].0, amount), key);
                    }
                    assert forall|p: int, q: int|
                        0 <= p < q < self.entries@.len() implies self.entries@[p].0@
                        != self.entries@[q].0@ by {
                        assert(distinct_keys(pre));
                        assert(pre[p].0@ != pre[q].0@);
                        assert(self.entries@[p].0 == pre[p].0);
                        assert(self.entries@[q].0 == pre[q].0);
                    }
                }
                return;
            }
            i = i + 1;
        }
        let ghost pre = self.entries@;
        self.entries.push((of, amount));
        proof {
            lemma_amount_of_absent(pre, of@);
            lemma_amount_of_first_match(self.entries@, of@, pre.len() as int);
            lemma_total_of_push(pre, (of, amount));
            assert forall|key: Seq<u8>| key != of@ implies amount_of(self.entries@, key)
                == amount_of(pre, key) by {
                lemma_amount_of_push_other(pre, (of, amount), key);
            }
        }
    }
}

} // verus!
