use vstd::prelude::*;
use crate::account::AccountId;

verus! {

/// The authorization table of the ledger: a list of
/// `(owner, spender, amount)` entries with pairwise-distinct key pairs.
/// A pair without an entry is authorized for 0.
pub struct Allowances {
    pub entries: Vec<(AccountId, AccountId, u128)>,
}

/// The amount `spender` may still move out of `owner`'s balance: the value of
/// the first entry whose key pair matches, or 0 when there is none.
pub open spec fn allowed_of(
    s: Seq<(AccountId, AccountId, u128)>,
    owner: Seq<u8>,
    spender: Seq<u8>,
) -> u128
    decreases s.len(),
{
    if s.len() == 0 {
        0
    } else if s[0].0@ == owner && s[0].1@ == spender {
        s[0].2
    } else {
        allowed_of(s.drop_first(), owner, spender)
    }
}

/// No two entries share a key pair.
pub open spec fn distinct_pairs(s: Seq<(AccountId, AccountId, u128)>) -> bool {
    forall|i: int, j: int|
        0 <= i < j < s.len() ==> !(s[i].0@ == s[j].0@ && s[i].1@ == s[j].1@)
}

/// `allowed_of` is determined by the first matching entry.
proof fn lemma_allowed_of_first_match(
    s: Seq<(AccountId, AccountId, u128)>,
    owner: Seq<u8>,
    spender: Seq<u8>,
    i: int,
)
    requires
        0 <= i < s.len(),
        s[i].0@ == owner,
        s[i].1@ == spender,
        forall|j: int| 0 <= j < i ==> !(s[j].0@ == owner && s[j].1@ == spender),
    ensures
        allowed_of(s, owner, spender) == s[i].2,
    decreases i,
{
    if i > 0 {
        lemma_allowed_of_first_match(s.drop_first(), owner, spender, i - 1);
    }
}

/// A pair matched by no entry is authorized for 0.
proof fn lemma_allowed_of_absent(
    s: Seq<(AccountId, AccountId, u128)>,
    owner: Seq<u8>,
    spender: Seq<u8>,
)
    requires
        forall|j: int| 0 <= j < s.len() ==> !(s[j].0@ == owner && s[j].1@ == spender),
    ensures
        allowed_of(s, owner, spender) == 0,
    decreases s.len(),
{
    if s.len() > 0 {
        lemma_allowed_of_absent(s.drop_first(), owner, spender);
    }
}

/// Replacing the entry at `i` with one of the same key pair leaves every
/// other pair's authorization unchanged.
proof fn lemma_allowed_of_update_other(
    s: Seq<(AccountId, AccountId, u128)>,
    i: int,
    e: (AccountId, AccountId, u128),
    owner: Seq<u8>,
    spender: Seq<u8>,
)
    requires
        0 <= i < s.len(),
        e.0@ == s[i].0@,
        e.1@ == s[i].1@,
        !(owner == s[i].0@ && spender == s[i].1@),
    ensures
        allowed_of(s.update(i, e), owner, spender) == allowed_of(s, owner, spender),
    decreases i,
{
    if i == 0 {
        assert(s.update(0, e).drop_first() =~= s.drop_first());
    } else {
        assert(s.update(i, e).drop_first() =~= s.drop_first().update(i - 1, e));
        if !(s[0].0@ == owner && s[0].1@ == spender) {
            lemma_allowed_of_update_other(s.drop_first(), i - 1, e, owner, spender);
        }
    }
}

/// Appending an entry leaves every other pair's authorization unchanged.
proof fn lemma_allowed_of_push_other(
    s: Seq<(AccountId, AccountId, u128)>,
    e: (AccountId, AccountId, u128),
    owner: Seq<u8>,
    spender: Seq<u8>,
)
    requires
        !(owner == e.0@ && spender == e.1@),
    ensures
        allowed_of(s.push(e), owner, spender) == allowed_of(s, owner, spender),
    decreases s.len(),
{
    if s.len() == 0 {
        let t = s.push(e);
        assert(t[0] == e);
        assert(t.drop_first().len() == 0);
        assert(allowed_of(t.drop_first(), owner, spender) == 0);
        assert(allowed_of(t, owner, spender) == 0);
    } else {
        assert(s.push(e)[0] == s[0]);
        assert(s.push(e).drop_first() =~= s.drop_first().push(e));
        if !(s[0].0@ == owner && s[0].1@ == spender) {
            lemma_allowed_of_push_other(s.drop_first(), e, owner, spender);
        }
    }
}

impl Allowances {
    /// The empty table: nothing is authorized.
    pub fn new() -> (r: Allowances)
        ensures
            r.entries@.len() == 0,
            distinct_pairs(r.entries@),
            forall|o: Seq<u8>, p: Seq<u8>| allowed_of(r.entries@, o, p) == 0,
    {
        Allowances { entries: Vec::new() }
    }

    /// The amount `spender` may still move out of `owner`'s balance.
    pub fn get(&self, owner: &AccountId, spender: &AccountId) -> (r: u128)
        ensures
            r == allowed_of(self.entries@, owner@, spender@),
    {
        let n = self.entries.len();
        let mut i: usize = 0;
        while i < n
            invariant
                n == self.entries@.len(),
                i <= n,
                forall|j: int|
                    0 <= j < i ==> !(self.entries@[j].0@ == owner@ && self.entries@[j].1@
                        == spender@),
            decreases n - i,
        {
            if self.entries[i].0 == *owner && self.entries[i].1 == *spender {
                proof {
                    lemma_allowed_of_first_match(self.entries@, owner@, spender@, i as int);
                }
                return self.entries[i].2;
            }
            i = i + 1;
        }
        proof {
            lemma_allowed_of_absent(self.entries@, owner@, spender@);
        }
        0
    }

    /// Sets the amount `spender` may move out of `owner`'s balance to
    /// `amount`, overwriting any earlier authorization of the pair and
    /// leaving every other pair unchanged.
    pub fn set(&mut self, owner: AccountId, spender: AccountId, amount: u128)
        requires
            distinct_pairs(old(self).entries@),
        ensures
            distinct_pairs(final(self).entries@),
            allowed_of(final(self).entries@, owner@, spender@) == amount,
            forall|o: Seq<u8>, p: Seq<u8>|
                !(o == owner@ && p == spender@) ==> allowed_of(final(self).entries@, o, p)
                    == allowed_of(old(self).entries@, o, p),
    {
        let n = self.entries.len();
        let mut i: usize = 0;
        while i < n
            invariant
                n == self.entries@.len(),
                i <= n,
                forall|j: int|
                    0 <= j < i ==> !(self.entries@[j].0@ == owner@ && self.entries@[j].1@
                        == spender@),
                *self == *old(self),
                distinct_pairs(old(self).entries@),
            decreases n - i,
        {
            if self.entries[i].0 == owner && self.entries[i].1 == spender {
                let ghost pre = self.entries@;
                let ghost idx = i as int;
                let owner_i = self.entries[i].0;
                let spender_i = self.entries[i].1;
                self.entries.set(i, (owner_i, spender_i, amount));
                proof {
                    let e = (pre[idx].0, pre[idx].1, amount);
                    assert(self.entries@ =~= pre.update(idx, e));
                    lemma_allowed_of_first_match(pre, owner@, spender@, idx);
                    lemma_allowed_of_first_match(self.entries@, owner@, spender@, idx);
                    assert forall|o: Seq<u8>, p: Seq<u8>|
                        !(o == owner@ && p == spender@) implies allowed_of(self.entries@, o, p)
                        == allowed_of(pre, o, p) by {
                        lemma_allowed_of_update_other(pre, idx, e, o, p);
                    }
                    assert forall|x: int, y: int|
                        0 <= x < y < self.entries@.len() implies !(self.entries@[x].0@
                        == self.entries@[y].0@ && self.entries@[x].1@ == self.entries@[y].1@) by {
                        assert(distinct_pairs(pre));
                        assert(!(pre[x].0@ == pre[y].0@ && pre[x].1@ == pre[y].1@));
                        assert(self.entries@[x].0 == pre[x].0 && self.entries@[x].1 == pre[x].1);
                        assert(self.entries@[y].0 == pre[y].0 && self.entries@[y].1 == pre[y].1);
                    }
                }
                return;
            }
            i = i + 1;
        }
        let ghost pre = self.entries@;
        self.entries.push((owner, spender, amount));
        proof {
            let e = (owner, spender, amount);
            lemma_allowed_of_absent(pre, owner@, spender@);
            lemma_allowed_of_first_match(self.entries@, owner@, spender@, pre.len() as int);
            assert forall|o: Seq<u8>, p: Seq<u8>|
                !(o == owner@ && p == spender@) implies allowed_of(self.entries@, o, p)
                == allowed_of(pre, o, p) by {
                lemma_allowed_of_push_other(pre, e, o, p);
            }
        }
    }
}

} // verus!
