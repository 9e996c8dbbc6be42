use vstd::prelude::*;
use crate::account::AccountId;
use crate::allowances::Allowances;
use crate::allowances::allowed_of;
use crate::allowances::distinct_pairs;
use crate::balances::Balances;
use crate::balances::amount_of;
use crate::balances::distinct_keys;
use crate::balances::lemma_amount_le_total;
use crate::balances::total_of;

verus! {

/// The closed set of failures a ledger operation can report.
#[derive(Clone, Copy, Debug, PartialEq, Eq)]
pub enum Error {
    /// The source account holds less than the amount to move or burn.
    InsufficientBalance,
    /// The delegated caller is authorized for less than the requested value.
    InsufficientAllowance,
    /// A privileged operation was invoked by an identity other than the
    /// ledger's creator.
    OnlyForCreator,
    /// The operation would push an amount past the representable range.
    Overflow,
}

/// Notification of tokens moved: a mint shows `from == None`, a burn shows
/// `to == None`.
#[derive(Clone, Copy, Debug, PartialEq, Eq)]
pub struct Transfer {
    pub from: Option<AccountId>,
    pub to: Option<AccountId>,
    pub value: u128,
}

/// Notification of an authorization set by `owner` for `spender`.
#[derive(Clone, Copy, Debug, PartialEq, Eq)]
pub struct Approval {
    pub owner: AccountId,
    pub spender: AccountId,
    pub value: u128,
}

/// One entry of the ledger's append-only notification log.
#[derive(Clone, Copy, Debug, PartialEq, Eq)]
pub enum Event {
    Transfer(Transfer),
    Approval(Approval),
}

/// The fungible-token ledger: balances, allowances, and the operations that
/// preserve the supply invariant under adversarial callers.
pub struct Erc20 {
    pub creator: AccountId,
    pub name: Vec<u8>,
    pub symbol: Vec<u8>,
    pub total_supply: u128,
    pub balances: Balances,
    pub allowances: Allowances,
    pub events: Vec<Event>,
}

/// A `Transfer` notification as a log entry.
pub open spec fn transfer_event(from: Option<AccountId>, to: Option<AccountId>, value: u128) -> Event {
    Event::Transfer(Transfer { from, to, value })
}

/// An `Approval` notification as a log entry.
pub open spec fn approval_event(owner: AccountId, spender: AccountId, value: u128) -> Event {
    Event::Approval(Approval { owner, spender, value })
}

/// The step from `pre` to `post` appended exactly the notification `e`.
pub open spec fn emitted(pre: Erc20, post: Erc20, e: Event) -> bool {
    post.events@ == pre.events@.push(e)
}

/// The creator and the metadata never change after construction.
pub open spec fn same_token_info(pre: Erc20, post: Erc20) -> bool {
    &&& post.creator@ == pre.creator@
    &&& post.name@ == pre.name@
    &&& post.symbol@ == pre.symbol@
}

/// Every account holds the same amount in `pre` and `post`.
pub open spec fn same_balances(pre: Erc20, post: Erc20) -> bool {
    forall|a: Seq<u8>| post.spec_balance_of(a) == pre.spec_balance_of(a)
}

/// Every pair is authorized for the same amount in `pre` and `post`.
pub open spec fn same_allowances(pre: Erc20, post: Erc20) -> bool {
    forall|o: Seq<u8>, p: Seq<u8>| post.spec_allowance(o, p) == pre.spec_allowance(o, p)
}

/// Balances in `post` are those of `pre` with `value` moved: the source
/// (when present) debited, the destination (when present) credited, and
/// every other account untouched.
pub open spec fn balances_moved(
    pre: Erc20,
    post: Erc20,
    from: Option<AccountId>,
    to: Option<AccountId>,
    value: u128,
) -> bool {
    forall|a: Seq<u8>|
        (#[trigger] post.spec_balance_of(a)) as int == pre.spec_balance_of(a) + (
        if to matches Some(t) && t@ == a {
            value as int
        } else {
            0
        }) - (
        if from matches Some(f) && f@ == a {
            value as int
        } else {
            0
        })
}

impl Erc20 {
    /// The amount held by the account with view `account`; 0 when it has no
    /// entry.
    pub open spec fn spec_balance_of(&self, account: Seq<u8>) -> u128 {
        amount_of(self.balances.entries@, account)
    }

    /// The amount the spender with view `spender` may still move out of the
    /// balance of the owner with view `owner`; 0 when the pair has no entry.
    pub open spec fn spec_allowance(&self, owner: Seq<u8>, spender: Seq<u8>) -> u128 {
        allowed_of(self.allowances.entries@, owner, spender)
    }

    /// The sum of all account balances.
    pub open spec fn sum_of_balances(&self) -> int {
        total_of(self.balances.entries@)
    }

    /// Well-formedness: both tables have distinct keys, and the recorded
    /// total supply equals the sum of all balances. Construction establishes
    /// it and every operation preserves it.
    pub open spec fn wf(&self) -> bool {
        &&& distinct_keys(self.balances.entries@)
        &&& distinct_pairs(self.allowances.entries@)
        &&& self.total_supply as int == self.sum_of_balances()
    }

    /// Creates the ledger: `caller` becomes the creator, the whole supply is
    /// credited to it, no allowances exist, and a single mint notification is
    /// logged. Construction cannot fail.
    pub fn new(caller: AccountId, name: Vec<u8>, symbol: Vec<u8>, total_supply: u128) -> (r: Erc20)
        ensures
            r.wf(),
            r.creator@ == caller@,
            r.name@ == name@,
            r.symbol@ == symbol@,
            r.total_supply == total_supply,
            r.spec_balance_of(caller@) == total_supply,
            forall|a: Seq<u8>| a != caller@ ==> r.spec_balance_of(a) == 0,
            forall|o: Seq<u8>, p: Seq<u8>| r.spec_allowance(o, p) == 0,
            r.events@ =~= seq![transfer_event(None, Some(caller), total_supply)],
    {
        let mut balances = Balances::new();
        balances.set(caller, total_supply);
        let mut events: Vec<Event> = Vec::new();
        events.push(Event::Transfer(Transfer { from: None, to: Some(caller), value: total_supply }));
        Erc20 {
            creator: caller,
            name,
            symbol,
            total_supply,
            balances,
            allowances: Allowances::new(),
            events,
        }
    }

    /// The token's name.
    pub fn name(&self) -> (r: Vec<u8>)
        ensures
            r@ == self.name@,
    {
        copy_bytes(&self.name)
    }

    /// The token's symbol.
    pub fn symbol(&self) -> (r: Vec<u8>)
        ensures
            r@ == self.symbol@,
    {
        copy_bytes(&self.symbol)
    }

    /// The recorded total supply.
    pub fn total_supply(&self) -> (r: u128)
        ensures
            r == self.total_supply,
    {
        self.total_supply
    }

    /// The balance of `of`; 0 for an unknown account.
    pub fn balance_of(&self, of: AccountId) -> (r: u128)
        ensures
            r == self.spec_balance_of(of@),
    {
        self.balances.get(&of)
    }

    /// The amount `spender` may still move out of `owner`'s balance; 0 when
    /// no authorization exists.
    pub fn allowance(&self, owner: AccountId, spender: AccountId) -> (r: u128)
        ensures
            r == self.spec_allowance(owner@, spender@),
    {
        self.allowances.get(&owner, &spender)
    }

    /// Moves `value` from the caller to `to`. Fails with
    /// `InsufficientBalance`, and changes nothing, exactly when the caller
    /// holds less than `value`.
    pub fn transfer(&mut self, caller: AccountId, to: AccountId, value: u128) -> (r: Result<
        (),
        Error,
    >)
        requires
            old(self).wf(),
        ensures
            final(self).wf(),
            same_token_info(*old(self), *final(self)),
            final(self).total_supply == old(self).total_supply,
            same_allowances(*old(self), *final(self)),
            r is Ok <==> old(self).spec_balance_of(caller@) >= value,
            r is Err ==> r == Err::<(), Error>(Error::InsufficientBalance) && *final(self) == *old(
                self,
            ),
            r is Ok ==> balances_moved(*old(self), *final(self), Some(caller), Some(to), value),
            r is Ok ==> emitted(
                *old(self),
                *final(self),
                transfer_event(Some(caller), Some(to), value),
            ),
    {
        self.transfer_from_to(Some(caller), Some(to), value)
    }

    /// Sets — overwrites, never accumulates — the amount `spender` may move
    /// out of the caller's balance, regardless of what the caller currently
    /// holds, and logs an `Approval` notification. Cannot fail.
    pub fn approve(&mut self, caller: AccountId, spender: AccountId, value: u128) -> (r: Result<
        (),
        Error,
    >)
        requires
            old(self).wf(),
        ensures
            final(self).wf(),
            r == Ok::<(), Error>(()),
            same_token_info(*old(self), *final(self)),
            final(self).total_supply == old(self).total_supply,
            same_balances(*old(self), *final(self)),
            final(self).spec_allowance(caller@, spender@) == value,
            forall|o: Seq<u8>, p: Seq<u8>|
                !(o == caller@ && p == spender@) ==> final(self).spec_allowance(o, p) == old(
                    self,
                ).spec_allowance(o, p),
            emitted(*old(self), *final(self), approval_event(caller, spender, value)),
    {
        self.allowances.set(caller, spender, value);
        self.events.push(Event::Approval(Approval { owner: caller, spender, value }));
        Ok(())
    }

    /// Moves `value` from `from` to `to` on behalf of `caller`, within the
    /// authorization `(from, caller)`. Fails with `InsufficientAllowance`
    /// when that authorization is below `value`, and with
    /// `InsufficientBalance` when `from` holds less than `value`; a failed
    /// call changes nothing — in particular the allowance is not consumed on
    /// a balance failure. On success the authorization is debited by `value`
    /// and a single `Transfer` notification is logged.
    pub fn transfer_from(
        &mut self,
        caller: AccountId,
        from: AccountId,
        to: AccountId,
        value: u128,
    ) -> (r: Result<(), Error>)
        requires
            old(self).wf(),
        ensures
            final(self).wf(),
            same_token_info(*old(self), *final(self)),
            final(self).total_supply == old(self).total_supply,
            r == Err::<(), Error>(Error::InsufficientAllowance) <==> old(self).spec_allowance(
                from@,
                caller@,
            ) < value,
            r == Err::<(), Error>(Error::InsufficientBalance) <==> (old(self).spec_allowance(
                from@,
                caller@,
            ) >= value && old(self).spec_balance_of(from@) < value),
            r is Err ==> *final(self) == *old(self),
            r is Ok <==> (old(self).spec_allowance(from@, caller@) >= value && old(
                self,
            ).spec_balance_of(from@) >= value),
            r is Ok ==> balances_moved(*old(self), *final(self), Some(from), Some(to), value),
            r is Ok ==> final(self).spec_allowance(from@, caller@) == old(self).spec_allowance(
                from@,
                caller@,
            ) - value,
            r is Ok ==> forall|o: Seq<u8>, p: Seq<u8>|
                !(o == from@ && p == caller@) ==> final(self).spec_allowance(o, p) == old(
                    self,
                ).spec_allowance(o, p),
            r is Ok ==> emitted(
                *old(self),
                *final(self),
                transfer_event(Some(from), Some(to), value),
            ),
    {
        let current_allowance = self.allowance(from, caller);
        if current_allowance < value {
            return Err(Error::InsufficientAllowance);
        }
        let moved = self.transfer_from_to(Some(from), Some(to), value);
        match moved {
            Err(e) => {
                return Err(e);
            },
            Ok(_) => {},
        }
        let ghost mid = *self;
        self.allowances.set(from, caller, current_allowance - value);
        proof {
            lemma_balances_moved_stable(*old(self), mid, *self, Some(from), Some(to), value);
        }
        Ok(())
    }

    /// Expands the supply: only the creator may call, and the issued amount
    /// is credited to the creator. Fails with `OnlyForCreator` for any other
    /// caller and with `Overflow` when the supply would leave the
    /// representable range; a failed call changes nothing.
    pub fn issue(&mut self, caller: AccountId, amount: u128) -> (r: Result<(), Error>)
        requires
            old(self).wf(),
        ensures
            final(self).wf(),
            same_token_info(*old(self), *final(self)),
            same_allowances(*old(self), *final(self)),
            r == Err::<(), Error>(Error::OnlyForCreator) <==> caller@ != old(self).creator@,
            r == Err::<(), Error>(Error::Overflow) <==> (caller@ == old(self).creator@ && old(
                self,
            ).total_supply + amount > u128::MAX),
            r is Err ==> *final(self) == *old(self),
            r is Ok <==> (caller@ == old(self).creator@ && old(self).total_supply + amount
                <= u128::MAX),
            r is Ok ==> final(self).total_supply == old(self).total_supply + amount,
            r is Ok ==> balances_moved(*old(self), *final(self), None, Some(caller), amount),
            r is Ok ==> emitted(*old(self), *final(self), transfer_event(None, Some(caller), amount)),
    {
        if !(caller == self.creator) {
            return Err(Error::OnlyForCreator);
        }
        if amount > u128::MAX - self.total_supply {
            return Err(Error::Overflow);
        }
        self.total_supply = self.total_supply + amount;
        self.transfer_from_to(None, Some(caller), amount)
    }

    /// Burns `amount` out of the caller's own balance and shrinks the supply
    /// accordingly. Fails with `InsufficientBalance`, and changes nothing,
    /// exactly when the caller holds less than `amount`.
    pub fn burn(&mut self, caller: AccountId, amount: u128) -> (r: Result<(), Error>)
        requires
            old(self).wf(),
        ensures
            final(self).wf(),
            same_token_info(*old(self), *final(self)),
            same_allowances(*old(self), *final(self)),
            r is Ok <==> old(self).spec_balance_of(caller@) >= amount,
            r is Err ==> r == Err::<(), Error>(Error::InsufficientBalance) && *final(self) == *old(
                self,
            ),
            r is Ok ==> final(self).total_supply == old(self).total_supply - amount,
            r is Ok ==> balances_moved(*old(self), *final(self), Some(caller), None, amount),
            r is Ok ==> emitted(*old(self), *final(self), transfer_event(Some(caller), None, amount)),
    {
        proof {
            lemma_amount_le_total(self.balances.entries@, caller@);
        }
        let moved = self.transfer_from_to(Some(caller), None, amount);
        match moved {
            Err(e) => {
                return Err(e);
            },
            Ok(_) => {},
        }
        let ghost mid = *self;
        self.total_supply = self.total_supply - amount;
        proof {
            lemma_balances_moved_stable(*old(self), mid, *self, Some(caller), None, amount);
        }
        Ok(())
    }

    /// The internal transfer primitive shared by every movement of tokens: a
    /// present source is checked and debited, a present destination is
    /// credited, and exactly one `Transfer` notification carrying the
    /// original optional endpoints is logged. Supply bookkeeping is the
    /// caller's concern.
    fn transfer_from_to(
        &mut self,
        from: Option<AccountId>,
        to: Option<AccountId>,
        value: u128,
    ) -> (r: Result<(), Error>)
        requires
            distinct_keys(old(self).balances.entries@),
            total_of(old(self).balances.entries@) <= u128::MAX,
            from is None ==> total_of(old(self).balances.entries@) + value <= u128::MAX,
        ensures
            distinct_keys(final(self).balances.entries@),
            final(self).creator == old(self).creator,
            final(self).name == old(self).name,
            final(self).symbol == old(self).symbol,
            final(self).total_supply == old(self).total_supply,
            final(self).allowances == old(self).allowances,
            r is Err <==> (from matches Some(f) && old(self).spec_balance_of(f@) < value),
            r is Err ==> r == Err::<(), Error>(Error::InsufficientBalance) && *final(self) == *old(
                self,
            ),
            r is Ok ==> balances_moved(*old(self), *final(self), from, to, value),
            r is Ok ==> total_of(final(self).balances.entries@) == total_of(
                old(self).balances.entries@,
            ) + (
            if to is Some {
                value as int
            } else {
                0
            }) - (
            if from is Some {
                value as int
            } else {
                0
            }),
            r is Ok ==> emitted(*old(self), *final(self), transfer_event(from, to, value)),
    {
        match from {
            Some(from_account) => {
                let from_balance = self.balances.get(&from_account);
                if from_balance < value {
                    return Err(Error::InsufficientBalance);
                }
                self.balances.set(from_account, from_balance - value);
            },
            None => {},
        }
        match to {
            Some(to_account) => {
                let to_balance = self.balances.get(&to_account);
                proof {
                    lemma_amount_le_total(self.balances.entries@, to_account@);
                }
                self.balances.set(to_account, to_balance + value);
            },
            None => {},
        }
        self.events.push(Event::Transfer(Transfer { from, to, value }));
        Ok(())
    }
}

/// Copies a byte vector; the metadata accessors hand out copies so the
/// ledger's own record stays untouched.
fn copy_bytes(src: &Vec<u8>) -> (r: Vec<u8>)
    ensures
        r@ == src@,
{
    let n = src.len();
    let mut out: Vec<u8> = Vec::new();
    let mut i: usize = 0;
    while i < n
        invariant
            i <= n,
            n == src@.len(),
            out@.len() == i,
            forall|j: int| 0 <= j < i ==> out@[j] == src@[j],
        decreases n - i,
    {
        out.push(src[i]);
        i = i + 1;
    }
    proof {
        assert(out@ =~= src@);
    }
    out
}

/// A movement of balances is unaffected by later steps that leave the
/// balance table alone.
proof fn lemma_balances_moved_stable(
    pre: Erc20,
    mid: Erc20,
    post: Erc20,
    from: Option<AccountId>,
    to: Option<AccountId>,
    value: u128,
)
    requires
        balances_moved(pre, mid, from, to, value),
        post.balances == mid.balances,
    ensures
        balances_moved(pre, post, from, to, value),
{
    assert forall|a: Seq<u8>|
        (#[trigger] post.spec_balance_of(a)) as int == pre.spec_balance_of(a) + (
        if to matches Some(t) && t@ == a {
            value as int
        } else {
            0
        }) - (
        if from matches Some(f) && f@ == a {
            value as int
        } else {
            0
        }) by {
        assert(post.spec_balance_of(a) == mid.spec_balance_of(a));
    }
}

/// The supply invariant: in every well-formed ledger state the recorded
/// total supply equals the sum of all account balances.
pub proof fn lemma_supply_equals_sum_of_balances(token: Erc20)
    requires
        token.wf(),
    ensures
        token.total_supply as int == total_of(token.balances.entries@),
{
}

/// Non-negativity: every balance is a non-negative amount, and no single
/// account ever holds more than the total supply.
pub proof fn lemma_balance_bounded(token: Erc20, account: Seq<u8>)
    requires
        token.wf(),
    ensures
        0 <= token.spec_balance_of(account) <= token.total_supply,
{
    lemma_amount_le_total(token.balances.entries@, account);
}

} // verus!
