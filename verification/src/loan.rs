use vstd::prelude::*;
use crate::account::AccountId;
use crate::ledger;
use crate::ledger::Erc20;

verus! {

/// The failures the loan contract can report.
#[derive(Clone, Copy, Debug, PartialEq, Eq)]
pub enum Error {
    /// A privileged operation was invoked by an identity other than the
    /// contract's owner.
    OnlyForOwner,
    /// The operation would push an amount past the representable range.
    Overflow,
}

/// A collateral/borrowing contract layered on top of the ledger: it keeps
/// its own pledge and borrowing books and pulls tokens into its custody
/// through the ledger's delegated transfer.
pub struct Loan {
    pub owner: AccountId,
    pub base_token_accountid: AccountId,
    pub borrowings_balance: u128,
    pub total_borrowings: u128,
    pub min_collateral_ratio: Vec<(AccountId, u32)>,
    pub pledges: Vec<(AccountId, AccountId, u128)>,
    pub borrowings: Vec<(AccountId, u128)>,
}

/// Every book of the contract except the recharge counter is unchanged.
pub open spec fn books_kept(pre: Loan, post: Loan) -> bool {
    &&& post.owner == pre.owner
    &&& post.base_token_accountid == pre.base_token_accountid
    &&& post.total_borrowings == pre.total_borrowings
    &&& post.min_collateral_ratio == pre.min_collateral_ratio
    &&& post.pledges == pre.pledges
    &&& post.borrowings == pre.borrowings
}

impl Loan {
    /// Creates the contract: `caller` becomes the owner, `token` names the
    /// ledger the contract draws on, and every book starts empty.
    pub fn new(caller: AccountId, token: AccountId) -> (r: Loan)
        ensures
            r.owner@ == caller@,
            r.base_token_accountid@ == token@,
            r.borrowings_balance == 0,
            r.total_borrowings == 0,
            r.min_collateral_ratio@.len() == 0,
            r.pledges@.len() == 0,
            r.borrowings@.len() == 0,
    {
        Loan {
            owner: caller,
            base_token_accountid: token,
            borrowings_balance: 0,
            total_borrowings: 0,
            min_collateral_ratio: Vec::new(),
            pledges: Vec::new(),
            borrowings: Vec::new(),
        }
    }

    /// The amount still available for lending out.
    pub fn borrowings_balance(&self) -> (r: u128)
        ensures
            r == self.borrowings_balance,
    {
        self.borrowings_balance
    }

    /// The amount lent out in total.
    pub fn total_borrowings(&self) -> (r: u128)
        ensures
            r == self.total_borrowings,
    {
        self.total_borrowings
    }

    /// Recharges the lending pool: only the owner may call. The contract,
    /// acting as `self_account`, pulls `amount` from the caller into its own
    /// custody through the ledger's delegated transfer, then raises its local
    /// counter by `amount` whether or not the pull went through — the
    /// counter and the custody balance are separate books. Fails with
    /// `Overflow`, before touching the ledger, when the counter would leave
    /// the representable range.
    pub fn recharge_for_borrowing(
        &mut self,
        token: &mut Erc20,
        caller: AccountId,
        self_account: AccountId,
        amount: u128,
    ) -> (r: Result<(), Error>)
        requires
            old(token).wf(),
        ensures
            final(token).wf(),
            r == Err::<(), Error>(Error::OnlyForOwner) <==> caller@ != old(self).owner@,
            r == Err::<(), Error>(Error::Overflow) <==> (caller@ == old(self).owner@ && old(
                self,
            ).borrowings_balance + amount > u128::MAX),
            r is Err ==> *final(self) == *old(self) && *final(token) == *old(token),
            r is Ok <==> (caller@ == old(self).owner@ && old(self).borrowings_balance + amount
                <= u128::MAX),
            r is Ok ==> final(self).borrowings_balance == old(self).borrowings_balance + amount,
            r is Ok ==> books_kept(*old(self), *final(self)),
            r is Ok ==> ledger::same_token_info(*old(token), *final(token)),
            r is Ok ==> final(token).total_supply == old(token).total_supply,
            (r is Ok && old(token).spec_allowance(caller@, self_account@) >= amount && old(
                token,
            ).spec_balance_of(caller@) >= amount) ==> ledger::balances_moved(
                *old(token),
                *final(token),
                Some(caller),
                Some(self_account),
                amount,
            ) && final(token).spec_allowance(caller@, self_account@) == old(token).spec_allowance(
                caller@,
                self_account@,
            ) - amount && ledger::emitted(
                *old(token),
                *final(token),
                ledger::transfer_event(Some(caller), Some(self_account), amount),
            ),
            (r is Ok && (old(token).spec_allowance(caller@, self_account@) < amount || old(
                token,
            ).spec_balance_of(caller@) < amount)) ==> *final(token) == *old(token),
    {
        if !(caller == self.owner) {
            return Err(Error::OnlyForOwner);
        }
        if amount > u128::MAX - self.borrowings_balance {
            return Err(Error::Overflow);
        }
        let _moved = token.transfer_from(self_account, caller, self_account, amount);
        self.borrowings_balance = self.borrowings_balance + amount;
        Ok(())
    }
}

} // verus!
