use vstd::prelude::*;
use crate::account::AccountId;
use crate::ledger::Erc20;

verus! {

/// A passthrough around a ledger: it holds the token and exposes a single
/// read call that forwards to the token's `balance_of`.
pub struct Delegate {
    pub token: Erc20,
}

impl Delegate {
    /// Wraps the referenced token.
    pub fn new(token: Erc20) -> (r: Delegate)
        ensures
            r.token == token,
    {
        Delegate { token }
    }

    /// The referenced token's balance for `owner`.
    pub fn call(&self, owner: AccountId) -> (r: u128)
        ensures
            r == self.token.spec_balance_of(owner@),
    {
        self.token.balance_of(owner)
    }
}

} // verus!
