//! A fungible-token ledger: per-account balances, per-(owner, spender)
//! allowances, and the state transitions — issue, transfer, delegated
//! transfer, approve, burn — that preserve the supply invariant under
//! adversarial callers. Around it stand its thin consumers: a delegating
//! read proxy, a collateral/borrowing contract drawing on the ledger, and a
//! contract mirroring a host randomness source.

pub mod account;
pub mod allowances;
pub mod balances;
pub mod delegate;
pub mod ledger;
pub mod loan;
pub mod randkey;

pub use account::AccountId;
pub use delegate::Delegate;
pub use ledger::Approval;
pub use ledger::Erc20;
pub use ledger::Error;
pub use ledger::Event;
pub use ledger::Transfer;
pub use loan::Loan;
pub use randkey::ClaimCreated;
pub use randkey::KittyCreated;
pub use randkey::Randkey;
pub use randkey::RandkeyEvent;
pub use randkey::RandomReadErr;
pub use randkey::RandomUpdated;
