//! Verified account-state logic for three small on-chain contracts: a donation
//! ledger, a counter and a guestbook.
//!
//! The donation ledger is the core. [`donation::Contract`] is the contract's
//! whole durable state; every operation takes what the host would supply (the
//! caller, the attached value, the privilege flag) as a plain argument and
//! hands back what the host has to carry out (the outgoing transfer) as a
//! plain value, so that each call is a total function from state and input to
//! state and output.

pub mod account;
pub mod counter;
pub mod donation;
pub mod guard;
pub mod guestbook;
pub mod laws;
pub mod ledger;

pub use account::{AccountId, ParseAccountIdError};
pub use counter::Counter;
pub use donation::{
    Contract, ContractError, Donation, DonationReceipt, Settlement, Transfer, STORAGE_COST, U128,
};
pub use guard::InitializationGuard;
pub use ledger::{AccountLedger, LedgerEntry};
