//! The donation contract: a beneficiary, a ledger of donors, and the rule by
//! which an incoming donation is split into a storage fee and a transfer.

use crate::account::{is_valid_account_text, AccountId};
use crate::ledger::{stored_amount, AccountLedger};
use vstd::prelude::*;

verus! {

/// The one-time fee kept from a donor's first donation, which pays for the
/// donor's entry in the ledger.
pub const STORAGE_COST: u128 = 1_000_000_000_000_000_000_000;

/// The beneficiary of a contract that was never constructed explicitly.
pub open spec fn default_beneficiary() -> Seq<char> {
    "charity.saksham010.testnet"@
}

/// A 128-bit amount as it is reported to callers.
#[derive(Debug, Clone, Copy, PartialEq, Eq, Structural)]
pub struct U128(pub u128);

/// Why a call was rejected. A rejected call leaves the contract as it was.
#[derive(Debug, Clone, Copy, PartialEq, Eq, Structural)]
pub enum ContractError {
    /// Construction was attempted although contract state already exists.
    AlreadyInitialized,
    /// A caller without privilege attempted a privileged operation.
    Unauthorized,
    /// A donor's first donation was smaller than [`STORAGE_COST`].
    InsufficientFirstDonation,
    /// The donor's running total would no longer fit in 128 bits.
    TotalOverflow,
}

/// The text that describes each error.
pub open spec fn error_text(error: ContractError) -> Seq<char> {
    match error {
        ContractError::AlreadyInitialized => "Contract has already been initialized"@,
        ContractError::Unauthorized => "Method is private"@,
        ContractError::InsufficientFirstDonation => "First donation is below the storage cost"@,
        ContractError::TotalOverflow => "Donated total exceeds 128 bits"@,
    }
}

impl ContractError {
    /// A description of the error for the caller.
    pub fn message(&self) -> (text: String)
        ensures
            text@ == error_text(*self),
    {
        match self {
            ContractError::AlreadyInitialized => "Contract has already been initialized".to_owned(),
            ContractError::Unauthorized => "Method is private".to_owned(),
            ContractError::InsufficientFirstDonation => {
                "First donation is below the storage cost".to_owned()
            },
            ContractError::TotalOverflow => "Donated total exceeds 128 bits".to_owned(),
        }
    }
}

/// How one donation is accounted for.
#[derive(Debug, Clone, Copy, PartialEq, Eq, Structural)]
pub struct Settlement {
    /// The amount to forward to the beneficiary.
    pub to_transfer: u128,
    /// The donor's running total after this donation.
    pub new_total: u128,
}

/// The accounting rule. A donor whose stored amount is zero is donating for
/// the first time and pays [`STORAGE_COST`] out of the donation; any other
/// donation is forwarded whole. The running total grows by the full donation
/// either way.
pub open spec fn settle(stored: u128, donated: u128) -> Result<Settlement, ContractError> {
    if stored == 0 && donated < STORAGE_COST {
        Err(ContractError::InsufficientFirstDonation)
    } else if stored + donated > u128::MAX {
        Err(ContractError::TotalOverflow)
    } else {
        Ok(
            Settlement {
                to_transfer: if stored == 0 {
                    (donated - STORAGE_COST) as u128
                } else {
                    donated
                },
                new_total: (stored + donated) as u128,
            },
        )
    }
}

/// Applies the accounting rule to a donor's stored amount and a donation.
pub fn settle_donation(stored: u128, donated: u128) -> (settlement: Result<
    Settlement,
    ContractError,
>)
    ensures
        settlement == settle(stored, donated),
{
    let to_transfer: u128 = if stored == 0 {
        match donated.checked_sub(STORAGE_COST) {
            Some(rest) => rest,
            None => {
                return Err(ContractError::InsufficientFirstDonation);
            },
        }
    } else {
        donated
    };
    match stored.checked_add(donated) {
        Some(new_total) => Ok(Settlement { to_transfer, new_total }),
        None => Err(ContractError::TotalOverflow),
    }
}

/// What the contract reports about one account.
#[derive(Debug)]
pub struct Donation {
    pub account_id: AccountId,
    pub total_amount: U128,
}

/// A donation record in terms of plain values.
pub struct DonationView {
    pub account_id: Seq<char>,
    pub total_amount: u128,
}

impl View for Donation {
    type V = DonationView;

    open spec fn view(&self) -> DonationView {
        DonationView { account_id: self.account_id@, total_amount: self.total_amount.0 }
    }
}

/// An outgoing transfer that the host is asked to carry out. It is requested,
/// not confirmed: the contract never learns whether it settled.
#[derive(Debug)]
pub struct Transfer {
    pub amount: u128,
    pub destination: AccountId,
}

/// The result of an accepted donation.
#[derive(Debug)]
pub struct DonationReceipt {
    /// The donor's running total, as acknowledged to the donor.
    pub total_amount: U128,
    /// The transfer to the beneficiary that the host has to carry out.
    pub transfer: Transfer,
}

/// An accepted donation in terms of plain values.
pub struct ReceiptView {
    pub total_amount: u128,
    pub transfer_amount: u128,
    pub destination: Seq<char>,
}

impl View for DonationReceipt {
    type V = ReceiptView;

    open spec fn view(&self) -> ReceiptView {
        ReceiptView {
            total_amount: self.total_amount.0,
            transfer_amount: self.transfer.amount,
            destination: self.transfer.destination@,
        }
    }
}

/// The contract's state in terms of plain values.
pub struct ContractState {
    pub beneficiary: Seq<char>,
    pub donations: Map<Seq<char>, u128>,
}

/// The state of a freshly constructed contract.
pub open spec fn initial_state(beneficiary: Seq<char>) -> ContractState {
    ContractState { beneficiary, donations: Map::empty() }
}

/// What a donation of `donated` by `donor` in `state` is answered with.
pub open spec fn donate_outcome(state: ContractState, donor: Seq<char>, donated: u128) -> Result<
    ReceiptView,
    ContractError,
> {
    match settle(stored_amount(state.donations, donor), donated) {
        Ok(settlement) => Ok(
            ReceiptView {
                total_amount: settlement.new_total,
                transfer_amount: settlement.to_transfer,
                destination: state.beneficiary,
            },
        ),
        Err(error) => Err(error),
    }
}

/// The state after a donation of `donated` by `donor` in `state`: an accepted
/// donation overwrites the donor's stored amount with the new running total,
/// a rejected one changes nothing.
pub open spec fn donate_step(
    state: ContractState,
    donor: Seq<char>,
    donated: u128,
) -> ContractState {
    match settle(stored_amount(state.donations, donor), donated) {
        Ok(settlement) => ContractState {
            beneficiary: state.beneficiary,
            donations: state.donations.insert(donor, settlement.new_total),
        },
        Err(_) => state,
    }
}

/// The record that `state` gives for `account`: the account itself and its
/// stored amount, which is zero for an account without an entry.
pub open spec fn record_of(state: ContractState, account: Seq<char>) -> DonationView {
    DonationView { account_id: account, total_amount: stored_amount(state.donations, account) }
}

/// What an attempt to construct the contract is answered with: a caller
/// without privilege is turned away first, then a deployment that already has
/// state; otherwise the contract starts with `beneficiary` and an empty ledger.
pub open spec fn construct_outcome(
    beneficiary: Seq<char>,
    privileged: bool,
    state_exists: bool,
) -> Result<ContractState, ContractError> {
    if !privileged {
        Err(ContractError::Unauthorized)
    } else if state_exists {
        Err(ContractError::AlreadyInitialized)
    } else {
        Ok(initial_state(beneficiary))
    }
}

/// What an attempt to change the beneficiary is answered with.
pub open spec fn change_outcome(privileged: bool) -> Result<(), ContractError> {
    if privileged {
        Ok(())
    } else {
        Err(ContractError::Unauthorized)
    }
}

/// The state after an attempt to name `beneficiary` as the new recipient: a
/// privileged caller replaces the beneficiary and nothing else, any other
/// caller changes nothing.
pub open spec fn change_step(
    state: ContractState,
    beneficiary: Seq<char>,
    privileged: bool,
) -> ContractState {
    if privileged {
        ContractState { beneficiary, donations: state.donations }
    } else {
        state
    }
}

/// The whole durable state of the donation contract.
#[derive(Debug)]
pub struct Contract {
    beneficiary: AccountId,
    donations: AccountLedger,
}

impl View for Contract {
    type V = ContractState;

    closed spec fn view(&self) -> ContractState {
        ContractState { beneficiary: self.beneficiary@, donations: self.donations@ }
    }
}

impl Default for Contract {
    /// The state of a deployment that skipped explicit construction: the
    /// default beneficiary and an empty ledger.
    fn default() -> (contract: Self)
        ensures
            contract@ == initial_state(default_beneficiary()),
    {
        let parsed = AccountId::parse("charity.saksham010.testnet");
        proof {
            reveal_strlit("charity.saksham010.testnet");
        }
        Contract { beneficiary: parsed.unwrap(), donations: AccountLedger::new() }
    }
}

impl Contract {
    /// Constructs the contract with `beneficiary` as recipient and an empty
    /// ledger. `privileged` says whether the caller may construct the
    /// contract, `state_exists` whether the deployment already has state.
    pub fn new(beneficiary: AccountId, privileged: bool, state_exists: bool) -> (constructed:
        Result<Contract, ContractError>)
        ensures
            match construct_outcome(beneficiary@, privileged, state_exists) {
                Ok(state) => constructed matches Ok(contract) && contract@ == state,
                Err(expected) => constructed matches Err(error) && error == expected,
            },
    {
        if !privileged {
            Err(ContractError::Unauthorized)
        } else if state_exists {
            Err(ContractError::AlreadyInitialized)
        } else {
            Ok(Contract { beneficiary, donations: AccountLedger::new() })
        }
    }

    /// The contract with the given beneficiary and ledger, as when the host
    /// hands back state that it kept between two calls.
    pub fn from_parts(beneficiary: AccountId, donations: AccountLedger) -> (contract: Contract)
        ensures
            contract@ == (ContractState { beneficiary: beneficiary@, donations: donations@ }),
    {
        Contract { beneficiary, donations }
    }

    /// The ledger of donors.
    pub fn donations(&self) -> (ledger: &AccountLedger)
        ensures
            ledger@ == self@.donations,
    {
        &self.donations
    }

    /// Names a new beneficiary. Only a privileged caller may do so; the ledger
    /// is not touched.
    pub fn change_beneficiary(&mut self, new_beneficiary: AccountId, privileged: bool) -> (changed:
        Result<(), ContractError>)
        ensures
            changed == change_outcome(privileged),
            final(self)@ == change_step(old(self)@, new_beneficiary@, privileged),
    {
        if privileged {
            self.beneficiary = new_beneficiary;
            Ok(())
        } else {
            Err(ContractError::Unauthorized)
        }
    }

    /// Accepts a donation of `donated_amount` from `donor`.
    ///
    /// An accepted donation is recorded in the ledger and answered with the
    /// donor's running total and the transfer that the host has to request
    /// for the beneficiary. A rejected donation changes nothing and requests
    /// no transfer.
    pub fn donate(&mut self, donor: AccountId, donated_amount: u128) -> (outcome: Result<
        DonationReceipt,
        ContractError,
    >)
        ensures
            match donate_outcome(old(self)@, donor@, donated_amount) {
                Ok(expected) => outcome matches Ok(receipt) && receipt@ == expected,
                Err(expected) => outcome matches Err(error) && error == expected,
            },
            final(self)@ == donate_step(old(self)@, donor@, donated_amount),
    {
        let stored: u128 = self.donations.get(&donor);
        match settle_donation(stored, donated_amount) {
            Ok(settlement) => {
                self.donations.set(&donor, settlement.new_total);
                Ok(
                    DonationReceipt {
                        total_amount: U128(settlement.new_total),
                        transfer: Transfer {
                            amount: settlement.to_transfer,
                            destination: self.beneficiary.clone(),
                        },
                    },
                )
            },
            Err(error) => Err(error),
        }
    }

    /// The record of `account`: its stored amount, or zero if it never
    /// donated.
    pub fn get_donation_for_id(&self, account: AccountId) -> (donation: Donation)
        ensures
            donation.account_id == account,
            donation@ == record_of(self@, account@),
    {
        let total: u128 = self.donations.get(&account);
        Donation { account_id: account, total_amount: U128(total) }
    }

    /// The number of accounts with an entry in the ledger.
    pub fn get_total_number_donations(&self) -> (count: u64)
        ensures
            self@.donations.dom().finite(),
            count == self@.donations.dom().len(),
    {
        self.donations.count()
    }

    /// The current beneficiary, which is always a valid account identifier.
    pub fn get_name_beneficiary(&self) -> (beneficiary: AccountId)
        ensures
            beneficiary@ == self@.beneficiary,
            is_valid_account_text(self@.beneficiary),
    {
        self.beneficiary.clone()
    }
}

} // verus!
