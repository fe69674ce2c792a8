use donation_ledger::donation::settle_donation;
use donation_ledger::{
    AccountId, AccountLedger, Contract, ContractError, LedgerEntry, Settlement, STORAGE_COST, U128,
};

fn account(text: &str) -> AccountId {
    AccountId::parse(text).unwrap()
}

fn contract_for(beneficiary: &str) -> Contract {
    Contract::new(account(beneficiary), true, false).unwrap()
}

#[test]
fn storage_cost_is_one_thousandth_of_a_yotta() {
    assert_eq!(STORAGE_COST, 1_000_000_000_000_000_000_000u128);
}

#[test]
fn first_donation_below_storage_cost_is_rejected() {
    let mut contract = contract_for("charity.near");
    let outcome = contract.donate(account("alice.near"), STORAGE_COST - 1);
    assert_eq!(outcome.unwrap_err(), ContractError::InsufficientFirstDonation);
    assert_eq!(contract.get_donation_for_id(account("alice.near")).total_amount, U128(0));
    assert_eq!(contract.get_total_number_donations(), 0);
    assert_eq!(contract.get_name_beneficiary().as_str(), "charity.near");
}

#[test]
fn first_donation_of_zero_is_rejected() {
    let mut contract = contract_for("charity.near");
    let outcome = contract.donate(account("alice.near"), 0);
    assert_eq!(outcome.unwrap_err(), ContractError::InsufficientFirstDonation);
    assert_eq!(contract.get_total_number_donations(), 0);
}

#[test]
fn first_donation_of_exact_storage_cost_forwards_nothing() {
    let mut contract = contract_for("charity.near");
    let receipt = contract.donate(account("alice.near"), STORAGE_COST).unwrap();
    assert_eq!(receipt.transfer.amount, 0);
    assert_eq!(receipt.transfer.destination.as_str(), "charity.near");
    assert_eq!(receipt.total_amount, U128(STORAGE_COST));
    assert_eq!(
        contract.get_donation_for_id(account("alice.near")).total_amount,
        U128(STORAGE_COST)
    );
}

#[test]
fn first_donation_above_storage_cost_forwards_the_rest() {
    let mut contract = contract_for("charity.near");
    let receipt = contract.donate(account("alice.near"), STORAGE_COST + 250).unwrap();
    assert_eq!(receipt.transfer.amount, 250);
    assert_eq!(receipt.total_amount, U128(STORAGE_COST + 250));
    assert_eq!(
        contract.get_donation_for_id(account("alice.near")).total_amount.0,
        STORAGE_COST + 250
    );
}

#[test]
fn second_donation_is_forwarded_whole() {
    let mut contract = contract_for("charity.near");
    contract.donate(account("alice.near"), STORAGE_COST + 250).unwrap();
    let receipt = contract.donate(account("alice.near"), 40).unwrap();
    assert_eq!(receipt.transfer.amount, 40);
    assert_eq!(receipt.total_amount, U128(STORAGE_COST + 290));
    assert_eq!(
        contract.get_donation_for_id(account("alice.near")).total_amount.0,
        STORAGE_COST + 290
    );
}

#[test]
fn repeat_donation_of_zero_is_accepted() {
    let mut contract = contract_for("charity.near");
    contract.donate(account("alice.near"), STORAGE_COST).unwrap();
    let receipt = contract.donate(account("alice.near"), 0).unwrap();
    assert_eq!(receipt.transfer.amount, 0);
    assert_eq!(receipt.total_amount, U128(STORAGE_COST));
}

#[test]
fn repeat_donation_below_storage_cost_is_accepted() {
    let mut contract = contract_for("charity.near");
    contract.donate(account("alice.near"), STORAGE_COST).unwrap();
    let receipt = contract.donate(account("alice.near"), 1).unwrap();
    assert_eq!(receipt.transfer.amount, 1);
    assert_eq!(receipt.total_amount.0, STORAGE_COST + 1);
}

#[test]
fn total_that_does_not_fit_is_rejected_and_changes_nothing() {
    let mut contract = contract_for("charity.near");
    let receipt = contract.donate(account("alice.near"), u128::MAX).unwrap();
    assert_eq!(receipt.transfer.amount, u128::MAX - STORAGE_COST);
    assert_eq!(receipt.total_amount, U128(u128::MAX));
    let outcome = contract.donate(account("alice.near"), 1);
    assert_eq!(outcome.unwrap_err(), ContractError::TotalOverflow);
    assert_eq!(contract.get_donation_for_id(account("alice.near")).total_amount.0, u128::MAX);
    assert_eq!(contract.get_total_number_donations(), 1);
}

#[test]
fn count_is_the_number_of_distinct_successful_donors() {
    let mut contract = contract_for("charity.near");
    assert_eq!(contract.get_total_number_donations(), 0);
    contract.donate(account("alice.near"), STORAGE_COST).unwrap();
    assert_eq!(contract.get_total_number_donations(), 1);
    contract.donate(account("alice.near"), 5).unwrap();
    contract.donate(account("alice.near"), 6).unwrap();
    assert_eq!(contract.get_total_number_donations(), 1);
    contract.donate(account("bob.near"), STORAGE_COST + 1).unwrap();
    assert_eq!(contract.get_total_number_donations(), 2);
    assert!(contract.donate(account("carol.near"), 3).is_err());
    assert_eq!(contract.get_total_number_donations(), 2);
    contract.donate(account("bob.near"), 9).unwrap();
    assert_eq!(contract.get_total_number_donations(), 2);
}

#[test]
fn donors_are_kept_apart() {
    let mut contract = contract_for("charity.near");
    contract.donate(account("alice.near"), STORAGE_COST + 1).unwrap();
    contract.donate(account("bob.near"), STORAGE_COST + 2).unwrap();
    contract.donate(account("alice.near"), 10).unwrap();
    assert_eq!(
        contract.get_donation_for_id(account("alice.near")).total_amount.0,
        STORAGE_COST + 11
    );
    assert_eq!(
        contract.get_donation_for_id(account("bob.near")).total_amount.0,
        STORAGE_COST + 2
    );
    assert_eq!(contract.get_donation_for_id(account("carol.near")).total_amount.0, 0);
}

#[test]
fn record_names_the_account_asked_for() {
    let mut contract = contract_for("charity.near");
    contract.donate(account("alice.near"), STORAGE_COST + 7).unwrap();
    contract.donate(account("alice.near"), 8).unwrap();
    let donation = contract.get_donation_for_id(account("alice.near"));
    assert_eq!(donation.account_id, account("alice.near"));
    assert_eq!(donation.total_amount, U128(contract.donations().get(&account("alice.near"))));
    let absent = contract.get_donation_for_id(account("nobody.near"));
    assert_eq!(absent.account_id.as_str(), "nobody.near");
    assert_eq!(absent.total_amount, U128(0));
}

#[test]
fn construction_sets_beneficiary_and_empty_ledger() {
    let contract = contract_for("charity.near");
    assert_eq!(contract.get_name_beneficiary().as_str(), "charity.near");
    assert_eq!(contract.get_total_number_donations(), 0);
    assert!(contract.donations().entries().is_empty());
}

#[test]
fn construction_over_existing_state_is_rejected() {
    let outcome = Contract::new(account("charity.near"), true, true);
    assert_eq!(outcome.unwrap_err(), ContractError::AlreadyInitialized);
}

#[test]
fn construction_without_privilege_is_rejected() {
    let outcome = Contract::new(account("charity.near"), false, false);
    assert_eq!(outcome.unwrap_err(), ContractError::Unauthorized);
    let outcome = Contract::new(account("charity.near"), false, true);
    assert_eq!(outcome.unwrap_err(), ContractError::Unauthorized);
}

#[test]
fn default_contract_names_the_default_beneficiary() {
    let contract = Contract::default();
    assert_eq!(contract.get_name_beneficiary().as_str(), "charity.saksham010.testnet");
    assert_eq!(contract.get_total_number_donations(), 0);
}

#[test]
fn privileged_caller_changes_the_beneficiary() {
    let mut contract = contract_for("charity.near");
    contract.donate(account("alice.near"), STORAGE_COST + 1).unwrap();
    assert_eq!(contract.change_beneficiary(account("relief.near"), true), Ok(()));
    assert_eq!(contract.get_name_beneficiary().as_str(), "relief.near");
    assert_eq!(
        contract.get_donation_for_id(account("alice.near")).total_amount.0,
        STORAGE_COST + 1
    );
    let receipt = contract.donate(account("alice.near"), 3).unwrap();
    assert_eq!(receipt.transfer.destination.as_str(), "relief.near");
    let receipt = contract.donate(account("bob.near"), STORAGE_COST + 4).unwrap();
    assert_eq!(receipt.transfer.destination.as_str(), "relief.near");
    assert_eq!(receipt.transfer.amount, 4);
}

#[test]
fn unprivileged_caller_cannot_change_the_beneficiary() {
    let mut contract = contract_for("charity.near");
    assert_eq!(
        contract.change_beneficiary(account("thief.near"), false),
        Err(ContractError::Unauthorized)
    );
    assert_eq!(contract.get_name_beneficiary().as_str(), "charity.near");
    let receipt = contract.donate(account("alice.near"), STORAGE_COST + 3).unwrap();
    assert_eq!(receipt.transfer.destination.as_str(), "charity.near");
}

#[test]
fn settlement_of_a_first_donation() {
    assert_eq!(
        settle_donation(0, STORAGE_COST + 9),
        Ok(Settlement { to_transfer: 9, new_total: STORAGE_COST + 9 })
    );
    assert_eq!(
        settle_donation(0, STORAGE_COST),
        Ok(Settlement { to_transfer: 0, new_total: STORAGE_COST })
    );
    assert_eq!(settle_donation(0, STORAGE_COST - 1), Err(ContractError::InsufficientFirstDonation));
    assert_eq!(settle_donation(0, 0), Err(ContractError::InsufficientFirstDonation));
}

#[test]
fn settlement_of_a_repeat_donation() {
    assert_eq!(settle_donation(5, 7), Ok(Settlement { to_transfer: 7, new_total: 12 }));
    assert_eq!(settle_donation(5, 0), Ok(Settlement { to_transfer: 0, new_total: 5 }));
    assert_eq!(
        settle_donation(1, u128::MAX - 1),
        Ok(Settlement { to_transfer: u128::MAX - 1, new_total: u128::MAX })
    );
    assert_eq!(settle_donation(1, u128::MAX), Err(ContractError::TotalOverflow));
    assert_eq!(settle_donation(u128::MAX, 1), Err(ContractError::TotalOverflow));
}

#[test]
fn error_messages() {
    assert_eq!(
        ContractError::AlreadyInitialized.message(),
        "Contract has already been initialized"
    );
    assert_eq!(ContractError::Unauthorized.message(), "Method is private");
    assert_eq!(
        ContractError::InsufficientFirstDonation.message(),
        "First donation is below the storage cost"
    );
    assert_eq!(ContractError::TotalOverflow.message(), "Donated total exceeds 128 bits");
}

#[test]
fn contract_is_rebuilt_from_its_parts() {
    let listing = vec![
        LedgerEntry { account: account("alice.near"), amount: STORAGE_COST + 5 },
        LedgerEntry { account: account("bob.near"), amount: STORAGE_COST },
    ];
    let ledger = AccountLedger::from_entries(listing).unwrap();
    let mut contract = Contract::from_parts(account("charity.near"), ledger);
    assert_eq!(contract.get_name_beneficiary().as_str(), "charity.near");
    assert_eq!(contract.get_total_number_donations(), 2);
    let receipt = contract.donate(account("alice.near"), 6).unwrap();
    assert_eq!(receipt.transfer.amount, 6);
    assert_eq!(receipt.total_amount.0, STORAGE_COST + 11);
    let receipt = contract.donate(account("carol.near"), STORAGE_COST + 1).unwrap();
    assert_eq!(receipt.transfer.amount, 1);
    assert_eq!(contract.get_total_number_donations(), 3);
}
