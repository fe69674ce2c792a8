use donation_ledger::{AccountId, AccountLedger, LedgerEntry};

fn id(text: &str) -> AccountId {
    AccountId::parse(text).unwrap()
}

#[test]
fn new_ledger_is_empty() {
    let ledger = AccountLedger::new();
    assert_eq!(ledger.count(), 0);
    assert_eq!(ledger.get(&id("alice.near")), 0);
    assert!(ledger.entries().is_empty());
}

#[test]
fn set_then_get() {
    let mut ledger = AccountLedger::new();
    ledger.set(&id("alice.near"), 17);
    assert_eq!(ledger.get(&id("alice.near")), 17);
    assert_eq!(ledger.get(&id("bob.near")), 0);
    assert_eq!(ledger.count(), 1);
}

#[test]
fn set_overwrites_and_does_not_merge() {
    let mut ledger = AccountLedger::new();
    ledger.set(&id("alice.near"), 17);
    ledger.set(&id("alice.near"), 4);
    assert_eq!(ledger.get(&id("alice.near")), 4);
    assert_eq!(ledger.count(), 1);
}

#[test]
fn count_counts_accounts() {
    let mut ledger = AccountLedger::new();
    ledger.set(&id("alice.near"), 1);
    ledger.set(&id("bob.near"), 2);
    ledger.set(&id("alice.near"), 3);
    ledger.set(&id("carol.near"), 0);
    assert_eq!(ledger.count(), 3);
    assert_eq!(ledger.get(&id("alice.near")), 3);
    assert_eq!(ledger.get(&id("bob.near")), 2);
    assert_eq!(ledger.get(&id("carol.near")), 0);
}

#[test]
fn entries_list_every_account_once() {
    let mut ledger = AccountLedger::new();
    ledger.set(&id("alice.near"), 1);
    ledger.set(&id("bob.near"), 2);
    ledger.set(&id("alice.near"), 3);
    let mut listing: Vec<(String, u128)> = ledger
        .entries()
        .iter()
        .map(|entry| (entry.account.as_str().to_string(), entry.amount))
        .collect();
    listing.sort();
    assert_eq!(listing, vec![("alice.near".to_string(), 3), ("bob.near".to_string(), 2)]);
}

#[test]
fn ledger_from_entries_holds_them() {
    let listing = vec![
        LedgerEntry { account: id("alice.near"), amount: 8 },
        LedgerEntry { account: id("bob.near"), amount: 9 },
    ];
    let ledger = AccountLedger::from_entries(listing).unwrap();
    assert_eq!(ledger.count(), 2);
    assert_eq!(ledger.get(&id("alice.near")), 8);
    assert_eq!(ledger.get(&id("bob.near")), 9);
    assert_eq!(ledger.get(&id("carol.near")), 0);
}

#[test]
fn ledger_from_no_entries_is_empty() {
    let ledger = AccountLedger::from_entries(Vec::new()).unwrap();
    assert_eq!(ledger.count(), 0);
}

#[test]
fn listing_with_a_repeated_account_is_refused() {
    let listing = vec![
        LedgerEntry { account: id("alice.near"), amount: 8 },
        LedgerEntry { account: id("bob.near"), amount: 9 },
        LedgerEntry { account: id("alice.near"), amount: 8 },
    ];
    assert!(AccountLedger::from_entries(listing).is_none());
}

#[test]
fn entries_round_trip() {
    let mut ledger = AccountLedger::new();
    ledger.set(&id("alice.near"), 1);
    ledger.set(&id("bob.near"), 2);
    let copy = AccountLedger::from_entries(ledger.entries()).unwrap();
    assert_eq!(copy.count(), 2);
    assert_eq!(copy.get(&id("alice.near")), 1);
    assert_eq!(copy.get(&id("bob.near")), 2);
}
