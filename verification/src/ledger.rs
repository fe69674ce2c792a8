//! The account ledger: one stored amount per account.

use crate::account::AccountId;
use vstd::prelude::*;

verus! {

/// One line of the ledger: an account and the amount stored for it.
#[derive(Debug)]
pub struct LedgerEntry {
    pub account: AccountId,
    pub amount: u128,
}

impl Clone for LedgerEntry {
    fn clone(&self) -> (copy: Self)
        ensures
            copy == *self,
    {
        LedgerEntry { account: self.account.clone(), amount: self.amount }
    }
}

/// The accounts named by a list of entries, in the order of the list.
pub open spec fn entry_keys(entries: Seq<LedgerEntry>) -> Seq<Seq<char>> {
    entries.map_values(|entry: LedgerEntry| entry.account@)
}

/// The mapping that a list of entries stands for. Where no account is named
/// twice, every entry of the list is a pair of the mapping and the mapping has
/// no other pairs.
pub open spec fn entries_map(entries: Seq<LedgerEntry>) -> Map<Seq<char>, u128> {
    Map::new(
        |account: Seq<char>| entry_keys(entries).contains(account),
        |account: Seq<char>| entries[entry_keys(entries).index_of(account)].amount,
    )
}

/// The amount that a ledger holds for `account`: the stored value, or zero for
/// an account without an entry.
pub open spec fn stored_amount(ledger: Map<Seq<char>, u128>, account: Seq<char>) -> u128 {
    if ledger.contains_key(account) {
        ledger[account]
    } else {
        0
    }
}

/// A list of entries without a repeated account stands for a finite mapping
/// with one pair per entry.
pub proof fn lemma_entries_map(entries: Seq<LedgerEntry>)
    requires
        entry_keys(entries).no_duplicates(),
    ensures
        entries_map(entries).dom().finite(),
        entries_map(entries).dom().len() == entries.len(),
        forall|i: int|
            0 <= i < entries.len() ==> entries_map(entries).contains_key(
                #[trigger] entries[i].account@,
            ) && entries_map(entries)[entries[i].account@] == entries[i].amount,
{
    let keys = entry_keys(entries);
    assert(entries_map(entries).dom() =~= keys.to_set());
    vstd::seq_lib::seq_to_set_is_finite(keys);
    keys.unique_seq_to_set();
    assert forall|i: int| 0 <= i < entries.len() implies entries_map(entries).contains_key(
        #[trigger] entries[i].account@,
    ) && entries_map(entries)[entries[i].account@] == entries[i].amount by {
        assert(keys[i] == entries[i].account@);
        assert(keys.index_of(entries[i].account@) == i);
    }
}

/// Replacing the amount of the entry at `i` changes the mapping at that
/// entry's account and nowhere else.
proof fn lemma_replace_entry(entries: Seq<LedgerEntry>, i: int, entry: LedgerEntry)
    requires
        entry_keys(entries).no_duplicates(),
        0 <= i < entries.len(),
        entry.account@ == entries[i].account@,
    ensures
        entry_keys(entries.update(i, entry)) == entry_keys(entries),
        entries_map(entries.update(i, entry)) == entries_map(entries).insert(
            entry.account@,
            entry.amount,
        ),
{
    let keys = entry_keys(entries);
    let after = entries.update(i, entry);
    assert(entry_keys(after) =~= keys);
    assert(keys[i] == entry.account@);
    assert forall|key: Seq<char>| keys.contains(key) implies #[trigger] entries_map(after)[key]
        == entries_map(entries).insert(entry.account@, entry.amount)[key] by {
        let j = keys.index_of(key);
        if key == entry.account@ {
            assert(j == i);
        } else {
            assert(j != i);
        }
    }
    assert(entries_map(after) =~= entries_map(entries).insert(entry.account@, entry.amount));
}

/// Appending an entry for an account that has none adds that one pair to the
/// mapping.
proof fn lemma_append_entry(entries: Seq<LedgerEntry>, entry: LedgerEntry)
    requires
        entry_keys(entries).no_duplicates(),
        !entry_keys(entries).contains(entry.account@),
    ensures
        entry_keys(entries.push(entry)).no_duplicates(),
        entries_map(entries.push(entry)) == entries_map(entries).insert(
            entry.account@,
            entry.amount,
        ),
{
    let keys = entry_keys(entries);
    let after = entries.push(entry);
    let after_keys = entry_keys(after);
    assert(after_keys =~= keys.push(entry.account@));
    assert forall|key: Seq<char>| after_keys.contains(key) <==> (keys.contains(key) || key
        == entry.account@) by {
        if keys.contains(key) {
            let j = keys.index_of(key);
            assert(after_keys[j] == key);
        }
        if key == entry.account@ {
            assert(after_keys[entries.len() as int] == key);
        }
    }
    assert forall|key: Seq<char>| after_keys.contains(key) implies #[trigger] entries_map(
        after,
    )[key] == entries_map(entries).insert(entry.account@, entry.amount)[key] by {
        let j = after_keys.index_of(key);
        if key == entry.account@ {
            assert(j == entries.len());
        } else {
            assert(keys[j] == key);
            assert(keys.index_of(key) == j);
        }
    }
    assert(entries_map(after) =~= entries_map(entries).insert(entry.account@, entry.amount));
}

/// A mapping from account identifier to stored amount, with at most one entry
/// per account.
#[derive(Debug)]
pub struct AccountLedger {
    entries: Vec<LedgerEntry>,
}

impl View for AccountLedger {
    type V = Map<Seq<char>, u128>;

    closed spec fn view(&self) -> Map<Seq<char>, u128> {
        entries_map(self.entries@)
    }
}

impl AccountLedger {
    #[verifier::type_invariant]
    spec fn well_formed(self) -> bool {
        entry_keys(self.entries@).no_duplicates()
    }

    /// A ledger without entries.
    pub fn new() -> (ledger: Self)
        ensures
            ledger@ == Map::<Seq<char>, u128>::empty(),
    {
        let ledger = AccountLedger { entries: Vec::new() };
        assert(ledger@ =~= Map::<Seq<char>, u128>::empty());
        ledger
    }

    /// Where `account` stands in the list, if it has an entry.
    fn position(&self, account: &AccountId) -> (found: Option<usize>)
        ensures
            match found {
                Some(i) => i < self.entries.len() && self.entries@[i as int].account@ == account@,
                None => !entry_keys(self.entries@).contains(account@),
            },
    {
        let mut i: usize = 0;
        while i < self.entries.len()
            invariant
                i <= self.entries.len(),
                forall|j: int| 0 <= j < i ==> self.entries@[j].account@ != account@,
            decreases self.entries.len() - i,
        {
            if self.entries[i].account == *account {
                return Some(i);
            }
            i += 1;
        }
        None
    }

    /// The amount stored for `account`, or zero if it has no entry.
    pub fn get(&self, account: &AccountId) -> (amount: u128)
        ensures
            amount == stored_amount(self@, account@),
    {
        proof {
            use_type_invariant(self);
            lemma_entries_map(self.entries@);
        }
        match self.position(account) {
            Some(i) => self.entries[i].amount,
            None => 0,
        }
    }

    /// Stores `amount` for `account`, replacing what was stored for it before.
    pub fn set(&mut self, account: &AccountId, amount: u128)
        ensures
            final(self)@ == old(self)@.insert(account@, amount),
    {
        proof {
            use_type_invariant(&*self);
        }
        let found = self.position(account);
        let mut entries: Vec<LedgerEntry> = Vec::new();
        std::mem::swap(&mut entries, &mut self.entries);
        let ghost before = entries@;
        let entry = LedgerEntry { account: account.clone(), amount };
        match found {
            Some(i) => {
                proof {
                    lemma_replace_entry(before, i as int, entry);
                }
                entries.set(i, entry);
            },
            None => {
                proof {
                    lemma_append_entry(before, entry);
                }
                entries.push(entry);
            },
        }
        self.entries = entries;
    }

    /// Builds a ledger from a list of entries. A list that names an account
    /// twice stands for no ledger and is refused.
    pub fn from_entries(listing: Vec<LedgerEntry>) -> (ledger: Option<Self>)
        ensures
            ledger is Some <==> entry_keys(listing@).no_duplicates(),
            match ledger {
                Some(built) => built@ == entries_map(listing@),
                None => true,
            },
    {
        let ghost keys = entry_keys(listing@);
        let mut i: usize = 0;
        while i < listing.len()
            invariant
                i <= listing.len(),
                keys == entry_keys(listing@),
                forall|a: int, b: int| 0 <= a < b < i ==> keys[a] != keys[b],
            decreases listing.len() - i,
        {
            let mut j: usize = 0;
            while j < i
                invariant
                    j <= i < listing.len(),
                    keys == entry_keys(listing@),
                    forall|a: int| 0 <= a < j ==> keys[a] != keys[i as int],
                decreases i - j,
            {
                if listing[j].account == listing[i].account {
                    assert(keys[j as int] == keys[i as int]);
                    return None;
                }
                j += 1;
            }
            i += 1;
        }
        Some(AccountLedger { entries: listing })
    }

    /// The entries of the ledger, one per account.
    pub fn entries(&self) -> (listing: Vec<LedgerEntry>)
        ensures
            entry_keys(listing@).no_duplicates(),
            entries_map(listing@) == self@,
    {
        proof {
            use_type_invariant(self);
        }
        let mut listing: Vec<LedgerEntry> = Vec::new();
        let mut i: usize = 0;
        while i < self.entries.len()
            invariant
                i <= self.entries.len(),
                listing@ == self.entries@.subrange(0, i as int),
            decreases self.entries.len() - i,
        {
            listing.push(self.entries[i].clone());
            assert(listing@ =~= self.entries@.subrange(0, i + 1));
            i += 1;
        }
        assert(listing@ =~= self.entries@);
        listing
    }

    /// The number of accounts with an entry.
    pub fn count(&self) -> (count: u64)
        ensures
            self@.dom().finite(),
            count == self@.dom().len(),
    {
        proof {
            use_type_invariant(self);
            lemma_entries_map(self.entries@);
        }
        self.entries.len() as u64
    }
}

} // verus!
