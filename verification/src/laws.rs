//! Laws of the donation contract, stated over the plain-value model that the
//! contracts of [`crate::donation::Contract`] and
//! [`crate::guard::InitializationGuard`] speak of.

use crate::donation::{
    change_outcome, change_step, construct_outcome, donate_outcome, donate_step, initial_state,
    record_of, ContractError, ContractState, DonationView, ReceiptView, STORAGE_COST,
};
use crate::guard::construct_step;
use crate::ledger::stored_amount;
use vstd::prelude::*;

verus! {

/// One call of `donate`: who donates, and how much is attached.
pub struct DonateCall {
    pub donor: Seq<char>,
    pub amount: u128,
}

/// The state after a sequence of `donate` calls, accepted or not, made one
/// after the other on `start`.
pub open spec fn run_donations(start: ContractState, calls: Seq<DonateCall>) -> ContractState
    decreases calls.len(),
{
    if calls.len() == 0 {
        start
    } else {
        donate_step(
            run_donations(start, calls.drop_last()),
            calls.last().donor,
            calls.last().amount,
        )
    }
}

/// The accounts of which at least one call in the sequence was accepted.
pub open spec fn successful_donors(start: ContractState, calls: Seq<DonateCall>) -> Set<Seq<char>>
    decreases calls.len(),
{
    if calls.len() == 0 {
        Set::empty()
    } else {
        let earlier = successful_donors(start, calls.drop_last());
        let state = run_donations(start, calls.drop_last());
        if donate_outcome(state, calls.last().donor, calls.last().amount) is Ok {
            earlier.insert(calls.last().donor)
        } else {
            earlier
        }
    }
}

/// A donor without an entry who attaches less than the storage cost is
/// rejected for an insufficient first donation; the state stays as it was and
/// the donor still has no stored amount.
pub proof fn lemma_first_donation_below_cost(state: ContractState, donor: Seq<char>, amount: u128)
    requires
        !state.donations.contains_key(donor),
        amount < STORAGE_COST,
    ensures
        donate_outcome(state, donor, amount) == Err::<ReceiptView, ContractError>(
            ContractError::InsufficientFirstDonation,
        ),
        donate_step(state, donor, amount) == state,
        stored_amount(donate_step(state, donor, amount).donations, donor) == 0,
{
}

/// A donor without an entry who attaches exactly the storage cost is accepted:
/// nothing is forwarded to the beneficiary, and the storage cost is what the
/// ledger then holds for the donor.
pub proof fn lemma_first_donation_of_exact_cost(state: ContractState, donor: Seq<char>)
    requires
        !state.donations.contains_key(donor),
    ensures
        donate_outcome(state, donor, STORAGE_COST) == Ok::<ReceiptView, ContractError>(
            ReceiptView {
                total_amount: STORAGE_COST,
                transfer_amount: 0,
                destination: state.beneficiary,
            },
        ),
        stored_amount(donate_step(state, donor, STORAGE_COST).donations, donor) == STORAGE_COST,
{
}

/// A donor without an entry who attaches the storage cost and `extra` more is
/// accepted: `extra` is forwarded to the beneficiary, and the whole attached
/// amount is what the ledger then holds for the donor.
pub proof fn lemma_first_donation_above_cost(state: ContractState, donor: Seq<char>, extra: u128)
    requires
        !state.donations.contains_key(donor),
        STORAGE_COST + extra <= u128::MAX,
    ensures
        donate_outcome(state, donor, (STORAGE_COST + extra) as u128) == Ok::<
            ReceiptView,
            ContractError,
        >(
            ReceiptView {
                total_amount: (STORAGE_COST + extra) as u128,
                transfer_amount: extra,
                destination: state.beneficiary,
            },
        ),
        stored_amount(
            donate_step(state, donor, (STORAGE_COST + extra) as u128).donations,
            donor,
        ) == STORAGE_COST + extra,
{
}

/// A donation of `amount` by a donor whose stored amount is not zero is
/// forwarded whole, with no fee, and the stored amount grows by `amount`. This
/// holds wherever the new total fits in 128 bits.
pub proof fn lemma_repeat_donation(state: ContractState, donor: Seq<char>, amount: u128)
    requires
        stored_amount(state.donations, donor) > 0,
        stored_amount(state.donations, donor) + amount <= u128::MAX,
    ensures
        donate_outcome(state, donor, amount) == Ok::<ReceiptView, ContractError>(
            ReceiptView {
                total_amount: (stored_amount(state.donations, donor) + amount) as u128,
                transfer_amount: amount,
                destination: state.beneficiary,
            },
        ),
        stored_amount(donate_step(state, donor, amount).donations, donor) == stored_amount(
            state.donations,
            donor,
        ) + amount,
{
}

/// The second donation of a donor: after an accepted first donation of
/// `first` by a donor without an entry, a donation of `amount` by the same
/// donor is forwarded whole and the stored amount becomes `first + amount`.
/// This holds wherever that sum fits in 128 bits.
pub proof fn lemma_second_donation(
    state: ContractState,
    donor: Seq<char>,
    first: u128,
    amount: u128,
)
    requires
        !state.donations.contains_key(donor),
        donate_outcome(state, donor, first) is Ok,
        first + amount <= u128::MAX,
    ensures
        ({
            let after_first = donate_step(state, donor, first);
            &&& stored_amount(after_first.donations, donor) == first
            &&& donate_outcome(after_first, donor, amount) == Ok::<ReceiptView, ContractError>(
                ReceiptView {
                    total_amount: (first + amount) as u128,
                    transfer_amount: amount,
                    destination: state.beneficiary,
                },
            )
            &&& stored_amount(donate_step(after_first, donor, amount).donations, donor) == first
                + amount
        }),
{
    lemma_repeat_donation(donate_step(state, donor, first), donor, amount);
}

/// Donations never change the beneficiary.
pub proof fn lemma_donations_keep_beneficiary(start: ContractState, calls: Seq<DonateCall>)
    ensures
        run_donations(start, calls).beneficiary == start.beneficiary,
    decreases calls.len(),
{
    if calls.len() > 0 {
        lemma_donations_keep_beneficiary(start, calls.drop_last());
    }
}

/// After any sequence of `donate` calls, the accounts with an entry are those
/// that had one at the start together with those of which a call was accepted,
/// however often each of them has donated.
pub proof fn lemma_entries_are_successful_donors(start: ContractState, calls: Seq<DonateCall>)
    ensures
        successful_donors(start, calls).finite(),
        run_donations(start, calls).donations.dom() == start.donations.dom().union(
            successful_donors(start, calls),
        ),
    decreases calls.len(),
{
    if calls.len() == 0 {
        assert(start.donations.dom().union(Set::<Seq<char>>::empty()) =~= start.donations.dom());
    } else {
        lemma_entries_are_successful_donors(start, calls.drop_last());
        let state = run_donations(start, calls.drop_last());
        let earlier = successful_donors(start, calls.drop_last());
        let donor = calls.last().donor;
        if donate_outcome(state, donor, calls.last().amount) is Ok {
            assert(run_donations(start, calls).donations.dom() =~= state.donations.dom().insert(
                donor,
            ));
            assert(start.donations.dom().union(earlier).insert(donor)
                =~= start.donations.dom().union(earlier.insert(donor)));
        }
    }
}

/// On a contract that starts with an empty ledger, the number of entries, which
/// is what `get_total_number_donations` reports, is the number of distinct
/// accounts of which a `donate` call was accepted.
pub proof fn lemma_count_is_number_of_successful_donors(
    beneficiary: Seq<char>,
    calls: Seq<DonateCall>,
)
    ensures
        run_donations(initial_state(beneficiary), calls).donations.dom().finite(),
        run_donations(initial_state(beneficiary), calls).donations.dom().len()
            == successful_donors(initial_state(beneficiary), calls).len(),
{
    let start = initial_state(beneficiary);
    lemma_entries_are_successful_donors(start, calls);
    assert(start.donations.dom().union(successful_donors(start, calls)) =~= successful_donors(
        start,
        calls,
    ));
}

/// Constructing a deployment that already holds state fails, whoever asks, and
/// leaves the beneficiary and the ledger as they were.
pub proof fn lemma_second_construction_fails(
    state: ContractState,
    beneficiary: Seq<char>,
    privileged: bool,
)
    ensures
        construct_outcome(beneficiary, privileged, true) is Err,
        privileged ==> construct_outcome(beneficiary, privileged, true) == Err::<
            ContractState,
            ContractError,
        >(ContractError::AlreadyInitialized),
        construct_step(Some(state), beneficiary, privileged) == Some(state),
{
}

/// A deployment that was constructed once rejects every later construction.
pub proof fn lemma_construction_succeeds_at_most_once(
    slot: Option<ContractState>,
    first: Seq<char>,
    second: Seq<char>,
    privileged: bool,
)
    requires
        construct_outcome(first, true, slot is Some) is Ok,
    ensures
        ({
            let constructed = construct_step(slot, first, true);
            &&& constructed == Some(initial_state(first))
            &&& construct_outcome(second, privileged, constructed is Some) is Err
            &&& construct_step(constructed, second, privileged) == constructed
        }),
{
}

/// A caller without privilege cannot change the beneficiary: the call is
/// rejected as unauthorized and the state stays as it was.
pub proof fn lemma_unprivileged_change_is_rejected(state: ContractState, beneficiary: Seq<char>)
    ensures
        change_outcome(false) == Err::<(), ContractError>(ContractError::Unauthorized),
        change_step(state, beneficiary, false) == state,
{
}

/// Once a privileged caller has named a new beneficiary, the state holds it,
/// the ledger is as before, and every donation accepted afterwards, after any
/// number of other donations, is forwarded to the new beneficiary.
pub proof fn lemma_donations_go_to_new_beneficiary(
    state: ContractState,
    beneficiary: Seq<char>,
    calls: Seq<DonateCall>,
    donor: Seq<char>,
    amount: u128,
)
    ensures
        change_outcome(true) is Ok,
        change_step(state, beneficiary, true).beneficiary == beneficiary,
        change_step(state, beneficiary, true).donations == state.donations,
        ({
            let later = run_donations(change_step(state, beneficiary, true), calls);
            donate_outcome(later, donor, amount) matches Ok(receipt) ==> receipt.destination
                == beneficiary
        }),
{
    lemma_donations_keep_beneficiary(change_step(state, beneficiary, true), calls);
}

/// The calls by which one donor attaches the given amounts, one after the
/// other.
pub open spec fn donations_by(donor: Seq<char>, amounts: Seq<u128>) -> Seq<DonateCall> {
    amounts.map_values(|amount: u128| DonateCall { donor, amount })
}

/// Whether every call of the sequence is accepted when the calls are made one
/// after the other on `start`.
pub open spec fn all_accepted(start: ContractState, calls: Seq<DonateCall>) -> bool
    decreases calls.len(),
{
    calls.len() == 0 || (all_accepted(start, calls.drop_last()) && donate_outcome(
        run_donations(start, calls.drop_last()),
        calls.last().donor,
        calls.last().amount,
    ) is Ok)
}

/// The sum of the amounts attached to the calls.
pub open spec fn total_attached(calls: Seq<DonateCall>) -> int
    decreases calls.len(),
{
    if calls.len() == 0 {
        0
    } else {
        total_attached(calls.drop_last()) + calls.last().amount
    }
}

/// The sum of the amounts that the accepted calls of the sequence forward to
/// the beneficiary.
pub open spec fn total_forwarded(start: ContractState, calls: Seq<DonateCall>) -> int
    decreases calls.len(),
{
    if calls.len() == 0 {
        0
    } else {
        total_forwarded(start, calls.drop_last()) + match donate_outcome(
            run_donations(start, calls.drop_last()),
            calls.last().donor,
            calls.last().amount,
        ) {
            Ok(receipt) => receipt.transfer_amount as int,
            Err(_) => 0,
        }
    }
}

/// In every state that a sequence of `donate` calls leads to, the record of an
/// account names that account and holds what the ledger stores for it.
pub proof fn lemma_record_matches_ledger(
    start: ContractState,
    calls: Seq<DonateCall>,
    account: Seq<char>,
)
    ensures
        record_of(run_donations(start, calls), account) == (DonationView {
            account_id: account,
            total_amount: stored_amount(run_donations(start, calls).donations, account),
        }),
{
}

/// After a donor without an entry has made one or more donations that were all
/// accepted, the donor's record holds the sum of the attached amounts, while
/// the beneficiary was sent that sum less the storage cost: the stored figure
/// counts the fee that was never forwarded.
pub proof fn lemma_record_after_accepted_donations(
    start: ContractState,
    donor: Seq<char>,
    amounts: Seq<u128>,
)
    requires
        !start.donations.contains_key(donor),
        amounts.len() > 0,
        all_accepted(start, donations_by(donor, amounts)),
    ensures
        record_of(run_donations(start, donations_by(donor, amounts)), donor).total_amount
            == total_attached(donations_by(donor, amounts)),
        total_attached(donations_by(donor, amounts)) >= STORAGE_COST,
        total_forwarded(start, donations_by(donor, amounts)) == total_attached(
            donations_by(donor, amounts),
        ) - STORAGE_COST,
    decreases amounts.len(),
{
    let calls = donations_by(donor, amounts);
    let earlier = donations_by(donor, amounts.drop_last());
    assert(calls.drop_last() =~= earlier);
    assert(calls.last() == DonateCall { donor, amount: amounts.last() });
    if amounts.len() == 1 {
        assert(run_donations(start, earlier) == start);
        assert(total_attached(earlier) == 0);
        assert(total_forwarded(start, earlier) == 0);
    } else {
        lemma_record_after_accepted_donations(start, donor, amounts.drop_last());
    }
}

} // verus!
