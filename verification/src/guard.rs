//! One-time construction of the donation contract.

use crate::account::AccountId;
use crate::donation::{
    construct_outcome, default_beneficiary, initial_state, Contract, ContractError, ContractState,
};
use vstd::prelude::*;

verus! {

/// The state that a deployment works on: what it has, or, for a deployment
/// that was never constructed, the default state.
pub open spec fn loaded_state(slot: Option<ContractState>) -> ContractState {
    match slot {
        Some(state) => state,
        None => initial_state(default_beneficiary()),
    }
}

/// The deployment's state after an attempt to construct the contract: an
/// accepted construction fills the empty slot, a rejected one changes nothing.
pub open spec fn construct_step(
    slot: Option<ContractState>,
    beneficiary: Seq<char>,
    privileged: bool,
) -> Option<ContractState> {
    match construct_outcome(beneficiary, privileged, slot is Some) {
        Ok(state) => Some(state),
        Err(_) => slot,
    }
}

/// A deployment of the donation contract, which is either uninitialized or
/// holds the contract's state. Once it holds state it never loses it, and
/// construction succeeds at most once.
#[derive(Debug)]
pub struct InitializationGuard {
    slot: Option<Contract>,
}

impl View for InitializationGuard {
    type V = Option<ContractState>;

    closed spec fn view(&self) -> Option<ContractState> {
        match self.slot {
            Some(contract) => Some(contract@),
            None => None,
        }
    }
}

impl InitializationGuard {
    /// A deployment without state.
    pub fn uninitialized() -> (guard: Self)
        ensures
            guard@ is None,
    {
        InitializationGuard { slot: None }
    }

    /// Whether the deployment holds state.
    pub fn is_initialized(&self) -> (initialized: bool)
        ensures
            initialized == (self@ is Some),
    {
        self.slot.is_some()
    }

    /// Constructs the contract in this deployment. Fails, and leaves the
    /// deployment as it was, for a caller without privilege and for a
    /// deployment that already holds state.
    pub fn construct(&mut self, beneficiary: AccountId, privileged: bool) -> (constructed: Result<
        (),
        ContractError,
    >)
        ensures
            match construct_outcome(beneficiary@, privileged, old(self)@ is Some) {
                Ok(_) => constructed is Ok,
                Err(expected) => constructed == Err::<(), ContractError>(expected),
            },
            final(self)@ == construct_step(old(self)@, beneficiary@, privileged),
    {
        match Contract::new(beneficiary, privileged, self.slot.is_some()) {
            Ok(contract) => {
                self.slot = Some(contract);
                Ok(())
            },
            Err(error) => Err(error),
        }
    }

    /// The contract, if the deployment holds state.
    pub fn contract(&self) -> (contract: Option<&Contract>)
        ensures
            match contract {
                Some(held) => self@ == Some(held@),
                None => self@ is None,
            },
    {
        self.slot.as_ref()
    }

    /// The contract to run a call on. A deployment that was never constructed
    /// is seeded with the default state first, after which it counts as
    /// initialized.
    pub fn contract_mut(&mut self) -> (contract: &mut Contract)
        ensures
            contract@ == loaded_state(old(self)@),
            final(self)@ == Some(final(contract)@),
    {
        if self.slot.is_none() {
            self.slot = Some(Contract::default());
        }
        self.slot.as_mut().unwrap()
    }
}

} // verus!
