//! The claim registry as a whole: its configuration, its state, and the three
//! operations that change it.

use vstd::prelude::*;
use crate::account::AccountId;
use crate::error::Error;
use crate::event::{Event, EventView};
use crate::record::{OwnershipRecord, OwnershipRecordView};
use crate::registry::Registry;
use crate::transition::{
    check_length, create_step, decide_create, decide_revoke, decide_transfer, length_check,
    revoke_step, transfer_step,
};

verus! {

/// What is fixed when the registry is set up.
#[derive(Clone, Copy, Debug, PartialEq, Eq, Structural)]
pub struct Config {
    /// The greatest length, in bytes, that a claim may have.
    pub max_claim_length: u32,
}

/// The registry as a mathematical value: the configured bound and the live claims.
pub struct State {
    /// The greatest length, in bytes, that a claim may have.
    pub max_claim_length: u32,
    /// The live claims, each with its ownership record.
    pub proofs: Map<Seq<u8>, OwnershipRecordView>,
}

/// What an operation leaves behind: the state after it, and the notification or the
/// reason for the rejection.
pub struct Outcome {
    /// The state after the operation.
    pub state: State,
    /// The notification of a success, or the reason for a rejection.
    pub result: Result<EventView, Error>,
}

impl State {
    /// No live claim is longer than the configured maximum.
    pub open spec fn bounded(self) -> bool {
        forall|claim: Seq<u8>| #[trigger]
            self.proofs.dom().contains(claim) ==> claim.len() <= self.max_claim_length
    }

    /// The record of `claim`, where it is live.
    pub open spec fn record_of(self, claim: Seq<u8>) -> Option<OwnershipRecordView> {
        if self.proofs.dom().contains(claim) {
            Some(self.proofs[claim])
        } else {
            None
        }
    }

    /// This state with `claim` set to `record`.
    pub open spec fn with(self, claim: Seq<u8>, record: OwnershipRecordView) -> State {
        State { max_claim_length: self.max_claim_length, proofs: self.proofs.insert(claim, record) }
    }

    /// This state without `claim`.
    pub open spec fn without(self, claim: Seq<u8>) -> State {
        State { max_claim_length: self.max_claim_length, proofs: self.proofs.remove(claim) }
    }

    /// The operation was rejected: nothing changes and nothing is notified.
    pub open spec fn rejected(self, error: Error) -> Outcome {
        Outcome { state: self, result: Err(error) }
    }

    /// `caller` registers `claim` at time `now`. The length is tested first, then
    /// whether the claim is live already.
    pub open spec fn create_claim(self, caller: Seq<u8>, claim: Seq<u8>, now: u64) -> Outcome {
        if length_check(claim, self.max_claim_length) is Err {
            self.rejected(Error::ClaimTooLong)
        } else {
            match create_step(self.record_of(claim), caller, now) {
                Ok(record) => Outcome {
                    state: self.with(claim, record),
                    result: Ok(EventView::ClaimCreated { who: caller, claim }),
                },
                Err(error) => self.rejected(error),
            }
        }
    }

    /// `caller` withdraws `claim`. The length is tested first, then whether the claim
    /// is live, then whether `caller` owns it.
    pub open spec fn revoke_claim(self, caller: Seq<u8>, claim: Seq<u8>) -> Outcome {
        if length_check(claim, self.max_claim_length) is Err {
            self.rejected(Error::ClaimTooLong)
        } else {
            match revoke_step(self.record_of(claim), caller) {
                Ok(_) => Outcome {
                    state: self.without(claim),
                    result: Ok(EventView::ClaimRevoked { who: caller, claim }),
                },
                Err(error) => self.rejected(error),
            }
        }
    }

    /// `caller` hands `claim` over to `receiver` at time `now`. The length is tested
    /// first, then whether the claim is live, then whether `caller` owns it.
    pub open spec fn transfer_claim(
        self,
        caller: Seq<u8>,
        receiver: Seq<u8>,
        claim: Seq<u8>,
        now: u64,
    ) -> Outcome {
        if length_check(claim, self.max_claim_length) is Err {
            self.rejected(Error::ClaimTooLong)
        } else {
            match transfer_step(self.record_of(claim), caller, receiver, now) {
                Ok(record) => Outcome {
                    state: self.with(claim, record),
                    result: Ok(EventView::ClaimTransferred { from: caller, to: receiver, claim }),
                },
                Err(error) => self.rejected(error),
            }
        }
    }
}

/// What an operation handed back, as a mathematical value.
pub open spec fn result_view(r: Result<Event, Error>) -> Result<EventView, Error> {
    match r {
        Ok(event) => Ok(event@),
        Err(error) => Err(error),
    }
}

/// The claim registry: the configuration it was set up with and the live claims.
pub struct Pallet {
    config: Config,
    proofs: Registry,
}

impl View for Pallet {
    type V = State;

    closed spec fn view(&self) -> State {
        State { max_claim_length: self.config.max_claim_length, proofs: self.proofs@ }
    }
}

impl Pallet {
    #[verifier::type_invariant]
    spec fn well_formed(self) -> bool {
        self@.bounded()
    }

    /// A registry without claims, set up with `config`.
    pub fn new(config: Config) -> (pallet: Pallet)
        ensures
            pallet@.max_claim_length == config.max_claim_length,
            pallet@.proofs == Map::<Seq<u8>, OwnershipRecordView>::empty(),
    {
        Pallet { config, proofs: Registry::new() }
    }

    /// The configuration that the registry was set up with.
    pub fn config(&self) -> (config: Config)
        ensures
            config.max_claim_length == self@.max_claim_length,
    {
        self.config
    }

    /// The live claims. None of them is longer than the configured maximum.
    pub fn proofs(&self) -> (proofs: &Registry)
        ensures
            proofs@ == self@.proofs,
            self@.bounded(),
    {
        proof {
            use_type_invariant(self);
        }
        &self.proofs
    }

    /// Sets the record of `claim`, which must be of admissible length.
    fn store(&mut self, claim: Vec<u8>, record: OwnershipRecord)
        requires
            claim@.len() <= old(self)@.max_claim_length,
        ensures
            final(self)@ == old(self)@.with(claim@, record@),
    {
        proof {
            use_type_invariant(&*self);
        }
        let ghost next = self@.with(claim@, record@);
        // The map is taken out while it changes, and put back whole.
        let mut proofs = Registry::new();
        std::mem::swap(&mut proofs, &mut self.proofs);
        proofs.insert(claim, record);
        assert(next.bounded());
        self.proofs = proofs;
    }

    /// Deletes the record of `claim`.
    fn delete(&mut self, claim: &[u8])
        ensures
            final(self)@ == old(self)@.without(claim@),
    {
        proof {
            use_type_invariant(&*self);
        }
        let mut proofs = Registry::new();
        std::mem::swap(&mut proofs, &mut self.proofs);
        proofs.remove(claim);
        assert(old(self)@.without(claim@).bounded());
        self.proofs = proofs;
    }

    /// Registers `claim` for `caller` at time `now`.
    ///
    /// The claim is rejected as too long where it exceeds the configured maximum, and
    /// else as existing already where it is live, whoever holds it. Otherwise it is
    /// recorded as `caller`'s as of `now`, and the notification of that is returned.
    /// A rejection changes nothing.
    pub fn create_claim(&mut self, caller: AccountId, claim: Vec<u8>, now: u64) -> (r: Result<
        Event,
        Error,
    >)
        ensures
            final(self)@ == old(self)@.create_claim(caller@, claim@, now).state,
            result_view(r) == old(self)@.create_claim(caller@, claim@, now).result,
    {
        check_length(claim.as_slice(), self.config.max_claim_length)?;
        let record = decide_create(self.proofs.get(claim.as_slice()), caller.clone(), now)?;
        self.store(claim.clone(), record);
        Ok(Event::ClaimCreated { who: caller, claim })
    }

    /// Withdraws `claim`, which `caller` must own.
    ///
    /// The claim is rejected as too long where it exceeds the configured maximum, else
    /// as not existing where it is not live, and else as not the caller's where
    /// somebody else holds it. Otherwise its record is deleted, and the notification
    /// of that is returned. A rejection changes nothing.
    pub fn revoke_claim(&mut self, caller: AccountId, claim: Vec<u8>) -> (r: Result<Event, Error>)
        ensures
            final(self)@ == old(self)@.revoke_claim(caller@, claim@).state,
            result_view(r) == old(self)@.revoke_claim(caller@, claim@).result,
    {
        check_length(claim.as_slice(), self.config.max_claim_length)?;
        decide_revoke(self.proofs.get(claim.as_slice()), &caller)?;
        self.delete(claim.as_slice());
        Ok(Event::ClaimRevoked { who: caller, claim })
    }

    /// Hands `claim`, which `caller` must own, over to `receiver` at time `now`.
    ///
    /// The claim is rejected as too long where it exceeds the configured maximum, else
    /// as not existing where it is not live, and else as not the caller's where
    /// somebody else holds it. Otherwise it is recorded as `receiver`'s as of `now`,
    /// and the notification of that is returned; this is so too where `receiver` is
    /// the caller. A rejection changes nothing.
    pub fn transfer_claim(
        &mut self,
        caller: AccountId,
        receiver: AccountId,
        claim: Vec<u8>,
        now: u64,
    ) -> (r: Result<Event, Error>)
        ensures
            final(self)@ == old(self)@.transfer_claim(caller@, receiver@, claim@, now).state,
            result_view(r) == old(self)@.transfer_claim(caller@, receiver@, claim@, now).result,
    {
        check_length(claim.as_slice(), self.config.max_claim_length)?;
        let current = self.proofs.get(claim.as_slice());
        let record = decide_transfer(current, &caller, receiver.clone(), now)?;
        self.store(claim.clone(), record);
        Ok(Event::ClaimTransferred { from: caller, to: receiver, claim })
    }
}

} // verus!
