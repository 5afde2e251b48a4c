//! What the registry tells the host after an operation that went through.

use vstd::prelude::*;
use crate::account::AccountId;

verus! {

/// The notification of one successful operation, for the host to pass on to observers.
#[derive(Debug, PartialEq, Eq)]
pub enum Event {
    /// `who` registered `claim`.
    ClaimCreated { who: AccountId, claim: Vec<u8> },
    /// `who` withdrew `claim`.
    ClaimRevoked { who: AccountId, claim: Vec<u8> },
    /// `from` handed `claim` over to `to`.
    ClaimTransferred { from: AccountId, to: AccountId, claim: Vec<u8> },
}

/// A notification as a mathematical value.
pub enum EventView {
    /// `who` registered `claim`.
    ClaimCreated { who: Seq<u8>, claim: Seq<u8> },
    /// `who` withdrew `claim`.
    ClaimRevoked { who: Seq<u8>, claim: Seq<u8> },
    /// `from` handed `claim` over to `to`.
    ClaimTransferred { from: Seq<u8>, to: Seq<u8>, claim: Seq<u8> },
}

impl View for Event {
    type V = EventView;

    open spec fn view(&self) -> EventView {
        match *self {
            Event::ClaimCreated { who, claim } => EventView::ClaimCreated {
                who: who@,
                claim: claim@,
            },
            Event::ClaimRevoked { who, claim } => EventView::ClaimRevoked {
                who: who@,
                claim: claim@,
            },
            Event::ClaimTransferred { from, to, claim } => EventView::ClaimTransferred {
                from: from@,
                to: to@,
                claim: claim@,
            },
        }
    }
}

impl Clone for Event {
    fn clone(&self) -> (event: Event)
        ensures
            event@ == self@,
    {
        match self {
            Event::ClaimCreated { who, claim } => Event::ClaimCreated {
                who: who.clone(),
                claim: claim.clone(),
            },
            Event::ClaimRevoked { who, claim } => Event::ClaimRevoked {
                who: who.clone(),
                claim: claim.clone(),
            },
            Event::ClaimTransferred { from, to, claim } => Event::ClaimTransferred {
                from: from.clone(),
                to: to.clone(),
                claim: claim.clone(),
            },
        }
    }
}

} // verus!
