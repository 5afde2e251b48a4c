//! What the registry keeps for each live claim.

use vstd::prelude::*;
use crate::account::AccountId;

verus! {

/// Who holds a claim, and since when.
#[derive(Debug, PartialEq, Eq)]
pub struct OwnershipRecord {
    /// The actor who holds the claim.
    pub owner: AccountId,
    /// The logical clock value at which the claim was created or last handed over.
    pub registered_at: u64,
}

/// An ownership record as a mathematical value.
pub struct OwnershipRecordView {
    /// The bytes of the owner's identity.
    pub owner: Seq<u8>,
    /// The logical clock value at which the claim was created or last handed over.
    pub registered_at: u64,
}

impl View for OwnershipRecord {
    type V = OwnershipRecordView;

    open spec fn view(&self) -> OwnershipRecordView {
        OwnershipRecordView { owner: self.owner@, registered_at: self.registered_at }
    }
}

impl Clone for OwnershipRecord {
    fn clone(&self) -> (record: OwnershipRecord)
        ensures
            record@ == self@,
    {
        OwnershipRecord { owner: self.owner.clone(), registered_at: self.registered_at }
    }
}

} // verus!
