//! The life of a single claim. A claim is either absent or owned; creation takes it
//! from absent to owned, revocation from owned to absent, and a transfer from owned
//! to owned. These functions decide each step from the claim's present record alone,
//! so that a host which keeps the records itself can use them as they are.

use vstd::prelude::*;
use crate::account::AccountId;
use crate::error::Error;
use crate::record::{OwnershipRecord, OwnershipRecordView};

verus! {

/// A claim may be at most `max_claim_length` bytes long.
pub open spec fn length_check(claim: Seq<u8>, max_claim_length: u32) -> Result<(), Error> {
    if claim.len() > max_claim_length {
        Err(Error::ClaimTooLong)
    } else {
        Ok(())
    }
}

/// Creation: an absent claim becomes owned by `caller` as of `now`; a claim that
/// anybody holds cannot be created again.
pub open spec fn create_step(
    current: Option<OwnershipRecordView>,
    caller: Seq<u8>,
    now: u64,
) -> Result<OwnershipRecordView, Error> {
    match current {
        Some(_) => Err(Error::ProofAlreadyExist),
        None => Ok(OwnershipRecordView { owner: caller, registered_at: now }),
    }
}

/// Revocation: only a live claim can be revoked, and only by its owner.
pub open spec fn revoke_step(current: Option<OwnershipRecordView>, caller: Seq<u8>) -> Result<
    (),
    Error,
> {
    match current {
        None => Err(Error::ClaimNotExist),
        Some(record) => if record.owner == caller {
            Ok(())
        } else {
            Err(Error::NotClaimOwner)
        },
    }
}

/// Transfer: only a live claim can be handed over, and only by its owner; it is then
/// owned by `receiver` as of `now`, also where `receiver` is the owner already.
pub open spec fn transfer_step(
    current: Option<OwnershipRecordView>,
    caller: Seq<u8>,
    receiver: Seq<u8>,
    now: u64,
) -> Result<OwnershipRecordView, Error> {
    match current {
        None => Err(Error::ClaimNotExist),
        Some(record) => if record.owner == caller {
            Ok(OwnershipRecordView { owner: receiver, registered_at: now })
        } else {
            Err(Error::NotClaimOwner)
        },
    }
}

/// The record that an optional reference stands for.
pub open spec fn record_view(current: Option<&OwnershipRecord>) -> Option<OwnershipRecordView> {
    match current {
        Some(record) => Some(record@),
        None => None,
    }
}

/// The outcome of a step that yields a new record.
pub open spec fn step_view(r: Result<OwnershipRecord, Error>) -> Result<
    OwnershipRecordView,
    Error,
> {
    match r {
        Ok(record) => Ok(record@),
        Err(e) => Err(e),
    }
}

/// Tests a claim's length against the configured maximum.
pub fn check_length(claim: &[u8], max_claim_length: u32) -> (r: Result<(), Error>)
    ensures
        r == length_check(claim@, max_claim_length),
{
    if claim.len() > max_claim_length as usize {
        Err(Error::ClaimTooLong)
    } else {
        Ok(())
    }
}

/// Decides a creation: the record to store, or why there is none.
pub fn decide_create(current: Option<&OwnershipRecord>, caller: AccountId, now: u64) -> (r: Result<
    OwnershipRecord,
    Error,
>)
    ensures
        step_view(r) == create_step(record_view(current), caller@, now),
{
    match current {
        Some(_) => Err(Error::ProofAlreadyExist),
        None => Ok(OwnershipRecord { owner: caller, registered_at: now }),
    }
}

/// Decides a revocation: whether the record may be deleted, or why not.
pub fn decide_revoke(current: Option<&OwnershipRecord>, caller: &AccountId) -> (r: Result<
    (),
    Error,
>)
    ensures
        r == revoke_step(record_view(current), caller@),
{
    match current {
        None => Err(Error::ClaimNotExist),
        Some(record) => if record.owner.same_as(caller) {
            Ok(())
        } else {
            Err(Error::NotClaimOwner)
        },
    }
}

/// Decides a transfer: the record to store in place of the present one, or why there
/// is none.
pub fn decide_transfer(
    current: Option<&OwnershipRecord>,
    caller: &AccountId,
    receiver: AccountId,
    now: u64,
) -> (r: Result<OwnershipRecord, Error>)
    ensures
        step_view(r) == transfer_step(record_view(current), caller@, receiver@, now),
{
    match current {
        None => Err(Error::ClaimNotExist),
        Some(record) => if record.owner.same_as(caller) {
            Ok(OwnershipRecord { owner: receiver, registered_at: now })
        } else {
            Err(Error::NotClaimOwner)
        },
    }
}

} // verus!
