//! What holds of the registry's operations on every state and every input.

use vstd::prelude::*;
use crate::error::Error;
use crate::event::EventView;
use crate::pallet::State;
use crate::record::OwnershipRecordView;

verus! {

/// A claim longer than the configured maximum is rejected as too long by every
/// operation, whatever the registry holds, and the registry stays as it was.
pub proof fn lemma_oversized_claim_is_rejected(
    state: State,
    caller: Seq<u8>,
    receiver: Seq<u8>,
    claim: Seq<u8>,
    now: u64,
)
    requires
        claim.len() > state.max_claim_length,
    ensures
        state.create_claim(caller, claim, now) == state.rejected(Error::ClaimTooLong),
        state.revoke_claim(caller, claim) == state.rejected(Error::ClaimTooLong),
        state.transfer_claim(caller, receiver, claim, now) == state.rejected(Error::ClaimTooLong),
{
}

/// A live claim of admissible length cannot be created again, neither by its owner
/// nor by anybody else, and its record stays as it was.
pub proof fn lemma_live_claim_cannot_be_created(
    state: State,
    caller: Seq<u8>,
    claim: Seq<u8>,
    now: u64,
)
    requires
        claim.len() <= state.max_claim_length,
        state.proofs.dom().contains(claim),
    ensures
        state.create_claim(caller, claim, now) == state.rejected(Error::ProofAlreadyExist),
{
}

/// A claim of admissible length that is not live can be neither revoked nor handed
/// over.
pub proof fn lemma_absent_claim_does_not_exist(
    state: State,
    caller: Seq<u8>,
    receiver: Seq<u8>,
    claim: Seq<u8>,
    now: u64,
)
    requires
        claim.len() <= state.max_claim_length,
        !state.proofs.dom().contains(claim),
    ensures
        state.revoke_claim(caller, claim) == state.rejected(Error::ClaimNotExist),
        state.transfer_claim(caller, receiver, claim, now) == state.rejected(Error::ClaimNotExist),
{
}

/// Nobody but its owner can revoke a live claim of admissible length or hand it
/// over, and the attempt leaves the record as it was.
pub proof fn lemma_only_the_owner_disposes(
    state: State,
    caller: Seq<u8>,
    receiver: Seq<u8>,
    claim: Seq<u8>,
    now: u64,
)
    requires
        claim.len() <= state.max_claim_length,
        state.proofs.dom().contains(claim),
        state.proofs[claim].owner != caller,
    ensures
        state.revoke_claim(caller, claim) == state.rejected(Error::NotClaimOwner),
        state.transfer_claim(caller, receiver, claim, now) == state.rejected(Error::NotClaimOwner),
{
}

/// A claim that is created and then revoked by the same actor is absent afterwards,
/// and anybody can then create it afresh and is recorded as its owner. This holds of
/// every admissible claim that nobody else holds. Where the claim was not live to
/// begin with, the creation goes through and the revocation gives back the state
/// from before.
pub proof fn lemma_create_revoke_create(
    state: State,
    first: Seq<u8>,
    second: Seq<u8>,
    claim: Seq<u8>,
    t1: u64,
    t2: u64,
)
    requires
        claim.len() <= state.max_claim_length,
        state.proofs.dom().contains(claim) ==> state.proofs[claim].owner == first,
    ensures
        ({
            let created = state.create_claim(first, claim, t1);
            let revoked = created.state.revoke_claim(first, claim);
            let recreated = revoked.state.create_claim(second, claim, t2);
            &&& revoked.result == Ok::<EventView, Error>(
                EventView::ClaimRevoked { who: first, claim },
            )
            &&& !revoked.state.proofs.dom().contains(claim)
            &&& recreated.result == Ok::<EventView, Error>(
                EventView::ClaimCreated { who: second, claim },
            )
            &&& recreated.state.record_of(claim) == Some(
                OwnershipRecordView { owner: second, registered_at: t2 },
            )
            &&& !state.proofs.dom().contains(claim) ==> {
                &&& created.result == Ok::<EventView, Error>(
                    EventView::ClaimCreated { who: first, claim },
                )
                &&& revoked.state == state
            }
        }),
{
    let created = state.create_claim(first, claim, t1);
    let revoked = created.state.revoke_claim(first, claim);
    if !state.proofs.dom().contains(claim) {
        assert(revoked.state.proofs =~= state.proofs);
    }
}

/// An owner may hand a claim of admissible length over to themselves: the transfer
/// goes through, keeps the owner, sets the record's time to `now`, and is notified
/// like any other.
pub proof fn lemma_transfer_to_oneself(state: State, caller: Seq<u8>, claim: Seq<u8>, now: u64)
    requires
        claim.len() <= state.max_claim_length,
        state.proofs.dom().contains(claim),
        state.proofs[claim].owner == caller,
    ensures
        ({
            let transferred = state.transfer_claim(caller, caller, claim, now);
            &&& transferred.result == Ok::<EventView, Error>(
                EventView::ClaimTransferred { from: caller, to: caller, claim },
            )
            &&& transferred.state.record_of(claim) == Some(
                OwnershipRecordView { owner: caller, registered_at: now },
            )
        }),
{
}

/// An operation that is rejected changes nothing: no claim is added, removed or
/// modified, and there is no notification.
pub proof fn lemma_rejection_changes_nothing(
    state: State,
    caller: Seq<u8>,
    receiver: Seq<u8>,
    claim: Seq<u8>,
    now: u64,
)
    ensures
        state.create_claim(caller, claim, now).result is Err ==> state.create_claim(
            caller,
            claim,
            now,
        ).state == state,
        state.revoke_claim(caller, claim).result is Err ==> state.revoke_claim(
            caller,
            claim,
        ).state == state,
        state.transfer_claim(caller, receiver, claim, now).result is Err ==> state.transfer_claim(
            caller,
            receiver,
            claim,
            now,
        ).state == state,
{
}

/// When each operation goes through: a creation exactly on an admissible claim that
/// is not live, a revocation or a transfer exactly on an admissible claim that the
/// caller owns.
pub proof fn lemma_when_operations_succeed(
    state: State,
    caller: Seq<u8>,
    receiver: Seq<u8>,
    claim: Seq<u8>,
    now: u64,
)
    ensures
        state.create_claim(caller, claim, now).result is Ok <==> claim.len()
            <= state.max_claim_length && !state.proofs.dom().contains(claim),
        state.revoke_claim(caller, claim).result is Ok <==> claim.len() <= state.max_claim_length
            && state.proofs.dom().contains(claim) && state.proofs[claim].owner == caller,
        state.transfer_claim(caller, receiver, claim, now).result is Ok <==> claim.len()
            <= state.max_claim_length && state.proofs.dom().contains(claim)
            && state.proofs[claim].owner == caller,
{
}

/// Each rejection has one cause. A claim is too long exactly if it exceeds the
/// configured maximum. Of an admissible claim, a creation is rejected exactly if the
/// claim is live, as existing already; a revocation is rejected as not existing
/// exactly if the claim is not live, and as not the caller's exactly if it is live
/// and somebody else's. A transfer is rejected where a revocation would be, and for
/// the same reason. No operation is rejected for any other reason.
pub proof fn lemma_each_rejection_has_its_cause(
    state: State,
    caller: Seq<u8>,
    receiver: Seq<u8>,
    claim: Seq<u8>,
    now: u64,
)
    ensures
        ({
            let too_long = claim.len() > state.max_claim_length;
            let live = state.proofs.dom().contains(claim);
            let created = state.create_claim(caller, claim, now).result;
            let revoked = state.revoke_claim(caller, claim).result;
            let transferred = state.transfer_claim(caller, receiver, claim, now).result;
            &&& created == Err::<EventView, Error>(Error::ClaimTooLong) <==> too_long
            &&& created == Err::<EventView, Error>(Error::ProofAlreadyExist) <==> !too_long && live
            &&& created != Err::<EventView, Error>(Error::ClaimNotExist)
            &&& created != Err::<EventView, Error>(Error::NotClaimOwner)
            &&& revoked == Err::<EventView, Error>(Error::ClaimTooLong) <==> too_long
            &&& revoked == Err::<EventView, Error>(Error::ClaimNotExist) <==> !too_long && !live
            &&& revoked == Err::<EventView, Error>(Error::NotClaimOwner) <==> !too_long && live
                && state.proofs[claim].owner != caller
            &&& revoked != Err::<EventView, Error>(Error::ProofAlreadyExist)
            &&& transferred == revoked || (transferred is Ok && revoked is Ok)
        }),
{
}

/// What a successful operation does to its claim: a creation or a transfer leaves it
/// live, owned by the new owner as of `now`; a revocation leaves it absent.
pub proof fn lemma_effect_on_the_claim(
    state: State,
    caller: Seq<u8>,
    receiver: Seq<u8>,
    claim: Seq<u8>,
    now: u64,
)
    ensures
        state.create_claim(caller, claim, now).result is Ok ==> state.create_claim(
            caller,
            claim,
            now,
        ).state.record_of(claim) == Some(OwnershipRecordView { owner: caller, registered_at: now }),
        state.revoke_claim(caller, claim).result is Ok ==> state.revoke_claim(
            caller,
            claim,
        ).state.record_of(claim) == None::<OwnershipRecordView>,
        state.transfer_claim(caller, receiver, claim, now).result is Ok ==> state.transfer_claim(
            caller,
            receiver,
            claim,
            now,
        ).state.record_of(claim) == Some(
            OwnershipRecordView { owner: receiver, registered_at: now },
        ),
{
}

/// An operation on one claim leaves every other claim as it was, and never touches
/// the configured bound.
pub proof fn lemma_other_claims_are_untouched(
    state: State,
    caller: Seq<u8>,
    receiver: Seq<u8>,
    claim: Seq<u8>,
    now: u64,
    other: Seq<u8>,
)
    requires
        other != claim,
    ensures
        state.create_claim(caller, claim, now).state.record_of(other) == state.record_of(other),
        state.revoke_claim(caller, claim).state.record_of(other) == state.record_of(other),
        state.transfer_claim(caller, receiver, claim, now).state.record_of(other)
            == state.record_of(other),
        state.create_claim(caller, claim, now).state.max_claim_length == state.max_claim_length,
        state.revoke_claim(caller, claim).state.max_claim_length == state.max_claim_length,
        state.transfer_claim(caller, receiver, claim, now).state.max_claim_length
            == state.max_claim_length,
{
}

/// Where no live claim is longer than the configured maximum, none is after any
/// operation.
pub proof fn lemma_bound_is_kept(
    state: State,
    caller: Seq<u8>,
    receiver: Seq<u8>,
    claim: Seq<u8>,
    now: u64,
)
    requires
        state.bounded(),
    ensures
        state.create_claim(caller, claim, now).state.bounded(),
        state.revoke_claim(caller, claim).state.bounded(),
        state.transfer_claim(caller, receiver, claim, now).state.bounded(),
{
}

} // verus!
