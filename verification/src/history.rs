//! Histories: what a sequence of operations, carried out one after another, leaves
//! of each claim. The registry keeps no history; these are statements about every
//! way in which one of its states can have come about.

use vstd::prelude::*;
use crate::pallet::{Outcome, State};
use crate::record::OwnershipRecordView;

verus! {

/// A request to the registry, as a mathematical value.
pub enum Operation {
    /// `caller` asks to register `claim` at time `now`.
    Create { caller: Seq<u8>, claim: Seq<u8>, now: u64 },
    /// `caller` asks to withdraw `claim`.
    Revoke { caller: Seq<u8>, claim: Seq<u8> },
    /// `caller` asks to hand `claim` over to `receiver` at time `now`.
    Transfer { caller: Seq<u8>, receiver: Seq<u8>, claim: Seq<u8>, now: u64 },
}

impl Operation {
    /// The claim that the operation is about.
    pub open spec fn claim(self) -> Seq<u8> {
        match self {
            Operation::Create { claim, .. } => claim,
            Operation::Revoke { claim, .. } => claim,
            Operation::Transfer { claim, .. } => claim,
        }
    }

    /// The record that the operation leaves for its claim where it goes through: a
    /// revocation leaves none.
    pub open spec fn leaves(self) -> Option<OwnershipRecordView> {
        match self {
            Operation::Create { caller, now, .. } => Some(
                OwnershipRecordView { owner: caller, registered_at: now },
            ),
            Operation::Revoke { .. } => None,
            Operation::Transfer { receiver, now, .. } => Some(
                OwnershipRecordView { owner: receiver, registered_at: now },
            ),
        }
    }
}

impl State {
    /// What `operation` leaves behind.
    pub open spec fn apply(self, operation: Operation) -> Outcome {
        match operation {
            Operation::Create { caller, claim, now } => self.create_claim(caller, claim, now),
            Operation::Revoke { caller, claim } => self.revoke_claim(caller, claim),
            Operation::Transfer { caller, receiver, claim, now } => self.transfer_claim(
                caller,
                receiver,
                claim,
                now,
            ),
        }
    }

    /// The state after `operations`, carried out in their order.
    pub open spec fn after(self, operations: Seq<Operation>) -> State
        decreases operations.len(),
    {
        if operations.len() == 0 {
            self
        } else {
            self.after(operations.drop_last()).apply(operations.last()).state
        }
    }
}

/// The `i`-th of `operations`, carried out from `start`, went through.
pub open spec fn went_through(start: State, operations: Seq<Operation>, i: int) -> bool {
    start.after(operations.take(i)).apply(operations[i]).result is Ok
}

/// The `i`-th of `operations` is the last on `claim` that went through.
pub open spec fn last_on(start: State, operations: Seq<Operation>, claim: Seq<u8>, i: int) -> bool {
    &&& 0 <= i < operations.len()
    &&& operations[i].claim() == claim
    &&& went_through(start, operations, i)
    &&& forall|j: int|
        i < j < operations.len() && operations[j].claim() == claim ==> !#[trigger] went_through(
            start,
            operations,
            j,
        )
}

/// The `i`-th of `operations` created `claim`, and none after it revoked it.
pub open spec fn creation_stands(
    start: State,
    operations: Seq<Operation>,
    claim: Seq<u8>,
    i: int,
) -> bool {
    &&& 0 <= i < operations.len()
    &&& operations[i] is Create
    &&& operations[i].claim() == claim
    &&& went_through(start, operations, i)
    &&& forall|j: int|
        i < j < operations.len() && operations[j] is Revoke && operations[j].claim() == claim
            ==> !#[trigger] went_through(start, operations, j)
}

/// `claim` was created by one of `operations`, and no later one revoked it.
pub open spec fn created_and_not_revoked(
    start: State,
    operations: Seq<Operation>,
    claim: Seq<u8>,
) -> bool {
    exists|i: int| creation_stands(start, operations, claim, i)
}

/// Whether an operation went through does not depend on what came after it.
proof fn lemma_without_the_last(start: State, operations: Seq<Operation>)
    requires
        operations.len() > 0,
    ensures
        went_through(start, operations, operations.len() - 1) == (start.after(
            operations.drop_last(),
        ).apply(operations.last()).result is Ok),
        forall|i: int|
            #![trigger went_through(start, operations, i)]
            #![trigger went_through(start, operations.drop_last(), i)]
            0 <= i < operations.len() - 1 ==> went_through(start, operations.drop_last(), i)
                == went_through(start, operations, i),
{
    assert(operations.take(operations.len() - 1) == operations.drop_last());
    assert forall|i: int| 0 <= i < operations.len() - 1 implies went_through(
        start,
        operations.drop_last(),
        i,
    ) == went_through(start, operations, i) by {
        assert(operations.drop_last().take(i) == operations.take(i));
    }
}

/// No operation ever leaves a claim longer than the configured maximum: of a state
/// without such claims, and so of the empty registry, every later state is without
/// them too.
pub proof fn lemma_bound_holds_throughout(start: State, operations: Seq<Operation>)
    requires
        start.bounded(),
    ensures
        start.after(operations).bounded(),
        start.after(operations).max_claim_length == start.max_claim_length,
    decreases operations.len(),
{
    if operations.len() > 0 {
        lemma_bound_holds_throughout(start, operations.drop_last());
    }
}

/// The record of a claim is what the last operation that went through on it has
/// left: the owner that a creation or a transfer named, with the time of that
/// operation, or nothing after a revocation.
pub proof fn lemma_record_is_what_the_last_operation_left(
    start: State,
    operations: Seq<Operation>,
    claim: Seq<u8>,
    i: int,
)
    requires
        last_on(start, operations, claim, i),
    ensures
        start.after(operations).record_of(claim) == operations[i].leaves(),
    decreases operations.len(),
{
    lemma_without_the_last(start, operations);
    if i < operations.len() - 1 {
        lemma_record_is_what_the_last_operation_left(start, operations.drop_last(), claim, i);
    }
}

/// A claim on which no operation went through is as it was at the start.
pub proof fn lemma_untouched_claim_is_as_before(
    start: State,
    operations: Seq<Operation>,
    claim: Seq<u8>,
)
    requires
        forall|i: int|
            0 <= i < operations.len() && operations[i].claim() == claim
                ==> !#[trigger] went_through(start, operations, i),
    ensures
        start.after(operations).record_of(claim) == start.record_of(claim),
    decreases operations.len(),
{
    if operations.len() > 0 {
        lemma_without_the_last(start, operations);
        lemma_untouched_claim_is_as_before(start, operations.drop_last(), claim);
    }
}

/// A claim that was not live at the start, as none is in the empty registry, is live
/// exactly if it has been created and not revoked since. A transfer does not end
/// its life.
pub proof fn lemma_live_means_created_and_not_revoked(
    start: State,
    operations: Seq<Operation>,
    claim: Seq<u8>,
)
    requires
        !start.proofs.dom().contains(claim),
    ensures
        start.after(operations).proofs.dom().contains(claim) <==> created_and_not_revoked(
            start,
            operations,
            claim,
        ),
    decreases operations.len(),
{
    if operations.len() > 0 {
        let before = operations.drop_last();
        let last = operations.len() - 1;
        lemma_without_the_last(start, operations);
        lemma_live_means_created_and_not_revoked(start, before, claim);
        if went_through(start, operations, last) && operations[last].claim() == claim
            && operations[last] is Create {
            assert(creation_stands(start, operations, claim, last));
        }
        if created_and_not_revoked(start, before, claim) {
            // A creation that stood before the last operation stands after it, unless
            // that operation is a revocation of the claim that went through.
            let i = choose|i: int| creation_stands(start, before, claim, i);
            if !(operations[last] is Revoke && operations[last].claim() == claim && went_through(
                start,
                operations,
                last,
            )) {
                assert(creation_stands(start, operations, claim, i));
            }
        }
        if created_and_not_revoked(start, operations, claim) {
            // A creation that stands, and is not the last operation, stood before it.
            let i = choose|i: int| creation_stands(start, operations, claim, i);
            if i < last {
                assert(creation_stands(start, before, claim, i));
            }
        }
    }
}

} // verus!
