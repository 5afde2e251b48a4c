//! The reasons for which a registry operation is rejected.

use vstd::prelude::*;

verus! {

/// Why an operation was rejected. Every rejection leaves the registry as it was.
#[derive(Clone, Copy, Debug, PartialEq, Eq, Structural)]
pub enum Error {
    /// The claim is already registered, by the caller or by anyone else.
    ProofAlreadyExist,
    /// The claim is longer than the configured maximum.
    ClaimTooLong,
    /// The claim is not registered.
    ClaimNotExist,
    /// The claim is registered to somebody other than the caller.
    NotClaimOwner,
}

} // verus!
