//! The failure taxonomy of the rewards layer. Every failure aborts the whole
//! unit of work; nothing is retried internally.

use vstd::prelude::*;

verus! {

/// Why a lifecycle or registry operation was rejected.
#[derive(Clone, Copy, Debug, PartialEq, Eq, Structural)]
pub enum RewardsError {
    /// A supplied address or bump does not match its canonical re-derivation.
    DerivationMismatch,
    /// The caller is not the authority this operation is gated on.
    AuthorityMismatch,
    /// An entity already exists under the derived key.
    DuplicateEntity,
    /// No entity exists under the derived key.
    EntityNotFound,
    /// The external auction engine rejected the delegated call.
    DelegatedCallFailure,
}

} // verus!
