use vstd::prelude::*;

verus! {

/// The failures of the blob log.
#[derive(Clone, Copy, Debug, PartialEq, Eq, Structural)]
pub enum LogError {
    /// No blob exists for the given identifier.
    NotFound,
    /// The AEAD tag check failed: wrong password or corrupted data.
    AuthenticationFailure,
    /// The recomputed Merkle root differs from the supplied root.
    ProofInvalid,
    /// The identifier lies beyond the current log length.
    OutOfRange,
}

} // verus!
