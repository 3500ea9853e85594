//! Error taxonomy of the cryptographic core.

use vstd::prelude::*;

verus! {

/// Every failure the core can report.
///
/// `UnsupportedGate` is a caller error: the requested gate kind is outside
/// the supported set. `EntropySourceUnavailable` is fatal: the secure
/// randomness source could not supply bytes, and no weaker source is ever
/// substituted. `GroupParameterMismatch` is a fatal configuration error
/// between the two oblivious-transfer parties: the parameters in use are
/// not the agreed group, reported when a public value has no inverse
/// modulo `p` — which a prime modulus never yields for a nonzero value.
/// The two length errors report malformed fixed-size data from a caller.
#[derive(Clone, Copy, Debug, PartialEq, Eq, Structural)]
pub enum CryptoError {
    UnsupportedGate,
    EntropySourceUnavailable,
    GroupParameterMismatch,
    InvalidKeyLength,
    InvalidBlockLength,
}

} // verus!
