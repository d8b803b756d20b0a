//! The ways in which an operation of this library can fail. All of them are
//! values handed back to the caller; none ends the process.

use vstd::prelude::*;

verus! {

#[derive(Debug, Clone, Copy, PartialEq, Eq, Structural)]
pub enum TransactionError {
    /// No key pair could be made. The generator that `KeyPair::generate` calls
    /// ends the process where it fails instead of saying so, so `generate`
    /// has no outcome with this value; it is here for callers that handle
    /// the failure as a value.
    KeyGenerationFailure,
    /// The scheme produced no signature that can be used.
    SigningFailure,
    /// The signature does not verify against the public key and the payload.
    InvalidSignature,
    /// The ledger already holds a transaction with this identifier.
    DuplicateTransaction,
    /// A field of the transaction is structurally invalid.
    MalformedInput,
}

} // verus!
