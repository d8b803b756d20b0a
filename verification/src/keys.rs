//! Key pairs of the signature scheme.
//!
//! A pair is made once for an identity and stays with the signing party. A
//! private key can be had in one way only, from the scheme's own generator:
//! there is no way to make one of bytes, to copy one or to print one, and no
//! transaction or ledger entry has a field that could hold one.

use crate::error::TransactionError;
use crate::falcon::{falcon512_signing_key, keypair, PUBLIC_KEY_BYTES, SECRET_KEY_BYTES};
use crate::transaction::{kept_if_verified, parties_ok, QuantumTransaction};
use vstd::prelude::*;

verus! {

/// A private key that the scheme's generator made.
pub struct PrivateKey {
    bytes: Vec<u8>,
}

impl View for PrivateKey {
    type V = Seq<u8>;

    closed spec fn view(&self) -> Seq<u8> {
        self.bytes@
    }
}

impl PrivateKey {
    #[verifier::type_invariant]
    spec fn generated(&self) -> bool {
        self.bytes@.len() == SECRET_KEY_BYTES && falcon512_signing_key(self.bytes@)
    }

    /// The bytes of the key, for the signing primitive and for nobody else.
    pub(crate) fn bytes(&self) -> (bytes: &[u8])
        ensures
            bytes@ == self@,
            bytes@.len() == SECRET_KEY_BYTES,
            falcon512_signing_key(bytes@),
    {
        proof {
            use_type_invariant(self);
        }
        self.bytes.as_slice()
    }
}

/// A public key and the private key that belongs to it, each of the length
/// that the scheme fixes.
pub struct KeyPair {
    public_key: Vec<u8>,
    private_key: PrivateKey,
}

/// The two keys of a pair, as byte sequences.
pub struct KeyPairView {
    pub public_key: Seq<u8>,
    pub private_key: Seq<u8>,
}

impl KeyPairView {
    /// Whether both keys have the lengths that the scheme fixes.
    pub open spec fn well_formed(self) -> bool {
        self.public_key.len() == PUBLIC_KEY_BYTES && self.private_key.len() == SECRET_KEY_BYTES
    }
}

impl View for KeyPair {
    type V = KeyPairView;

    closed spec fn view(&self) -> KeyPairView {
        KeyPairView { public_key: self.public_key@, private_key: self.private_key@ }
    }
}

impl KeyPair {
    #[verifier::type_invariant]
    spec fn sized(&self) -> bool {
        self@.well_formed()
    }

    /// Makes a fresh key pair. Nothing but the returned pair is touched.
    ///
    /// The scheme's generator does not return at all where its random source
    /// or its set-up fails; whenever it returns, it hands out two keys of the
    /// scheme's lengths, and so does this function.
    pub fn generate() -> (result: Result<KeyPair, TransactionError>)
        ensures
            result matches Ok(pair) && pair@.well_formed(),
    {
        let (public_key, private_key) = keypair();
        Ok(KeyPair { public_key, private_key: PrivateKey { bytes: private_key } })
    }

    /// The public key: what a ledger verifies this identity's transactions
    /// against.
    pub fn public_key(&self) -> (key: &[u8])
        ensures
            key@ == self@.public_key,
            self@.well_formed(),
    {
        proof {
            use_type_invariant(self);
        }
        self.public_key.as_slice()
    }

    /// The private key: what this identity signs with.
    pub fn private_key(&self) -> (key: &PrivateKey)
        ensures
            key@ == self@.private_key,
            self@.well_formed(),
    {
        proof {
            use_type_invariant(self);
        }
        &self.private_key
    }

    /// Drafts and signs a transaction with this pair's private key, and hands
    /// it out only if it verifies under this pair's public key.
    ///
    /// A transaction that comes back is therefore one that a ledger accepts
    /// from this identity, as far as the signature goes. An empty sender or
    /// receiver is refused as malformed; a signature that is missing or does
    /// not verify is a failure to sign. The outcome of
    /// `QuantumTransaction::new` goes to `kept_if_verified`, which decides.
    pub fn sign_transaction(
        &self,
        sender: String,
        receiver: String,
        amount: u64,
        nonce: u64,
    ) -> (result: Result<QuantumTransaction, TransactionError>)
        ensures
            match result {
                Ok(tx) => {
                    &&& tx@.sender == sender@
                    &&& tx@.receiver == receiver@
                    &&& tx@.amount == amount
                    &&& tx@.nonce == nonce
                    &&& tx@.verifies(self@.public_key)
                },
                Err(e) => if parties_ok(sender@, receiver@) {
                    e == TransactionError::SigningFailure
                } else {
                    e == TransactionError::MalformedInput
                },
            },
    {
        let outcome = QuantumTransaction::new(sender, receiver, amount, nonce, &self.private_key);
        kept_if_verified(outcome, self.public_key.as_slice())
    }
}

} // verus!
