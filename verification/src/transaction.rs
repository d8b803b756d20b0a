//! A value-transfer record and its signature: how one is signed, and when one
//! counts as verified.
//!
//! A transaction is drafted from (sender, receiver, amount, nonce), signed
//! over the canonical payload of these four, and verified against the same
//! payload. The signature itself is no part of the payload.

use crate::codec::{
    canonical_payload, canonicalize, fits_length_prefix, lemma_canonical_payload_injective,
    lemma_no_bytes_no_chars, TransactionId,
};
use crate::error::TransactionError;
use crate::falcon::{
    detached_sign, falcon512_accepts, verify_detached, PUBLIC_KEY_BYTES, SIGNATURE_MAX_BYTES,
    SIGNATURE_MIN_BYTES,
};
use crate::keys::PrivateKey;
use vstd::prelude::*;
use vstd::string::*;

verus! {

/// A transfer of `amount` from `sender` to `receiver`. The `nonce` tells two
/// otherwise equal transfers apart, so that an old, validly signed transfer
/// cannot be admitted a second time as a new one.
#[derive(Debug, Clone, PartialEq, Eq)]
pub struct QuantumTransaction {
    pub sender: String,
    pub receiver: String,
    pub amount: u64,
    pub nonce: u64,
    pub signature: Vec<u8>,
}

/// What a transaction holds, as mathematical values.
pub struct TransactionView {
    pub sender: Seq<char>,
    pub receiver: Seq<char>,
    pub amount: u64,
    pub nonce: u64,
    pub signature: Seq<u8>,
}

/// Whether a signature of `len` bytes has a length that the scheme can give.
pub open spec fn signature_length_ok(len: nat) -> bool {
    SIGNATURE_MIN_BYTES <= len <= SIGNATURE_MAX_BYTES
}

/// Whether `sender` and `receiver` can stand in a transaction: neither is
/// empty.
pub open spec fn parties_ok(sender: Seq<char>, receiver: Seq<char>) -> bool {
    sender.len() > 0 && receiver.len() > 0
}

impl TransactionView {
    /// The bytes that are signed and verified.
    pub open spec fn payload(self) -> Seq<u8> {
        canonical_payload(self.sender, self.receiver, self.amount, self.nonce)
    }

    /// The identifier: the payload, which leaves the signature out.
    pub open spec fn id(self) -> Seq<u8> {
        self.payload()
    }

    /// Whether the record is structurally sound: both parties named, each
    /// within what the length prefix can count, and a signature of a length
    /// that the scheme can give.
    pub open spec fn well_formed(self) -> bool {
        &&& parties_ok(self.sender, self.receiver)
        &&& fits_length_prefix(self.sender)
        &&& fits_length_prefix(self.receiver)
        &&& signature_length_ok(self.signature.len())
    }

    /// Whether the record verifies under `public_key`: it is well formed, the
    /// key has the scheme's length, and the scheme accepts the signature for
    /// the payload.
    pub open spec fn verifies(self, public_key: Seq<u8>) -> bool {
        &&& self.well_formed()
        &&& public_key.len() == PUBLIC_KEY_BYTES
        &&& falcon512_accepts(self.signature, self.payload(), public_key)
    }
}

/// Two transactions with one identifier agree in sender, receiver, amount
/// and nonce: they can differ in the signature only. It holds of all texts
/// that the length prefix can count, which is every text a `String` holds.
pub proof fn lemma_same_id_same_payload(a: TransactionView, b: TransactionView)
    requires
        fits_length_prefix(a.sender),
        fits_length_prefix(a.receiver),
        fits_length_prefix(b.sender),
        fits_length_prefix(b.receiver),
        a.id() == b.id(),
    ensures
        a.sender == b.sender,
        a.receiver == b.receiver,
        a.amount == b.amount,
        a.nonce == b.nonce,
{
    lemma_canonical_payload_injective(
        a.sender,
        a.receiver,
        a.amount,
        a.nonce,
        b.sender,
        b.receiver,
        b.amount,
        b.nonce,
    );
}

/// A transaction that differs from a signed one in sender, receiver, amount
/// or nonce has another payload. Its signature was made for the payload of
/// the signed one, so verification puts it to the scheme against a message
/// that it was not made for.
pub proof fn lemma_altered_fields_alter_payload(signed: TransactionView, altered: TransactionView)
    requires
        fits_length_prefix(signed.sender),
        fits_length_prefix(signed.receiver),
        fits_length_prefix(altered.sender),
        fits_length_prefix(altered.receiver),
        altered.sender != signed.sender || altered.receiver != signed.receiver || altered.amount
            != signed.amount || altered.nonce != signed.nonce,
    ensures
        altered.payload() != signed.payload(),
        altered.id() != signed.id(),
{
    if altered.payload() == signed.payload() {
        lemma_same_id_same_payload(signed, altered);
    }
}

impl View for QuantumTransaction {
    type V = TransactionView;

    open spec fn view(&self) -> TransactionView {
        TransactionView {
            sender: self.sender@,
            receiver: self.receiver@,
            amount: self.amount,
            nonce: self.nonce,
            signature: self.signature@,
        }
    }
}

/// What becomes of the bytes that the signing primitive handed back: a
/// signature of a length that the scheme can give is kept, anything else is
/// a failure to sign.
pub fn signature_or_failure(outcome: Option<Vec<u8>>) -> (result: Result<
    Vec<u8>,
    TransactionError,
>)
    ensures
        match outcome {
            Some(bytes) if signature_length_ok(bytes@.len()) => result == Ok::<
                Vec<u8>,
                TransactionError,
            >(bytes),
            _ => result == Err::<Vec<u8>, TransactionError>(TransactionError::SigningFailure),
        },
{
    match outcome {
        Some(bytes) => {
            if SIGNATURE_MIN_BYTES <= bytes.len() && bytes.len() <= SIGNATURE_MAX_BYTES {
                Ok(bytes)
            } else {
                Err(TransactionError::SigningFailure)
            }
        },
        None => Err(TransactionError::SigningFailure),
    }
}

/// Signs `payload` with `private_key`.
///
/// The signature depends on the scheme's random source, so of a signature
/// that comes back only its length is known here; whether it verifies is for
/// `QuantumTransaction::verify` to say. A private key is always one that the
/// scheme's generator made, so the scheme is never asked to sign with bytes
/// that are no key.
pub fn sign(payload: &[u8], private_key: &PrivateKey) -> (result: Result<
    Vec<u8>,
    TransactionError,
>)
    ensures
        match result {
            Ok(signature) => signature_length_ok(signature@.len()),
            Err(e) => e == TransactionError::SigningFailure,
        },
{
    signature_or_failure(detached_sign(payload, private_key.bytes()))
}

/// The transaction that the four fields and the outcome of signing make: a
/// signature is attached to the fields as it is, and a failure is handed on
/// as it is.
pub fn signed_transaction(
    sender: String,
    receiver: String,
    amount: u64,
    nonce: u64,
    outcome: Result<Vec<u8>, TransactionError>,
) -> (result: Result<QuantumTransaction, TransactionError>)
    ensures
        match outcome {
            Ok(signature) => result matches Ok(tx) && tx@ == (TransactionView {
                sender: sender@,
                receiver: receiver@,
                amount,
                nonce,
                signature: signature@,
            }),
            Err(e) => result == Err::<QuantumTransaction, TransactionError>(e),
        },
{
    match outcome {
        Ok(signature) => Ok(QuantumTransaction { sender, receiver, amount, nonce, signature }),
        Err(e) => Err(e),
    }
}

/// What becomes of a signed transaction that is put to the test before it is
/// handed out: one that verifies under `public_key` is kept as it is, one
/// that does not is a failure to sign, and a failure handed in is handed on
/// as it is.
pub fn kept_if_verified(
    outcome: Result<QuantumTransaction, TransactionError>,
    public_key: &[u8],
) -> (result: Result<QuantumTransaction, TransactionError>)
    ensures
        match outcome {
            Ok(tx) => if tx@.verifies(public_key@) {
                result == Ok::<QuantumTransaction, TransactionError>(tx)
            } else {
                result == Err::<QuantumTransaction, TransactionError>(
                    TransactionError::SigningFailure,
                )
            },
            Err(e) => result == Err::<QuantumTransaction, TransactionError>(e),
        },
{
    match outcome {
        Ok(tx) => {
            if tx.verify(public_key) {
                Ok(tx)
            } else {
                Err(TransactionError::SigningFailure)
            }
        },
        Err(e) => Err(e),
    }
}

impl QuantumTransaction {
    /// Drafts the transaction (sender, receiver, amount, nonce) and signs it
    /// with `private_key`.
    ///
    /// An empty sender or receiver is refused as malformed before any signing
    /// is attempted. Otherwise the canonical payload of the four values is
    /// handed to `sign`, and the outcome to `signed_transaction`: what comes
    /// back is a transaction that holds the four values as given and a
    /// signature of a length that the scheme can give, or a failure to sign.
    pub fn new(
        sender: String,
        receiver: String,
        amount: u64,
        nonce: u64,
        private_key: &PrivateKey,
    ) -> (result: Result<QuantumTransaction, TransactionError>)
        ensures
            match result {
                Ok(tx) => {
                    &&& parties_ok(sender@, receiver@)
                    &&& tx@.sender == sender@
                    &&& tx@.receiver == receiver@
                    &&& tx@.amount == amount
                    &&& tx@.nonce == nonce
                    &&& tx@.well_formed()
                },
                Err(e) => if parties_ok(sender@, receiver@) {
                    e == TransactionError::SigningFailure
                } else {
                    e == TransactionError::MalformedInput
                },
            },
    {
        if sender.as_str().is_empty() || receiver.as_str().is_empty() {
            return Err(TransactionError::MalformedInput);
        }
        let payload = canonicalize(sender.as_str(), receiver.as_str(), amount, nonce);
        let outcome = sign(payload.as_slice(), private_key);
        signed_transaction(sender, receiver, amount, nonce, outcome)
    }

    /// The canonical payload: the bytes that are signed and verified.
    pub fn payload(&self) -> (payload: Vec<u8>)
        ensures
            payload@ == self@.payload(),
            fits_length_prefix(self@.sender),
            fits_length_prefix(self@.receiver),
    {
        canonicalize(self.sender.as_str(), self.receiver.as_str(), self.amount, self.nonce)
    }

    /// The identifier under which a ledger keeps this transaction.
    pub fn id(&self) -> (id: TransactionId)
        ensures
            id@ == self@.id(),
            fits_length_prefix(self@.sender),
            fits_length_prefix(self@.receiver),
    {
        TransactionId::derive(
            self.sender.as_str(),
            self.receiver.as_str(),
            self.amount,
            self.nonce,
        )
    }

    /// Whether the record is structurally sound. No signature work is done.
    pub fn is_well_formed(&self) -> (sound: bool)
        ensures
            sound == self@.well_formed(),
    {
        let sender = self.sender.as_str().as_bytes();
        let receiver = self.receiver.as_str().as_bytes();
        proof {
            lemma_no_bytes_no_chars(self.sender@);
            lemma_no_bytes_no_chars(self.receiver@);
        }
        sender.len() > 0 && receiver.len() > 0 && SIGNATURE_MIN_BYTES <= self.signature.len()
            && self.signature.len() <= SIGNATURE_MAX_BYTES
    }

    /// Whether the transaction verifies under `public_key`.
    ///
    /// A malformed record or a key of the wrong length is rejected without
    /// any signature work; such input is an ordinary rejection, never a
    /// failure of the call. Otherwise the scheme decides, on the signature,
    /// the canonical payload and the key.
    pub fn verify(&self, public_key: &[u8]) -> (accepted: bool)
        ensures
            accepted == self@.verifies(public_key@),
    {
        if !self.is_well_formed() || public_key.len() != PUBLIC_KEY_BYTES {
            return false;
        }
        let payload = self.payload();
        verify_detached(self.signature.as_slice(), payload.as_slice(), public_key)
    }
}

} // verus!
