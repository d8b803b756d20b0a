//! The record in which a transaction leaves the library, for whoever stores
//! or transmits it.
//!
//! A record holds the transaction's fields in a fixed order and ends with a
//! tag that names the signature scheme, so that a reader of a later day can
//! tell which scheme a stored signature belongs to.

use crate::error::TransactionError;
use crate::transaction::{QuantumTransaction, TransactionView};
use vstd::prelude::*;

verus! {

/// The tag of Falcon-512, the one scheme that this library signs with.
pub const FALCON512_SCHEME_ID: u8 = 1;

/// A transaction as it is stored or sent: sender, receiver, amount, nonce,
/// signature, and the tag of the signature scheme.
#[derive(Debug, Clone, PartialEq, Eq)]
pub struct TransactionRecord {
    pub sender: String,
    pub receiver: String,
    pub amount: u64,
    pub nonce: u64,
    pub signature: Vec<u8>,
    pub scheme_id: u8,
}

/// What a record holds, as mathematical values.
pub struct RecordView {
    pub transaction: TransactionView,
    pub scheme_id: u8,
}

impl RecordView {
    /// Whether the record can be read back: its scheme is the one this
    /// library knows, and its fields make a well-formed transaction.
    pub open spec fn readable(self) -> bool {
        self.scheme_id == FALCON512_SCHEME_ID && self.transaction.well_formed()
    }
}

impl View for TransactionRecord {
    type V = RecordView;

    open spec fn view(&self) -> RecordView {
        RecordView {
            transaction: TransactionView {
                sender: self.sender@,
                receiver: self.receiver@,
                amount: self.amount,
                nonce: self.nonce,
                signature: self.signature@,
            },
            scheme_id: self.scheme_id,
        }
    }
}

impl QuantumTransaction {
    /// The record of this transaction, tagged with the scheme it was signed
    /// with.
    pub fn into_record(self) -> (record: TransactionRecord)
        ensures
            record@.transaction == self@,
            record@.scheme_id == FALCON512_SCHEME_ID,
    {
        TransactionRecord {
            sender: self.sender,
            receiver: self.receiver,
            amount: self.amount,
            nonce: self.nonce,
            signature: self.signature,
            scheme_id: FALCON512_SCHEME_ID,
        }
    }

    /// The transaction that `record` holds. A record of another scheme, or
    /// one whose fields make no well-formed transaction, is refused as
    /// malformed; no signature work is done.
    pub fn from_record(record: TransactionRecord) -> (result: Result<
        QuantumTransaction,
        TransactionError,
    >)
        ensures
            record@.readable() ==> (result matches Ok(tx) && tx@ == record@.transaction),
            !record@.readable() ==> result == Err::<QuantumTransaction, TransactionError>(
                TransactionError::MalformedInput,
            ),
    {
        if record.scheme_id != FALCON512_SCHEME_ID {
            return Err(TransactionError::MalformedInput);
        }
        let tx = QuantumTransaction {
            sender: record.sender,
            receiver: record.receiver,
            amount: record.amount,
            nonce: record.nonce,
            signature: record.signature,
        };
        if tx.is_well_formed() {
            Ok(tx)
        } else {
            Err(TransactionError::MalformedInput)
        }
    }
}

} // verus!
