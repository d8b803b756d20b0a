//! Authentication of value-transfer records with Falcon-512 signatures, and
//! an append-only ledger that admits only verified, unique transactions.
//!
//! A caller makes a [`KeyPair`], drafts and signs a [`QuantumTransaction`],
//! and hands it to a [`QuantumBlockchain`] together with the signer's public
//! key. The ledger admits it if it is new and its signature verifies.

pub mod codec;
pub mod error;
pub mod falcon;
pub mod keys;
pub mod ledger;
pub mod record;
pub mod transaction;

pub use codec::{canonicalize, TransactionId};
pub use error::TransactionError;
pub use keys::{KeyPair, PrivateKey};
pub use ledger::QuantumBlockchain;
pub use record::{TransactionRecord, FALCON512_SCHEME_ID};
pub use transaction::{kept_if_verified, sign, signed_transaction, QuantumTransaction};
