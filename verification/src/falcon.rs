//! The Falcon-512 signature primitive, as `pqcrypto_falcon` provides it.
//!
//! Nothing in this file is proved: each function states what the crate's
//! source shows of the call it makes, and the rest of the library is verified
//! against these statements. Keys and signatures cross this boundary as
//! plain bytes.

use pqcrypto_falcon::falcon512;
use pqcrypto_traits::sign::DetachedSignature;
use pqcrypto_traits::sign::PublicKey;
use pqcrypto_traits::sign::SecretKey;
use vstd::prelude::*;

verus! {

/// The number of bytes of a Falcon-512 public key.
pub const PUBLIC_KEY_BYTES: usize = 897;

/// The number of bytes of a Falcon-512 private key.
pub const SECRET_KEY_BYTES: usize = 1281;

/// The largest number of bytes of a detached Falcon-512 signature.
pub const SIGNATURE_MAX_BYTES: usize = 752;

/// The smallest number of bytes of a detached Falcon-512 signature: a header
/// byte, a nonce of forty bytes, and a signature value that is not empty.
pub const SIGNATURE_MIN_BYTES: usize = 42;

/// Whether Falcon-512 verification accepts `signature` for `message` under
/// `public_key`, all three given as bytes.
pub uninterp spec fn falcon512_accepts(
    signature: Seq<u8>,
    message: Seq<u8>,
    public_key: Seq<u8>,
) -> bool;

/// Whether `secret_key` is a private key as
/// `pqcrypto_falcon::falcon512::keypair` hands them out: the bytes of a
/// basis that the scheme's own generator found. Nothing else is said of it,
/// and no code can test it; a key has it by coming from `keypair`.
pub uninterp spec fn falcon512_signing_key(secret_key: Seq<u8>) -> bool;

/// Calls `pqcrypto_falcon::falcon512::keypair` and hands out the two keys as
/// bytes, the public key first. The keys are fixed-size arrays in that crate,
/// and the second is, by the meaning of the word, a private key as `keypair`
/// hands them out; which keys come out is up to the random source. Where the
/// random source or the key encoding fails, the call does not return.
#[verifier::external_body]
pub(crate) fn keypair() -> (keys: (Vec<u8>, Vec<u8>))
    ensures
        keys.0@.len() == PUBLIC_KEY_BYTES,
        keys.1@.len() == SECRET_KEY_BYTES,
        falcon512_signing_key(keys.1@),
{
    let (public_key, secret_key) = falcon512::keypair();
    (public_key.as_bytes().to_vec(), secret_key.as_bytes().to_vec())
}

/// Calls `pqcrypto_falcon::falcon512::detached_sign` on `message` with the
/// private key that `SecretKey::from_bytes` makes of `secret_key`, and hands
/// out the signature's bytes. `from_bytes` accepts exactly the keys of
/// `SECRET_KEY_BYTES` bytes, and a signature lives in a buffer of
/// `SIGNATURE_MAX_BYTES`. Signing draws on the random source, so nothing more
/// is claimed of the bytes.
///
/// The scheme signs by drawing candidates until one is short enough. It
/// tests the encoding of a key, not whether the key is a basis, and on bytes
/// that pass the first test without being one the drawing need never end.
/// So only a key that `keypair` made may be handed in. Where the random
/// source fails, the call does not return.
#[verifier::external_body]
pub(crate) fn detached_sign(message: &[u8], secret_key: &[u8]) -> (signature: Option<Vec<u8>>)
    requires
        falcon512_signing_key(secret_key@),
    ensures
        signature is Some <==> secret_key@.len() == SECRET_KEY_BYTES,
        signature matches Some(bytes) ==> bytes@.len() <= SIGNATURE_MAX_BYTES,
{
    match falcon512::SecretKey::from_bytes(secret_key) {
        Ok(key) => Some(falcon512::detached_sign(message, &key).as_bytes().to_vec()),
        Err(_) => None,
    }
}

/// Calls `pqcrypto_falcon::falcon512::verify_detached_signature` on the
/// signature and the public key that `from_bytes` makes of the given bytes,
/// and says whether it returned `Ok`. Bytes whose length `from_bytes` refuses
/// count as not accepted. Verification reads nothing but its three arguments.
#[verifier::external_body]
pub(crate) fn verify_detached(signature: &[u8], message: &[u8], public_key: &[u8]) -> (accepted:
    bool)
    ensures
        accepted == falcon512_accepts(signature@, message@, public_key@),
{
    match (
        falcon512::DetachedSignature::from_bytes(signature),
        falcon512::PublicKey::from_bytes(public_key),
    ) {
        (Ok(sig), Ok(key)) => falcon512::verify_detached_signature(&sig, message, &key).is_ok(),
        _ => false,
    }
}

} // verus!
