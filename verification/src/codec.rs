//! The canonical byte form of a transaction's payload, and the identifier
//! derived from it.
//!
//! The payload is what gets signed and verified. It is a length-prefixed
//! concatenation: each text field as its UTF-8 bytes behind their count, each
//! number as eight little-endian bytes. No separator is involved, so a field
//! that holds any byte whatever cannot be confused with a field boundary.

use vstd::bytes::*;
use vstd::prelude::*;
use vstd::slice::*;
use vstd::string::*;
use vstd::utf8::*;

verus! {

/// Whether the UTF-8 form of `text` has a byte count that the eight-byte
/// length prefix can hold. Every `str` does.
pub open spec fn fits_length_prefix(text: Seq<char>) -> bool {
    encode_utf8(text).len() <= u64::MAX
}

/// `bytes` behind their own count, the count as eight little-endian bytes.
pub open spec fn length_prefixed(bytes: Seq<u8>) -> Seq<u8> {
    spec_u64_to_le_bytes(bytes.len() as u64) + bytes
}

/// The canonical payload of (sender, receiver, amount, nonce): the two text
/// fields length-prefixed, then the two numbers, in this order.
pub open spec fn canonical_payload(
    sender: Seq<char>,
    receiver: Seq<char>,
    amount: u64,
    nonce: u64,
) -> Seq<u8> {
    length_prefixed(encode_utf8(sender)) + length_prefixed(encode_utf8(receiver))
        + spec_u64_to_le_bytes(amount) + spec_u64_to_le_bytes(nonce)
}

/// A text has no bytes exactly when it has no characters.
pub proof fn lemma_no_bytes_no_chars(text: Seq<char>)
    ensures
        encode_utf8(text).len() == 0 <==> text.len() == 0,
{
    if text.len() > 0 {
        assert(encode_scalar(text[0] as u32).len() > 0);
    }
}

/// Two concatenations that agree, and whose left parts have one length,
/// agree part by part.
proof fn lemma_concat_parts(a1: Seq<u8>, b1: Seq<u8>, a2: Seq<u8>, b2: Seq<u8>)
    requires
        a1 + b1 == a2 + b2,
        a1.len() == a2.len(),
    ensures
        a1 == a2,
        b1 == b2,
{
    let whole = a1 + b1;
    let cut = a1.len() as int;
    assert(a1 =~= whole.subrange(0, cut));
    assert(a2 =~= whole.subrange(0, cut));
    assert(b1 =~= whole.subrange(cut, whole.len() as int));
    assert(b2 =~= whole.subrange(cut, whole.len() as int));
}

/// The eight-byte form of a number determines the number.
proof fn lemma_le_bytes_injective(x: u64, y: u64)
    requires
        spec_u64_to_le_bytes(x) == spec_u64_to_le_bytes(y),
    ensures
        x == y,
{
    lemma_auto_spec_u64_to_from_le_bytes();
    assert(spec_u64_from_le_bytes(spec_u64_to_le_bytes(x)) == x);
    assert(spec_u64_from_le_bytes(spec_u64_to_le_bytes(y)) == y);
}

/// A length-prefixed field followed by anything can be read back in one way
/// only: the field and the rest are both determined.
proof fn lemma_length_prefixed_parts(
    field1: Seq<u8>,
    rest1: Seq<u8>,
    field2: Seq<u8>,
    rest2: Seq<u8>,
)
    requires
        field1.len() <= u64::MAX,
        field2.len() <= u64::MAX,
        length_prefixed(field1) + rest1 == length_prefixed(field2) + rest2,
    ensures
        field1 == field2,
        rest1 == rest2,
{
    lemma_auto_spec_u64_to_from_le_bytes();
    let count1 = spec_u64_to_le_bytes(field1.len() as u64);
    let count2 = spec_u64_to_le_bytes(field2.len() as u64);
    assert(count1 + (field1 + rest1) =~= length_prefixed(field1) + rest1);
    assert(count2 + (field2 + rest2) =~= length_prefixed(field2) + rest2);
    lemma_concat_parts(count1, field1 + rest1, count2, field2 + rest2);
    lemma_le_bytes_injective(field1.len() as u64, field2.len() as u64);
    lemma_concat_parts(field1, rest1, field2, rest2);
}

/// The canonical payload is injective: two tuples with one payload are one
/// tuple. It holds of every text whose UTF-8 form the length prefix can
/// count, which is every text a `str` can hold.
pub proof fn lemma_canonical_payload_injective(
    sender1: Seq<char>,
    receiver1: Seq<char>,
    amount1: u64,
    nonce1: u64,
    sender2: Seq<char>,
    receiver2: Seq<char>,
    amount2: u64,
    nonce2: u64,
)
    requires
        fits_length_prefix(sender1),
        fits_length_prefix(receiver1),
        fits_length_prefix(sender2),
        fits_length_prefix(receiver2),
        canonical_payload(sender1, receiver1, amount1, nonce1) == canonical_payload(
            sender2,
            receiver2,
            amount2,
            nonce2,
        ),
    ensures
        sender1 == sender2,
        receiver1 == receiver2,
        amount1 == amount2,
        nonce1 == nonce2,
{
    lemma_auto_spec_u64_to_from_le_bytes();
    let s1 = encode_utf8(sender1);
    let s2 = encode_utf8(sender2);
    let r1 = encode_utf8(receiver1);
    let r2 = encode_utf8(receiver2);
    let numbers1 = spec_u64_to_le_bytes(amount1) + spec_u64_to_le_bytes(nonce1);
    let numbers2 = spec_u64_to_le_bytes(amount2) + spec_u64_to_le_bytes(nonce2);
    let tail1 = length_prefixed(r1) + numbers1;
    let tail2 = length_prefixed(r2) + numbers2;
    assert(length_prefixed(s1) + tail1 =~= canonical_payload(
        sender1,
        receiver1,
        amount1,
        nonce1,
    ));
    assert(length_prefixed(s2) + tail2 =~= canonical_payload(
        sender2,
        receiver2,
        amount2,
        nonce2,
    ));
    lemma_length_prefixed_parts(s1, tail1, s2, tail2);
    lemma_length_prefixed_parts(r1, numbers1, r2, numbers2);
    lemma_concat_parts(
        spec_u64_to_le_bytes(amount1),
        spec_u64_to_le_bytes(nonce1),
        spec_u64_to_le_bytes(amount2),
        spec_u64_to_le_bytes(nonce2),
    );
    lemma_le_bytes_injective(amount1, amount2);
    lemma_le_bytes_injective(nonce1, nonce2);
    encode_utf8_decode_utf8(sender1);
    encode_utf8_decode_utf8(sender2);
    encode_utf8_decode_utf8(receiver1);
    encode_utf8_decode_utf8(receiver2);
}

/// Appends `bytes`, behind their count, to `out`.
fn push_length_prefixed(out: &mut Vec<u8>, bytes: &[u8])
    ensures
        final(out)@ == old(out)@ + length_prefixed(bytes@),
        bytes@.len() <= u64::MAX,
{
    let count = u64_to_le_bytes(bytes.len() as u64);
    push_bytes(out, count.as_slice());
    push_bytes(out, bytes);
}

/// Appends `bytes` to `out`.
fn push_bytes(out: &mut Vec<u8>, bytes: &[u8])
    ensures
        final(out)@ == old(out)@ + bytes@,
{
    let mut i: usize = 0;
    while i < bytes.len()
        invariant
            i <= bytes@.len(),
            out@ == old(out)@ + bytes@.subrange(0, i as int),
        decreases bytes@.len() - i,
    {
        out.push(bytes[i]);
        i += 1;
    }
    assert(bytes@.subrange(0, i as int) =~= bytes@);
}

/// The canonical byte form of (sender, receiver, amount, nonce). Signing and
/// verification both take their message from here and from nowhere else.
pub fn canonicalize(sender: &str, receiver: &str, amount: u64, nonce: u64) -> (payload: Vec<u8>)
    ensures
        payload@ == canonical_payload(sender@, receiver@, amount, nonce),
        fits_length_prefix(sender@),
        fits_length_prefix(receiver@),
{
    let mut payload: Vec<u8> = Vec::new();
    push_length_prefixed(&mut payload, sender.as_bytes());
    push_length_prefixed(&mut payload, receiver.as_bytes());
    let amount_bytes = u64_to_le_bytes(amount);
    push_bytes(&mut payload, amount_bytes.as_slice());
    let nonce_bytes = u64_to_le_bytes(nonce);
    push_bytes(&mut payload, nonce_bytes.as_slice());
    payload
}

/// Whether two byte strings are the same.
pub(crate) fn same_bytes(left: &[u8], right: &[u8]) -> (same: bool)
    ensures
        same == (left@ == right@),
{
    if left.len() != right.len() {
        return false;
    }
    let mut i: usize = 0;
    while i < left.len()
        invariant
            left@.len() == right@.len(),
            i <= left@.len(),
            left@.subrange(0, i as int) == right@.subrange(0, i as int),
        decreases left@.len() - i,
    {
        if left[i] != right[i] {
            return false;
        }
        assert(left@.subrange(0, i + 1) =~= left@.subrange(0, i as int).push(left@[i as int]));
        assert(right@.subrange(0, i + 1) =~= right@.subrange(0, i as int).push(right@[i as int]));
        i += 1;
    }
    assert(left@ =~= left@.subrange(0, i as int));
    assert(right@ =~= right@.subrange(0, i as int));
    true
}

/// The identifier of a transaction: its canonical payload. The signature has
/// no part in it, so the identifier is the same before and after signing, and
/// two transactions share it exactly when they share sender, receiver, amount
/// and nonce.
#[derive(Debug, Clone, PartialEq, Eq, Hash)]
pub struct TransactionId {
    bytes: Vec<u8>,
}

impl View for TransactionId {
    type V = Seq<u8>;

    closed spec fn view(&self) -> Seq<u8> {
        self.bytes@
    }
}

impl TransactionId {
    /// The identifier of (sender, receiver, amount, nonce).
    pub fn derive(sender: &str, receiver: &str, amount: u64, nonce: u64) -> (id: TransactionId)
        ensures
            id@ == canonical_payload(sender@, receiver@, amount, nonce),
            fits_length_prefix(sender@),
            fits_length_prefix(receiver@),
    {
        TransactionId { bytes: canonicalize(sender, receiver, amount, nonce) }
    }

    /// The bytes of the identifier.
    pub fn as_bytes(&self) -> (bytes: &[u8])
        ensures
            bytes@ == self@,
    {
        self.bytes.as_slice()
    }

    /// Whether `other` is the same identifier.
    pub fn matches(&self, other: &TransactionId) -> (same: bool)
        ensures
            same == (self@ == other@),
    {
        same_bytes(self.bytes.as_slice(), other.bytes.as_slice())
    }
}

} // verus!
