use quantum_resistant_blockchain::{
    KeyPair, QuantumBlockchain, QuantumTransaction, TransactionError, TransactionId,
};

fn fresh_keys() -> KeyPair {
    KeyPair::generate().expect("key generation")
}

fn signed(keys: &KeyPair, sender: &str, receiver: &str, amount: u64, nonce: u64) -> QuantumTransaction {
    QuantumTransaction::new(sender.to_string(), receiver.to_string(), amount, nonce, keys.private_key())
        .expect("a fresh key signs")
}

#[test]
fn signed_transaction_is_admitted_and_listed() {
    let alice = fresh_keys();
    let tx = signed(&alice, "Alice", "Bob", 100, 1);
    let mut ledger = QuantumBlockchain::new();
    assert_eq!(ledger.add_transaction(tx.clone(), alice.public_key()), Ok(()));
    assert_eq!(ledger.len(), 1);
    assert_eq!(ledger.iter().len(), 1);
    assert_eq!(ledger.iter()[0], tx);
}

#[test]
fn flipped_signature_byte_is_rejected() {
    let alice = fresh_keys();
    let mut tx = signed(&alice, "Alice", "Bob", 100, 1);
    tx.signature[0] ^= 0xff;
    let mut ledger = QuantumBlockchain::new();
    assert_eq!(
        ledger.add_transaction(tx, alice.public_key()),
        Err(TransactionError::InvalidSignature)
    );
    assert_eq!(ledger.len(), 0);
    assert!(ledger.is_empty());
    assert!(ledger.iter().is_empty());
}

#[test]
fn new_ledger_is_empty() {
    let ledger = QuantumBlockchain::new();
    assert_eq!(ledger.len(), 0);
    assert!(ledger.iter().is_empty());
    assert_eq!(ledger.get(&TransactionId::derive("Alice", "Bob", 100, 1)), None);
}

#[test]
fn admitted_transaction_is_found_by_its_identifier() {
    let alice = fresh_keys();
    let tx = signed(&alice, "Alice", "Bob", 100, 1);
    let id = tx.id();
    let mut ledger = QuantumBlockchain::new();
    assert_eq!(ledger.get(&id), None);
    assert_eq!(ledger.add_transaction(tx.clone(), alice.public_key()), Ok(()));
    assert_eq!(ledger.get(&id), Some(&tx));
    assert_eq!(ledger.get(&TransactionId::derive("Alice", "Bob", 100, 1)), Some(&tx));
    assert_eq!(ledger.get(&TransactionId::derive("Alice", "Bob", 100, 2)), None);
}

#[test]
fn second_admission_of_the_same_transaction_is_a_duplicate() {
    let alice = fresh_keys();
    let tx = signed(&alice, "Alice", "Bob", 100, 1);
    let mut ledger = QuantumBlockchain::new();
    assert_eq!(ledger.add_transaction(tx.clone(), alice.public_key()), Ok(()));
    assert_eq!(
        ledger.add_transaction(tx.clone(), alice.public_key()),
        Err(TransactionError::DuplicateTransaction)
    );
    assert_eq!(ledger.len(), 1);
    assert_eq!(ledger.iter(), &[tx]);
}

#[test]
fn same_payload_signed_again_is_a_duplicate() {
    let alice = fresh_keys();
    let first = signed(&alice, "Alice", "Bob", 100, 1);
    let again = signed(&alice, "Alice", "Bob", 100, 1);
    let mut ledger = QuantumBlockchain::new();
    assert_eq!(ledger.add_transaction(first.clone(), alice.public_key()), Ok(()));
    assert_eq!(
        ledger.add_transaction(again, alice.public_key()),
        Err(TransactionError::DuplicateTransaction)
    );
    assert_eq!(ledger.len(), 1);
    assert_eq!(ledger.get(&first.id()), Some(&first));
}

#[test]
fn duplicate_is_reported_even_with_a_broken_signature() {
    let alice = fresh_keys();
    let tx = signed(&alice, "Alice", "Bob", 100, 1);
    let mut broken = tx.clone();
    broken.signature[0] ^= 0x01;
    let mut ledger = QuantumBlockchain::new();
    assert_eq!(ledger.add_transaction(tx.clone(), alice.public_key()), Ok(()));
    assert_eq!(
        ledger.add_transaction(broken, alice.public_key()),
        Err(TransactionError::DuplicateTransaction)
    );
    assert_eq!(ledger.iter(), &[tx]);
}

#[test]
fn another_nonce_makes_another_transaction() {
    let alice = fresh_keys();
    let first = signed(&alice, "Alice", "Bob", 100, 1);
    let second = signed(&alice, "Alice", "Bob", 100, 2);
    let mut ledger = QuantumBlockchain::new();
    assert_eq!(ledger.add_transaction(first.clone(), alice.public_key()), Ok(()));
    assert_eq!(ledger.add_transaction(second.clone(), alice.public_key()), Ok(()));
    assert_eq!(ledger.len(), 2);
    assert_eq!(ledger.get(&first.id()), Some(&first));
    assert_eq!(ledger.get(&second.id()), Some(&second));
}

#[test]
fn tampered_signature_leaves_the_ledger_as_it_was() {
    let alice = fresh_keys();
    let kept = signed(&alice, "Alice", "Bob", 100, 1);
    let mut tampered = signed(&alice, "Alice", "Carol", 5, 2);
    let last = tampered.signature.len() - 1;
    tampered.signature[last] ^= 0x80;
    let id = tampered.id();
    let mut ledger = QuantumBlockchain::new();
    assert_eq!(ledger.add_transaction(kept.clone(), alice.public_key()), Ok(()));
    assert_eq!(
        ledger.add_transaction(tampered, alice.public_key()),
        Err(TransactionError::InvalidSignature)
    );
    assert_eq!(ledger.len(), 1);
    assert_eq!(ledger.iter(), &[kept]);
    assert_eq!(ledger.get(&id), None);
}

#[test]
fn transaction_under_the_wrong_key_is_rejected() {
    let alice = fresh_keys();
    let bob = fresh_keys();
    let tx = signed(&alice, "Alice", "Bob", 100, 1);
    let mut ledger = QuantumBlockchain::new();
    assert_eq!(
        ledger.add_transaction(tx.clone(), bob.public_key()),
        Err(TransactionError::InvalidSignature)
    );
    assert_eq!(ledger.len(), 0);
    assert_eq!(ledger.add_transaction(tx, alice.public_key()), Ok(()));
    assert_eq!(ledger.len(), 1);
}

#[test]
fn transaction_altered_after_signing_is_rejected() {
    let alice = fresh_keys();
    let mut tx = signed(&alice, "Alice", "Bob", 100, 1);
    tx.amount = 1_000_000;
    let mut ledger = QuantumBlockchain::new();
    assert_eq!(
        ledger.add_transaction(tx, alice.public_key()),
        Err(TransactionError::InvalidSignature)
    );
    assert_eq!(ledger.len(), 0);
}

#[test]
fn malformed_transaction_is_rejected_as_unverified() {
    let alice = fresh_keys();
    let mut tx = signed(&alice, "Alice", "Bob", 100, 1);
    tx.sender.clear();
    let mut ledger = QuantumBlockchain::new();
    assert_eq!(
        ledger.add_transaction(tx, alice.public_key()),
        Err(TransactionError::InvalidSignature)
    );
    assert_eq!(ledger.len(), 0);
}

#[test]
fn public_key_of_the_wrong_size_is_rejected() {
    let alice = fresh_keys();
    let tx = signed(&alice, "Alice", "Bob", 100, 1);
    let mut ledger = QuantumBlockchain::new();
    assert_eq!(ledger.add_transaction(tx, &[]), Err(TransactionError::InvalidSignature));
    assert_eq!(ledger.len(), 0);
}

#[test]
fn entries_come_out_in_the_order_of_admission() {
    let alice = fresh_keys();
    let bob = fresh_keys();
    let first = signed(&alice, "Alice", "Bob", 3, 1);
    let second = signed(&bob, "Bob", "Alice", 2, 1);
    let third = signed(&alice, "Alice", "Bob", 1, 2);
    let mut ledger = QuantumBlockchain::new();
    assert_eq!(ledger.add_transaction(first.clone(), alice.public_key()), Ok(()));
    assert_eq!(ledger.add_transaction(second.clone(), bob.public_key()), Ok(()));
    assert_eq!(ledger.add_transaction(third.clone(), alice.public_key()), Ok(()));
    assert_eq!(ledger.iter(), &[first.clone(), second.clone(), third.clone()]);
    assert_eq!(ledger.iter(), &[first, second, third]);
    assert_eq!(ledger.iter().iter().map(|tx| tx.amount).sum::<u64>(), 6);
}

#[test]
fn lookups_change_nothing() {
    let alice = fresh_keys();
    let tx = signed(&alice, "Alice", "Bob", 100, 1);
    let mut ledger = QuantumBlockchain::new();
    assert_eq!(ledger.add_transaction(tx.clone(), alice.public_key()), Ok(()));
    let id = tx.id();
    assert_eq!(ledger.get(&id), ledger.get(&id));
    assert!(ledger.verify_transaction(&tx, alice.public_key()));
    assert_eq!(ledger.len(), 1);
    assert_eq!(ledger.iter(), &[tx]);
}

#[test]
fn admission_answer_for_each_case() {
    let alice = fresh_keys();
    let tx = signed(&alice, "Alice", "Bob", 100, 1);
    let known = tx.id();
    let unknown = TransactionId::derive("Alice", "Bob", 100, 2);
    let mut ledger = QuantumBlockchain::new();
    assert_eq!(ledger.check_admission(&known, true), Ok(()));
    assert_eq!(ledger.check_admission(&known, false), Err(TransactionError::InvalidSignature));
    assert_eq!(ledger.add_transaction(tx, alice.public_key()), Ok(()));
    assert_eq!(ledger.check_admission(&known, true), Err(TransactionError::DuplicateTransaction));
    assert_eq!(ledger.check_admission(&known, false), Err(TransactionError::DuplicateTransaction));
    assert_eq!(ledger.check_admission(&unknown, true), Ok(()));
    assert_eq!(ledger.check_admission(&unknown, false), Err(TransactionError::InvalidSignature));
    assert_eq!(ledger.len(), 1);
}

#[test]
fn ledgers_are_independent() {
    let alice = fresh_keys();
    let tx = signed(&alice, "Alice", "Bob", 100, 1);
    let mut one = QuantumBlockchain::new();
    let mut other = QuantumBlockchain::new();
    assert_eq!(one.add_transaction(tx.clone(), alice.public_key()), Ok(()));
    assert_eq!(other.len(), 0);
    assert_eq!(other.add_transaction(tx, alice.public_key()), Ok(()));
    assert_eq!(one.len(), 1);
    assert_eq!(other.len(), 1);
}
