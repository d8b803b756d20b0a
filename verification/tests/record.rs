use quantum_resistant_blockchain::{
    KeyPair, QuantumTransaction, TransactionError, TransactionRecord, FALCON512_SCHEME_ID,
};

fn signed() -> (KeyPair, QuantumTransaction) {
    let keys = KeyPair::generate().expect("key generation");
    let tx = QuantumTransaction::new("Alice".to_string(), "Bob".to_string(), 100, 1, keys.private_key())
        .expect("a fresh key signs");
    (keys, tx)
}

#[test]
fn record_holds_the_fields_and_the_scheme_tag() {
    let (_, tx) = signed();
    let record = tx.clone().into_record();
    assert_eq!(record.sender, "Alice");
    assert_eq!(record.receiver, "Bob");
    assert_eq!(record.amount, 100);
    assert_eq!(record.nonce, 1);
    assert_eq!(record.signature, tx.signature);
    assert_eq!(record.scheme_id, FALCON512_SCHEME_ID);
    assert_eq!(FALCON512_SCHEME_ID, 1);
}

#[test]
fn record_reads_back_as_the_transaction() {
    let (keys, tx) = signed();
    let back = QuantumTransaction::from_record(tx.clone().into_record());
    assert_eq!(back, Ok(tx));
    assert!(back.expect("read back").verify(keys.public_key()));
}

#[test]
fn record_of_an_unknown_scheme_is_malformed() {
    let (_, tx) = signed();
    let mut record = tx.into_record();
    record.scheme_id = 2;
    assert_eq!(QuantumTransaction::from_record(record), Err(TransactionError::MalformedInput));
}

#[test]
fn record_without_a_party_or_a_signature_is_malformed() {
    let (_, tx) = signed();
    let mut nameless = tx.clone().into_record();
    nameless.sender.clear();
    assert_eq!(QuantumTransaction::from_record(nameless), Err(TransactionError::MalformedInput));

    let mut aimless = tx.clone().into_record();
    aimless.receiver.clear();
    assert_eq!(QuantumTransaction::from_record(aimless), Err(TransactionError::MalformedInput));

    let unsigned = TransactionRecord {
        sender: "Alice".to_string(),
        receiver: "Bob".to_string(),
        amount: 100,
        nonce: 1,
        signature: Vec::new(),
        scheme_id: FALCON512_SCHEME_ID,
    };
    assert_eq!(QuantumTransaction::from_record(unsigned), Err(TransactionError::MalformedInput));
}
