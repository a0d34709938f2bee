use txauth::transaction::{canonicalize, MalformedTransactionError, RawTransaction};

fn small_transaction() -> RawTransaction {
    RawTransaction {
        sender: Some(vec![0xAA]),
        recipient: Some(Vec::new()),
        amount: Some(2),
        nonce: Some(3),
    }
}

#[test]
fn canonical_bytes_exact() {
    let bytes = canonicalize(&small_transaction()).unwrap();
    let expected: Vec<u8> = vec![
        1, 0, 0, 0, 0, 0, 0, 0, // sender length
        0xAA, // sender
        0, 0, 0, 0, 0, 0, 0, 0, // recipient length (empty)
        2, 0, 0, 0, 0, 0, 0, 0, // amount, little endian
        3, 0, 0, 0, 0, 0, 0, 0, // nonce, little endian
    ];
    assert_eq!(bytes, expected);
}

#[test]
fn canonical_bytes_exact_named_parties() {
    let t = RawTransaction {
        sender: Some(b"alice".to_vec()),
        recipient: Some(b"bob".to_vec()),
        amount: Some(100),
        nonce: Some(1),
    };
    let bytes = canonicalize(&t).unwrap();
    let mut expected: Vec<u8> = Vec::new();
    expected.extend_from_slice(&5u64.to_le_bytes());
    expected.extend_from_slice(b"alice");
    expected.extend_from_slice(&3u64.to_le_bytes());
    expected.extend_from_slice(b"bob");
    expected.extend_from_slice(&100u64.to_le_bytes());
    expected.extend_from_slice(&1u64.to_le_bytes());
    assert_eq!(bytes, expected);
}

#[test]
fn canonicalize_deterministic() {
    let first = canonicalize(&small_transaction()).unwrap();
    let second = canonicalize(&small_transaction()).unwrap();
    assert_eq!(first, second);
}

#[test]
fn distinct_transactions_encode_differently() {
    let t1 = small_transaction();
    let mut t2 = small_transaction();
    t2.nonce = Some(4);
    assert_ne!(canonicalize(&t1).unwrap(), canonicalize(&t2).unwrap());

    // Moving bytes between fields does not collide either: the length
    // prefixes keep the field boundaries apart.
    let a = RawTransaction {
        sender: Some(b"ab".to_vec()),
        recipient: Some(b"c".to_vec()),
        amount: Some(0),
        nonce: Some(0),
    };
    let b = RawTransaction {
        sender: Some(b"a".to_vec()),
        recipient: Some(b"bc".to_vec()),
        amount: Some(0),
        nonce: Some(0),
    };
    assert_ne!(canonicalize(&a).unwrap(), canonicalize(&b).unwrap());
}

#[test]
fn each_missing_field_is_named() {
    let mut t = small_transaction();
    t.sender = None;
    assert_eq!(
        canonicalize(&t),
        Err(MalformedTransactionError::MissingSender)
    );

    let mut t = small_transaction();
    t.recipient = None;
    assert_eq!(
        canonicalize(&t),
        Err(MalformedTransactionError::MissingRecipient)
    );

    let mut t = small_transaction();
    t.amount = None;
    assert_eq!(
        canonicalize(&t),
        Err(MalformedTransactionError::MissingAmount)
    );

    let mut t = small_transaction();
    t.nonce = None;
    assert_eq!(canonicalize(&t), Err(MalformedTransactionError::MissingNonce));
}

#[test]
fn missing_fields_reported_in_field_order() {
    let t = RawTransaction {
        sender: None,
        recipient: None,
        amount: None,
        nonce: None,
    };
    assert_eq!(
        canonicalize(&t),
        Err(MalformedTransactionError::MissingSender)
    );
}
