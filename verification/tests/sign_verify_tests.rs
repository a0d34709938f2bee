use txauth::auth::{public_key_of, sign, verify, SigningKey};
use txauth::transaction::RawTransaction;

fn sample_transaction() -> RawTransaction {
    RawTransaction {
        sender: Some(b"alice".to_vec()),
        recipient: Some(b"bob".to_vec()),
        amount: Some(4217),
        nonce: Some(9),
    }
}

#[test]
fn sign_verify() {
    let t = sample_transaction();
    let key = SigningKey { seed: vec![7u8; 32] };
    let signature = sign(&t, &key).unwrap();
    let public = public_key_of(&key).unwrap();
    assert!(verify(&t, &public, &signature).unwrap());
}
